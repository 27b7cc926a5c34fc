use vstd::prelude::*;

use crate::error::MigrationError;
use crate::seaql_migrations::ModelV;
use crate::statement::Statement;

verus! {

/// The type of database backend for real world databases.
#[derive(Debug, Copy, Clone, PartialEq, Eq, Structural)]
pub enum MigrationDbBackend {
    /// A MySQL backend
    MySql,
    /// A PostgreSQL backend
    Postgres,
    /// A SQLite backend
    Sqlite,
}

/// The view of one name — a table's, a column's, a unit's — as the
/// contracts see it. Unverified driver code that implements the traits
/// below names the specification items' types through these aliases.
pub type NameView = Seq<char>;

/// The view of a set of table or column names.
pub type NameSetView = Set<Seq<char>>;

/// The view of the bookkeeping table's rows, in recorded order.
pub type HistoryView = Seq<ModelV>;

/// One row of a query result, read through typed, fallible column accessors.
///
/// The two spec functions give the abstract content of the row: which
/// columns it holds as a 64-bit integer and which as a string. An accessor
/// returns the column's value exactly when the row holds it; otherwise it
/// fails.
pub trait MigrationQueryResult: Sized {
    /// The integer columns of this row, by column name.
    spec fn i64_col(&self, col: Seq<char>) -> Option<i64>;

    /// The string columns of this row, by column name.
    spec fn string_col(&self, col: Seq<char>) -> Option<Seq<char>>;

    fn try_get_i64(&self, col: &str) -> (r: Result<i64, MigrationError>)
        ensures
            match self.i64_col(col@) {
                Some(v) => r == Ok::<i64, MigrationError>(v),
                None => r is Err,
            },
    ;

    fn try_get_string(&self, col: &str) -> (r: Result<String, MigrationError>)
        ensures
            match self.string_col(col@) {
                Some(s) => r is Ok && r->Ok_0@ == s,
                None => r is Err,
            },
    ;
}

/// A borrowed row answers column reads exactly as the row itself does.
impl<'a, R: MigrationQueryResult> MigrationQueryResult for &'a R {
    open spec fn i64_col(&self, col: Seq<char>) -> Option<i64> {
        (**self).i64_col(col)
    }

    open spec fn string_col(&self, col: Seq<char>) -> Option<Seq<char>> {
        (**self).string_col(col)
    }

    fn try_get_i64(&self, col: &str) -> (r: Result<i64, MigrationError>) {
        (**self).try_get_i64(col)
    }

    fn try_get_string(&self, col: &str) -> (r: Result<String, MigrationError>) {
        (**self).try_get_string(col)
    }
}

/// What a successfully executed statement does to the modelled database
/// state: `h0`/`t0` are the history rows and user tables before, `h1`/`t1`
/// after. A history value of `None` means the bookkeeping table is absent.
///
/// Statements carried over from the SQL-AST library are opaque; of them the
/// model only records that a migration unit's statements leave the
/// bookkeeping table alone, which the engine assumes of every unit.
pub open spec fn exec_ok_effect(
    stmt: Statement,
    h0: Option<Seq<ModelV>>,
    t0: Set<Seq<char>>,
    h1: Option<Seq<ModelV>>,
    t1: Set<Seq<char>>,
) -> bool {
    match stmt {
        Statement::CreateHistoryTable => {
            &&& h1 == (if h0 is Some {
                h0
            } else {
                Some(Seq::<ModelV>::empty())
            })
            &&& t1 == t0.insert("seaql_migrations"@)
        },
        Statement::InsertHistory { version, applied_at } => {
            &&& h0 is Some
            &&& (forall|i: int|
                0 <= i < h0.unwrap().len() ==> h0.unwrap()[i].version != version@)
            &&& h1 == Some(
                h0.unwrap().push(ModelV { version: version@, applied_at: applied_at as int }),
            )
            &&& t1 == t0
        },
        Statement::DeleteHistory { version } => {
            &&& h0 is Some
            &&& h1 == Some(h0.unwrap().filter(|m: ModelV| m.version != version@))
            &&& t1 == t0
        },
        Statement::DropUserTable { table } => {
            &&& h1 == (if table@ == "seaql_migrations"@ {
                None::<Seq<ModelV>>
            } else {
                h0
            })
            &&& t1 == t0.remove(table@)
        },
        Statement::DropForeignKeyByName { .. } => h1 == h0 && t1 == t0,
        Statement::SetForeignKeyCheck { .. } => h1 == h0 && t1 == t0,
        Statement::SelectHistory => h1 == h0 && t1 == t0,
        Statement::QueryTables => h1 == h0 && t1 == t0,
        Statement::HasTable { .. } => h1 == h0 && t1 == t0,
        Statement::HasColumn { .. } => h1 == h0 && t1 == t0,
        Statement::TableInfoPragma { .. } => h1 == h0 && t1 == t0,
        Statement::SelectForeignKeys => h1 == h0 && t1 == t0,
        Statement::Insert(..) => h1 == h0 && t1 == t0,
        Statement::Select(..) => h1 == h0 && t1 == t0,
        Statement::Update(..) => h1 == h0 && t1 == t0,
        Statement::Delete(..) => h1 == h0 && t1 == t0,
        Statement::CreateIndex(..) => h1 == h0 && t1 == t0,
        Statement::DropIndex(..) => h1 == h0 && t1 == t0,
        Statement::CreateForeignKey(..) => h1 == h0 && t1 == t0,
        Statement::DropForeignKey(..) => h1 == h0 && t1 == t0,
        Statement::CreateType(..) => h1 == h0 && t1 == t0,
        Statement::AlterType(..) => h1 == h0 && t1 == t0,
        Statement::DropType(..) => h1 == h0 && t1 == t0,
        _ => h1 == h0,
    }
}

/// What the engine needs from the database driver: dispatch of a buildable
/// statement as a query or a command, backend identification, and the wall
/// clock for the history's timestamps.
///
/// The specification views the connection as an abstract database: the
/// backend tag, the rows of the bookkeeping table in recorded order (`None`
/// while that table is absent), the set of user table names, and each
/// table's column names. Every method states how it moves that state; none
/// of them is promised to succeed, and a failure leaves the state as it
/// was.
///
/// The model fixes the history SELECT to return the rows in recorded
/// order, while the built SQL orders by version ascending; the two
/// coincide exactly when the declared names ascend with their position,
/// which the version-naming convention provides and the reconciliation
/// invariant presumes.
pub trait MigrationConnection: Sized {
    type QueryResult: MigrationQueryResult;

    /// The backend this connection speaks to; fixed for its lifetime.
    spec fn backend_spec(&self) -> MigrationDbBackend;

    /// The bookkeeping table's rows, in recorded order, or `None` while the
    /// table does not exist.
    spec fn history_spec(&self) -> Option<Seq<ModelV>>;

    /// The names of all user tables, the bookkeeping table included.
    spec fn tables_spec(&self) -> Set<Seq<char>>;

    /// The column names of the named table.
    spec fn columns_spec(&self, table: Seq<char>) -> Set<Seq<char>>;

    fn get_database_backend(&self) -> (b: MigrationDbBackend)
        ensures
            b == self.backend_spec(),
    ;

    /// Lifts a human message — a drift report, a missing expected row —
    /// into the engine's error type.
    fn into_migration_error(message: String) -> (e: MigrationError)
        ensures
            e == MigrationError::Message(message),
    {
        MigrationError::Message(message)
    }

    /// Seconds since the Unix epoch, by the driver's clock.
    fn current_timestamp(&mut self) -> (t: i64)
        ensures
            t > 0,
            final(self).backend_spec() == old(self).backend_spec(),
            final(self).history_spec() == old(self).history_spec(),
            final(self).tables_spec() == old(self).tables_spec(),
            forall|t2: Seq<char>| final(self).columns_spec(t2) == old(self).columns_spec(t2),
    ;

    /// Executes a non-row-returning statement.
    fn exec_stmt(&mut self, stmt: &Statement) -> (r: Result<(), MigrationError>)
        ensures
            final(self).backend_spec() == old(self).backend_spec(),
            r is Err ==> final(self).history_spec() == old(self).history_spec() && final(self).tables_spec() == old(self).tables_spec() && (forall|t: Seq<char>|
                final(self).columns_spec(t) == old(self).columns_spec(t)),
            r is Ok ==> exec_ok_effect(
                *stmt,
                old(self).history_spec(),
                old(self).tables_spec(),
                final(self).history_spec(),
                final(self).tables_spec(),
            ),
            r is Ok && !(stmt is CreateHistoryTable || stmt is DropUserTable || stmt is CreateTable
                || stmt is DropTable || stmt is AlterTable || stmt is RenameTable
                || stmt is TruncateTable || stmt is Raw) ==> (forall|t: Seq<char>|
                final(self).columns_spec(t) == old(self).columns_spec(t)),
            r is Ok && stmt is CreateHistoryTable && old(self).history_spec() is Some ==> (forall|
                t: Seq<char>,
            | final(self).columns_spec(t) == old(self).columns_spec(t)),
    ;

    /// Fetches at most one row; `None` when the result set is empty.
    fn query_one(&mut self, stmt: &Statement) -> (r: Result<
        Option<Self::QueryResult>,
        MigrationError,
    >)
        ensures
            final(self).backend_spec() == old(self).backend_spec(),
            final(self).history_spec() == old(self).history_spec(),
            final(self).tables_spec() == old(self).tables_spec(),
            forall|t: Seq<char>| final(self).columns_spec(t) == old(self).columns_spec(t),
            stmt matches Statement::HasTable { table } ==> (r is Ok && r->Ok_0 is Some) ==> {
                let row = r->Ok_0.unwrap();
                row.i64_col("rows"@) is Some && (row.i64_col("rows"@).unwrap() > 0 <==> old(self).tables_spec().contains(table@))
            },
            stmt matches Statement::HasColumn { table, column } ==> (r is Ok && r->Ok_0 is Some)
                ==> {
                let row = r->Ok_0.unwrap();
                row.i64_col("rows"@) is Some && (row.i64_col("rows"@).unwrap() > 0 <==> old(self).columns_spec(table@).contains(column@))
            },
    ;

    /// Fetches all rows, in server order.
    fn query_all(&mut self, stmt: &Statement) -> (r: Result<
        Vec<Self::QueryResult>,
        MigrationError,
    >)
        ensures
            final(self).backend_spec() == old(self).backend_spec(),
            final(self).history_spec() == old(self).history_spec(),
            final(self).tables_spec() == old(self).tables_spec(),
            forall|t: Seq<char>| final(self).columns_spec(t) == old(self).columns_spec(t),
            stmt is SelectHistory && r is Ok ==> old(self).history_spec() is Some && {
                let rows = r->Ok_0@;
                let h = old(self).history_spec().unwrap();
                rows.len() == h.len() && (forall|i: int|
                    0 <= i < h.len() ==> (#[trigger] rows[i]).string_col("version"@) == Some(
                        h[i].version,
                    ) && rows[i].i64_col("applied_at"@) is Some && rows[i].i64_col(
                        "applied_at"@,
                    ).unwrap() as int == h[i].applied_at)
            },
            stmt is QueryTables && r is Ok ==> {
                let rows = r->Ok_0@;
                (forall|i: int|
                    0 <= i < rows.len() ==> (#[trigger] rows[i]).string_col("table_name"@) is Some
                        && old(self).tables_spec().contains(
                        rows[i].string_col("table_name"@).unwrap(),
                    )) && (forall|n: Seq<char>|
                    #[trigger] old(self).tables_spec().contains(n) ==> exists|i: int|
                        0 <= i < rows.len() && (#[trigger] rows[i]).string_col("table_name"@)
                            == Some(n))
            },
            stmt matches Statement::TableInfoPragma { table } ==> r is Ok ==> {
                let rows = r->Ok_0@;
                (forall|i: int|
                    0 <= i < rows.len() ==> (#[trigger] rows[i]).string_col("name"@) is Some && old(self).columns_spec(table@).contains(rows[i].string_col("name"@).unwrap())) && (
                forall|c: Seq<char>|
                    old(self).columns_spec(table@).contains(c) ==> exists|i: int|
                        0 <= i < rows.len() && (#[trigger] rows[i]).string_col("name"@) == Some(c))
            },
    ;
}

} // verus!
