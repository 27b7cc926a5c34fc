use vstd::prelude::*;

use crate::connection::{
    exec_ok_effect, MigrationConnection, MigrationDbBackend, MigrationQueryResult,
};
use crate::error::MigrationError;
use crate::seaql_migrations::ModelV;
use crate::statement::Statement;
use sea_query::extension::postgres::{TypeAlterStatement, TypeCreateStatement, TypeDropStatement};
use sea_query::{
    ForeignKeyCreateStatement, ForeignKeyDropStatement, IndexCreateStatement, IndexDropStatement,
    TableAlterStatement, TableCreateStatement, TableDropStatement, TableRenameStatement,
    TableTruncateStatement,
};

verus! {

/// Helper struct for writing migration scripts in migration file: a facade
/// over a connection that forwards typed statements and answers schema
/// questions. It owns the connection and mirrors its abstract database
/// state.
pub struct SchemaManager<C: MigrationConnection> {
    conn: C,
}

impl<C: MigrationConnection> SchemaManager<C> {
    /// The backend of the underlying connection.
    pub closed spec fn backend_spec(&self) -> MigrationDbBackend {
        self.conn.backend_spec()
    }

    /// The bookkeeping table's rows, as the connection models them.
    pub closed spec fn history_spec(&self) -> Option<Seq<ModelV>> {
        self.conn.history_spec()
    }

    /// The user table names, as the connection models them.
    pub closed spec fn tables_spec(&self) -> Set<Seq<char>> {
        self.conn.tables_spec()
    }

    /// The column names of a table, as the connection models them.
    pub closed spec fn columns_spec(&self, table: Seq<char>) -> Set<Seq<char>> {
        self.conn.columns_spec(table)
    }

    pub fn new(conn: C) -> (s: Self)
        ensures
            s.backend_spec() == conn.backend_spec(),
            s.history_spec() == conn.history_spec(),
            s.tables_spec() == conn.tables_spec(),
            forall|t: Seq<char>| s.columns_spec(t) == conn.columns_spec(t),
    {
        SchemaManager { conn }
    }

    /// Gives the connection back.
    pub fn into_connection(self) -> (c: C)
        ensures
            c.backend_spec() == self.backend_spec(),
            c.history_spec() == self.history_spec(),
            c.tables_spec() == self.tables_spec(),
            forall|t: Seq<char>| c.columns_spec(t) == self.columns_spec(t),
    {
        self.conn
    }

    /// Borrows the connection.
    pub fn get_connection(&self) -> &C {
        &self.conn
    }

    pub fn get_database_backend(&self) -> (b: MigrationDbBackend)
        ensures
            b == self.backend_spec(),
    {
        self.conn.get_database_backend()
    }

    /// Seconds since the Unix epoch, by the driver's clock.
    pub fn current_timestamp(&mut self) -> (t: i64)
        ensures
            t > 0,
            final(self).backend_spec() == old(self).backend_spec(),
            final(self).history_spec() == old(self).history_spec(),
            final(self).tables_spec() == old(self).tables_spec(),
            forall|t2: Seq<char>| final(self).columns_spec(t2) == old(self).columns_spec(t2),
    {
        self.conn.current_timestamp()
    }

    /// Executes any statement over the connection.
    pub fn exec_stmt(&mut self, stmt: &Statement) -> (r: Result<(), MigrationError>)
        ensures
            final(self).backend_spec() == old(self).backend_spec(),
            r is Err ==> final(self).history_spec() == old(self).history_spec() && final(
                self).tables_spec() == old(self).tables_spec() && (forall|t: Seq<char>|
                final(self).columns_spec(t) == old(self).columns_spec(t)),
            r is Ok ==> exec_ok_effect(
                *stmt,
                old(self).history_spec(),
                old(self).tables_spec(),
                final(self).history_spec(),
                final(self).tables_spec(),
            ),
            r is Ok && !(stmt is CreateHistoryTable || stmt is DropUserTable || stmt is CreateTable
                || stmt is DropTable || stmt is AlterTable || stmt is RenameTable
                || stmt is TruncateTable || stmt is Raw) ==> (forall|t: Seq<char>|
                final(self).columns_spec(t) == old(self).columns_spec(t)),
            r is Ok && stmt is CreateHistoryTable && old(self).history_spec() is Some ==> (forall|
                t: Seq<char>| final(self).columns_spec(t) == old(self).columns_spec(t)),
    {
        self.conn.exec_stmt(stmt)
    }

    /// Fetches at most one row.
    pub fn query_one(&mut self, stmt: &Statement) -> (r: Result<
        Option<C::QueryResult>,
        MigrationError,
    >)
        ensures
            final(self).backend_spec() == old(self).backend_spec(),
            final(self).history_spec() == old(self).history_spec(),
            final(self).tables_spec() == old(self).tables_spec(),
            forall|t: Seq<char>| final(self).columns_spec(t) == old(self).columns_spec(t),
            stmt matches Statement::HasTable { table } ==> (r is Ok && r->Ok_0 is Some) ==> {
                let row = r->Ok_0.unwrap();
                row.i64_col("rows"@) is Some && (row.i64_col("rows"@).unwrap() > 0 <==> old(
                    self).tables_spec().contains(table@))
            },
            stmt matches Statement::HasColumn { table, column } ==> (r is Ok && r->Ok_0 is Some)
                ==> {
                let row = r->Ok_0.unwrap();
                row.i64_col("rows"@) is Some && (row.i64_col("rows"@).unwrap() > 0 <==> old(
                    self).columns_spec(table@).contains(column@))
            },
    {
        self.conn.query_one(stmt)
    }

    /// Fetches all rows.
    pub fn query_all(&mut self, stmt: &Statement) -> (r: Result<
        Vec<C::QueryResult>,
        MigrationError,
    >)
        ensures
            final(self).backend_spec() == old(self).backend_spec(),
            final(self).history_spec() == old(self).history_spec(),
            final(self).tables_spec() == old(self).tables_spec(),
            forall|t: Seq<char>| final(self).columns_spec(t) == old(self).columns_spec(t),
            stmt is SelectHistory && r is Ok ==> old(self).history_spec() is Some && {
                let rows = r->Ok_0@;
                let h = old(self).history_spec().unwrap();
                rows.len() == h.len() && (forall|i: int|
                    0 <= i < h.len() ==> (#[trigger] rows[i]).string_col("version"@) == Some(
                        h[i].version,
                    ) && rows[i].i64_col("applied_at"@) is Some && rows[i].i64_col(
                        "applied_at"@,
                    ).unwrap() as int == h[i].applied_at)
            },
            stmt is QueryTables && r is Ok ==> {
                let rows = r->Ok_0@;
                (forall|i: int|
                    0 <= i < rows.len() ==> (#[trigger] rows[i]).string_col("table_name"@) is Some
                        && old(self).tables_spec().contains(
                        rows[i].string_col("table_name"@).unwrap(),
                    )) && (forall|n: Seq<char>|
                    #[trigger] old(self).tables_spec().contains(n) ==> exists|i: int|
                        0 <= i < rows.len() && (#[trigger] rows[i]).string_col("table_name"@)
                            == Some(n))
            },
            stmt matches Statement::TableInfoPragma { table } ==> r is Ok ==> {
                let rows = r->Ok_0@;
                (forall|i: int|
                    0 <= i < rows.len() ==> (#[trigger] rows[i]).string_col("name"@) is Some && old(
                        self).columns_spec(table@).contains(
                        rows[i].string_col("name"@).unwrap(),
                    )) && (forall|c: Seq<char>|
                    #[trigger] old(self).columns_spec(table@).contains(c) ==> exists|i: int|
                        0 <= i < rows.len() && (#[trigger] rows[i]).string_col("name"@) == Some(c))
            },
    {
        self.conn.query_all(stmt)
    }
}

/// Schema creation and mutation: each method forwards one typed statement.
/// None of them touches the bookkeeping table.
impl<C: MigrationConnection> SchemaManager<C> {
    pub fn create_table(&mut self, stmt: TableCreateStatement) -> (r: Result<(), MigrationError>)
        ensures
            final(self).backend_spec() == old(self).backend_spec(),
            final(self).history_spec() == old(self).history_spec(),
    {
        self.conn.exec_stmt(&Statement::CreateTable(stmt))
    }

    pub fn create_index(&mut self, stmt: IndexCreateStatement) -> (r: Result<(), MigrationError>)
        ensures
            final(self).backend_spec() == old(self).backend_spec(),
            final(self).history_spec() == old(self).history_spec(),
            final(self).tables_spec() == old(self).tables_spec(),
    {
        self.conn.exec_stmt(&Statement::CreateIndex(stmt))
    }

    pub fn create_foreign_key(&mut self, stmt: ForeignKeyCreateStatement) -> (r: Result<
        (),
        MigrationError,
    >)
        ensures
            final(self).backend_spec() == old(self).backend_spec(),
            final(self).history_spec() == old(self).history_spec(),
            final(self).tables_spec() == old(self).tables_spec(),
    {
        self.conn.exec_stmt(&Statement::CreateForeignKey(stmt))
    }

    pub fn create_type(&mut self, stmt: TypeCreateStatement) -> (r: Result<(), MigrationError>)
        ensures
            final(self).backend_spec() == old(self).backend_spec(),
            final(self).history_spec() == old(self).history_spec(),
            final(self).tables_spec() == old(self).tables_spec(),
    {
        self.conn.exec_stmt(&Statement::CreateType(stmt))
    }

    pub fn alter_table(&mut self, stmt: TableAlterStatement) -> (r: Result<(), MigrationError>)
        ensures
            final(self).backend_spec() == old(self).backend_spec(),
            final(self).history_spec() == old(self).history_spec(),
    {
        self.conn.exec_stmt(&Statement::AlterTable(stmt))
    }

    pub fn drop_table(&mut self, stmt: TableDropStatement) -> (r: Result<(), MigrationError>)
        ensures
            final(self).backend_spec() == old(self).backend_spec(),
            final(self).history_spec() == old(self).history_spec(),
    {
        self.conn.exec_stmt(&Statement::DropTable(stmt))
    }

    pub fn rename_table(&mut self, stmt: TableRenameStatement) -> (r: Result<(), MigrationError>)
        ensures
            final(self).backend_spec() == old(self).backend_spec(),
            final(self).history_spec() == old(self).history_spec(),
    {
        self.conn.exec_stmt(&Statement::RenameTable(stmt))
    }

    pub fn truncate_table(&mut self, stmt: TableTruncateStatement) -> (r: Result<
        (),
        MigrationError,
    >)
        ensures
            final(self).backend_spec() == old(self).backend_spec(),
            final(self).history_spec() == old(self).history_spec(),
    {
        self.conn.exec_stmt(&Statement::TruncateTable(stmt))
    }

    pub fn drop_index(&mut self, stmt: IndexDropStatement) -> (r: Result<(), MigrationError>)
        ensures
            final(self).backend_spec() == old(self).backend_spec(),
            final(self).history_spec() == old(self).history_spec(),
            final(self).tables_spec() == old(self).tables_spec(),
    {
        self.conn.exec_stmt(&Statement::DropIndex(stmt))
    }

    pub fn drop_foreign_key(&mut self, stmt: ForeignKeyDropStatement) -> (r: Result<
        (),
        MigrationError,
    >)
        ensures
            final(self).backend_spec() == old(self).backend_spec(),
            final(self).history_spec() == old(self).history_spec(),
            final(self).tables_spec() == old(self).tables_spec(),
    {
        self.conn.exec_stmt(&Statement::DropForeignKey(stmt))
    }

    pub fn alter_type(&mut self, stmt: TypeAlterStatement) -> (r: Result<(), MigrationError>)
        ensures
            final(self).backend_spec() == old(self).backend_spec(),
            final(self).history_spec() == old(self).history_spec(),
            final(self).tables_spec() == old(self).tables_spec(),
    {
        self.conn.exec_stmt(&Statement::AlterType(stmt))
    }

    pub fn drop_type(&mut self, stmt: TypeDropStatement) -> (r: Result<(), MigrationError>)
        ensures
            final(self).backend_spec() == old(self).backend_spec(),
            final(self).history_spec() == old(self).history_spec(),
            final(self).tables_spec() == old(self).tables_spec(),
    {
        self.conn.exec_stmt(&Statement::DropType(stmt))
    }
}

/// Schema inspection.
impl<C: MigrationConnection> SchemaManager<C> {
    /// Whether a user table of the given name exists: a COUNT over the
    /// dialect's table enumeration. An empty result set — impossible under
    /// normal SQL semantics — is reported as an error.
    pub fn has_table(&mut self, table: &str) -> (r: Result<bool, MigrationError>)
        ensures
            final(self).backend_spec() == old(self).backend_spec(),
            final(self).history_spec() == old(self).history_spec(),
            final(self).tables_spec() == old(self).tables_spec(),
            forall|t: Seq<char>| final(self).columns_spec(t) == old(self).columns_spec(t),
            r is Ok ==> (r->Ok_0 <==> old(self).tables_spec().contains(table@)),
    {
        let stmt = Statement::HasTable { table: table.to_owned() };
        let res = self.conn.query_one(&stmt)?;
        match res {
            None => Err(MigrationError::Message("Fail to check table exists".to_owned())),
            Some(row) => {
                let rows = row.try_get_i64("rows")?;
                Ok(rows > 0)
            },
        }
    }

    /// Whether the given table has a column of the given name: a COUNT over
    /// information_schema on MySQL and Postgres, a scan of the column
    /// pragma's rows on SQLite.
    pub fn has_column(&mut self, table: &str, column: &str) -> (r: Result<bool, MigrationError>)
        ensures
            final(self).backend_spec() == old(self).backend_spec(),
            final(self).history_spec() == old(self).history_spec(),
            final(self).tables_spec() == old(self).tables_spec(),
            forall|t: Seq<char>| final(self).columns_spec(t) == old(self).columns_spec(t),
            r is Ok ==> (r->Ok_0 <==> old(self).columns_spec(table@).contains(column@)),
    {
        let backend = self.conn.get_database_backend();
        if backend == MigrationDbBackend::Sqlite {
            let stmt = Statement::TableInfoPragma { table: table.to_owned() };
            let results = self.conn.query_all(&stmt)?;
            let column_owned: String = column.to_owned();
            let mut found = false;
            let mut i: usize = 0;
            while i < results.len()
                invariant
                    i <= results@.len(),
                    column_owned@ == column@,
                    forall|j: int|
                        0 <= j < results@.len() ==> (#[trigger] results@[j]).string_col(
                            "name"@,
                        ) is Some,
                    found <==> exists|j: int|
                        0 <= j < i && (#[trigger] results@[j]).string_col("name"@) == Some(
                            column@,
                        ),
                decreases results@.len() - i,
            {
                let name = results[i].try_get_string("name")?;
                if name == column_owned {
                    found = true;
                }
                i += 1;
            }
            proof {
                if found {
                    assert(old(self).columns_spec(table@).contains(column@));
                } else {
                    if old(self).columns_spec(table@).contains(column@) {
                        assert(stmt->TableInfoPragma_table@ == table@);
                        assert(old(self).conn.columns_spec(table@).contains(column@));
                        assert(false);
                    }
                }
            }
            Ok(found)
        } else {
            let stmt = Statement::HasColumn { table: table.to_owned(), column: column.to_owned() };
            let res = self.conn.query_one(&stmt)?;
            match res {
                None => Err(MigrationError::Message("Fail to check column exists".to_owned())),
                Some(row) => {
                    let rows = row.try_get_i64("rows")?;
                    Ok(rows > 0)
                },
            }
        }
    }
}

} // verus!
