use vstd::prelude::*;

use crate::connection::MigrationDbBackend;
use crate::error::MigrationError;
use sea_query::extension::postgres::{TypeAlterStatement, TypeCreateStatement, TypeDropStatement};
use sea_query::{
    Alias, ColumnDef, DeleteStatement, Expr, ForeignKeyCreateStatement, ForeignKeyDropStatement,
    IndexCreateStatement, IndexDropStatement, InsertStatement, MysqlQueryBuilder, Order,
    PostgresQueryBuilder, Query, SelectStatement, SqliteQueryBuilder, TableAlterStatement,
    TableCreateStatement, TableDropStatement, TableRenameStatement, TableTruncateStatement,
    UpdateStatement, Value,
};

verus! {

#[verifier::external_type_specification]
#[verifier::external_body]
pub struct ExValue(Value);

#[verifier::external_type_specification]
#[verifier::external_body]
pub struct ExSelectStatement(SelectStatement);

#[verifier::external_type_specification]
#[verifier::external_body]
pub struct ExInsertStatement(InsertStatement);

#[verifier::external_type_specification]
#[verifier::external_body]
pub struct ExUpdateStatement(UpdateStatement);

#[verifier::external_type_specification]
#[verifier::external_body]
pub struct ExDeleteStatement(DeleteStatement);

#[verifier::external_type_specification]
#[verifier::external_body]
pub struct ExTableCreateStatement(TableCreateStatement);

#[verifier::external_type_specification]
#[verifier::external_body]
pub struct ExTableDropStatement(TableDropStatement);

#[verifier::external_type_specification]
#[verifier::external_body]
pub struct ExTableAlterStatement(TableAlterStatement);

#[verifier::external_type_specification]
#[verifier::external_body]
pub struct ExTableRenameStatement(TableRenameStatement);

#[verifier::external_type_specification]
#[verifier::external_body]
pub struct ExTableTruncateStatement(TableTruncateStatement);

#[verifier::external_type_specification]
#[verifier::external_body]
pub struct ExIndexCreateStatement(IndexCreateStatement);

#[verifier::external_type_specification]
#[verifier::external_body]
pub struct ExIndexDropStatement(IndexDropStatement);

#[verifier::external_type_specification]
#[verifier::external_body]
pub struct ExForeignKeyCreateStatement(ForeignKeyCreateStatement);

#[verifier::external_type_specification]
#[verifier::external_body]
pub struct ExForeignKeyDropStatement(ForeignKeyDropStatement);

#[verifier::external_type_specification]
#[verifier::external_body]
pub struct ExTypeCreateStatement(TypeCreateStatement);

#[verifier::external_type_specification]
#[verifier::external_body]
pub struct ExTypeAlterStatement(TypeAlterStatement);

#[verifier::external_type_specification]
#[verifier::external_body]
pub struct ExTypeDropStatement(TypeDropStatement);

/// A logical statement the engine can dispatch over a connection.
///
/// The first group are the statements the engine itself issues, held as
/// plain values so that the connection contract can state what each one does
/// to the database. The second group carry statements that a migration
/// unit's body built with the SQL-AST library, passed through unread.
pub enum Statement {
    /// Create the bookkeeping table if it does not exist.
    CreateHistoryTable,
    /// Select all history rows, ordered by version ascending.
    SelectHistory,
    /// Record one applied unit in the history table.
    InsertHistory { version: String, applied_at: i64 },
    /// Remove one unit's record from the history table.
    DeleteHistory { version: String },
    /// Enumerate all user tables, in the backend's dialect.
    QueryTables,
    /// Count the user tables with the given name.
    HasTable { table: String },
    /// Count the columns with the given name of the given table.
    HasColumn { table: String, column: String },
    /// Enumerate the columns of a table (the SQLite pragma).
    TableInfoPragma { table: String },
    /// Enumerate all foreign key constraints of the current schema (MySQL).
    SelectForeignKeys,
    /// Drop one foreign key constraint by name.
    DropForeignKeyByName { table: String, constraint: String },
    /// Drop one table by name, if it exists (with CASCADE away from SQLite).
    DropUserTable { table: String },
    /// Toggle SQLite's referential-integrity checking.
    SetForeignKeyCheck { on: bool },
    /// A raw SQL string, sent verbatim with no parameters.
    Raw(String),
    Insert(InsertStatement),
    Select(SelectStatement),
    Update(UpdateStatement),
    Delete(DeleteStatement),
    CreateTable(TableCreateStatement),
    DropTable(TableDropStatement),
    AlterTable(TableAlterStatement),
    RenameTable(TableRenameStatement),
    TruncateTable(TableTruncateStatement),
    CreateIndex(IndexCreateStatement),
    DropIndex(IndexDropStatement),
    CreateForeignKey(ForeignKeyCreateStatement),
    DropForeignKey(ForeignKeyDropStatement),
    CreateType(TypeCreateStatement),
    AlterType(TypeAlterStatement),
    DropType(TypeDropStatement),
}

impl Statement {
    /// Statements that only Postgres can build: user-defined types.
    pub open spec fn is_postgres_only(&self) -> bool {
        self is CreateType || self is AlterType || self is DropType
    }

    /// Statements SQLite cannot build: modifying a foreign key outside a
    /// CREATE TABLE, which SQLite's dialect does not support.
    pub open spec fn is_sqlite_unsupported(&self) -> bool {
        self is DropForeignKeyByName || self is CreateForeignKey || self is DropForeignKey
    }

    /// Statements built without bound parameters.
    pub open spec fn is_parameterless(&self) -> bool {
        !(self is InsertHistory || self is DeleteHistory || self is QueryTables
            || self is HasTable || self is HasColumn || self is SelectForeignKeys
            || self is Insert || self is Select || self is Update || self is Delete)
    }
}

/// What the bookkeeping table's CREATE TABLE IF NOT EXISTS reads, as the
/// backend's schema builder emits it for the given table and column names.
pub uninterp spec fn create_history_sql_of(
    backend: MigrationDbBackend,
    table: Seq<char>,
    version_col: Seq<char>,
    applied_col: Seq<char>,
) -> Seq<char>;

/// What the history SELECT (both columns, ordered by version ascending)
/// reads for the given backend and names.
pub uninterp spec fn select_history_sql_of(
    backend: MigrationDbBackend,
    table: Seq<char>,
    version_col: Seq<char>,
    applied_col: Seq<char>,
) -> Seq<char>;

/// What the one-row history INSERT reads; the row's values are bound as
/// parameters, so the text depends only on the backend and the names.
pub uninterp spec fn insert_history_sql_of(
    backend: MigrationDbBackend,
    table: Seq<char>,
    version_col: Seq<char>,
    applied_col: Seq<char>,
) -> Seq<char>;

/// What the by-version history DELETE reads; the version is bound as a
/// parameter.
pub uninterp spec fn delete_history_sql_of(
    backend: MigrationDbBackend,
    table: Seq<char>,
    version_col: Seq<char>,
) -> Seq<char>;

/// What the dialect's user-table enumeration reads: a SELECT of one column
/// aliased `table_name`, filtered as spec'd per backend.
pub uninterp spec fn query_tables_sql_of(backend: MigrationDbBackend) -> Seq<char>;

/// What the table-existence COUNT over the enumeration subquery reads.
pub uninterp spec fn has_table_sql_of(backend: MigrationDbBackend, table: Seq<char>) -> Seq<char>;

/// What the column-existence COUNT over information_schema.columns reads
/// (MySQL and Postgres; SQLite uses the pragma instead).
pub uninterp spec fn has_column_sql_of(
    backend: MigrationDbBackend,
    table: Seq<char>,
    column: Seq<char>,
) -> Seq<char>;

/// What the foreign-key enumeration over information_schema reads.
pub uninterp spec fn select_fks_sql_of(backend: MigrationDbBackend) -> Seq<char>;

/// What the by-name foreign-key drop reads; undefined use on SQLite is
/// ruled out before building.
pub uninterp spec fn drop_fk_sql_of(
    backend: MigrationDbBackend,
    table: Seq<char>,
    constraint: Seq<char>,
) -> Seq<char>;

/// What the by-name DROP TABLE IF EXISTS reads, with or without CASCADE.
pub uninterp spec fn drop_table_sql_of(
    backend: MigrationDbBackend,
    table: Seq<char>,
    cascade: bool,
) -> Seq<char>;

/// Relies on sea_query's Table::create, ColumnDef, the column modifiers and
/// the backend's schema builder: the bookkeeping table's CREATE TABLE IF
/// NOT EXISTS, with the first column a string primary key and the second a
/// non-null big integer.
#[verifier::external_body]
fn build_create_history_table(
    table: &str,
    version_col: &str,
    applied_col: &str,
    backend: MigrationDbBackend,
) -> (r: String)
    ensures
        r@ == create_history_sql_of(backend, table@, version_col@, applied_col@),
{
    let stmt = sea_query::Table::create()
        .if_not_exists()
        .table(Alias::new(table))
        .col(ColumnDef::new(Alias::new(version_col)).string().primary_key().not_null())
        .col(ColumnDef::new(Alias::new(applied_col)).big_integer().not_null())
        .to_owned();
    match backend {
        MigrationDbBackend::MySql => stmt.build(MysqlQueryBuilder),
        MigrationDbBackend::Postgres => stmt.build(PostgresQueryBuilder),
        MigrationDbBackend::Sqlite => stmt.build(SqliteQueryBuilder),
    }
}

/// Relies on sea_query's Query::select, column, from, order_by and the
/// backend's query builder: both history columns from the given table,
/// ordered by the version column ascending; no value is bound.
#[verifier::external_body]
fn build_select_history(
    table: &str,
    version_col: &str,
    applied_col: &str,
    backend: MigrationDbBackend,
) -> (r: String)
    ensures
        r@ == select_history_sql_of(backend, table@, version_col@, applied_col@),
{
    let stmt = Query::select()
        .column(Alias::new(version_col))
        .column(Alias::new(applied_col))
        .from(Alias::new(table))
        .order_by(Alias::new(version_col), Order::Asc)
        .to_owned();
    let (sql, _values) = match backend {
        MigrationDbBackend::MySql => stmt.build(MysqlQueryBuilder),
        MigrationDbBackend::Postgres => stmt.build(PostgresQueryBuilder),
        MigrationDbBackend::Sqlite => stmt.build(SqliteQueryBuilder),
    };
    sql
}

/// Relies on sea_query's Query::insert, into_table, columns, values_panic
/// (two columns, two values, so the panic arm is unreachable) and the
/// backend's query builder: one row with the version string and the
/// timestamp bound as the two parameters.
#[verifier::external_body]
fn build_insert_history(
    table: &str,
    version_col: &str,
    applied_col: &str,
    version: &str,
    applied_at: i64,
    backend: MigrationDbBackend,
) -> (r: (String, Vec<Value>))
    ensures
        r.0@ == insert_history_sql_of(backend, table@, version_col@, applied_col@),
        r.1@.len() == 2,
{
    let stmt = Query::insert()
        .into_table(Alias::new(table))
        .columns([Alias::new(version_col), Alias::new(applied_col)])
        .values_panic([version.into(), applied_at.into()])
        .to_owned();
    let (sql, values) = match backend {
        MigrationDbBackend::MySql => stmt.build(MysqlQueryBuilder),
        MigrationDbBackend::Postgres => stmt.build(PostgresQueryBuilder),
        MigrationDbBackend::Sqlite => stmt.build(SqliteQueryBuilder),
    };
    (sql, values.0)
}

/// Relies on sea_query's Query::delete, from_table, and_where and the
/// backend's query builder: deletes the rows whose version column equals
/// the one bound parameter.
#[verifier::external_body]
fn build_delete_history(
    table: &str,
    version_col: &str,
    version: &str,
    backend: MigrationDbBackend,
) -> (r: (String, Vec<Value>))
    ensures
        r.0@ == delete_history_sql_of(backend, table@, version_col@),
        r.1@.len() == 1,
{
    let stmt = Query::delete()
        .from_table(Alias::new(table))
        .and_where(Expr::col(Alias::new(version_col)).eq(version))
        .to_owned();
    let (sql, values) = match backend {
        MigrationDbBackend::MySql => stmt.build(MysqlQueryBuilder),
        MigrationDbBackend::Postgres => stmt.build(PostgresQueryBuilder),
        MigrationDbBackend::Sqlite => stmt.build(SqliteQueryBuilder),
    };
    (sql, values.0)
}

/// Relies on sea_query's select builder: MySQL's user-table enumeration,
/// `table_name` from information_schema.tables where the table's schema is
/// DATABASE().
#[verifier::external_body]
fn tables_query_mysql() -> SelectStatement {
    Query::select()
        .expr_as(Expr::col(Alias::new("table_name")), Alias::new("table_name"))
        .from((Alias::new("information_schema"), Alias::new("tables")))
        .and_where(
            Expr::expr(Expr::cust("DATABASE()"))
                .equals((Alias::new("tables"), Alias::new("table_schema"))),
        )
        .to_owned()
}

/// Relies on sea_query's select builder: Postgres's user-table enumeration,
/// as MySQL's but against CURRENT_SCHEMA() and restricted to base tables.
#[verifier::external_body]
fn tables_query_postgres() -> SelectStatement {
    Query::select()
        .expr_as(Expr::col(Alias::new("table_name")), Alias::new("table_name"))
        .from((Alias::new("information_schema"), Alias::new("tables")))
        .and_where(
            Expr::expr(Expr::cust("CURRENT_SCHEMA()"))
                .equals((Alias::new("tables"), Alias::new("table_schema"))),
        )
        .and_where(Expr::col(Alias::new("table_type")).eq("BASE TABLE"))
        .to_owned()
}

/// Relies on sea_query's select builder: SQLite's user-table enumeration,
/// `name` aliased `table_name` from sqlite_master, tables only, without the
/// autoincrement bookkeeping table.
#[verifier::external_body]
fn tables_query_sqlite() -> SelectStatement {
    Query::select()
        .expr_as(Expr::col(Alias::new("name")), Alias::new("table_name"))
        .from(Alias::new("sqlite_master"))
        .and_where(Expr::col(Alias::new("type")).eq("table"))
        .and_where(Expr::col(Alias::new("name")).ne("sqlite_sequence"))
        .to_owned()
}

/// Relies on QueryStatementWriter::build with MySQL's query builder over
/// tables_query_mysql.
#[verifier::external_body]
fn build_query_tables_mysql() -> (r: (String, Vec<Value>))
    ensures
        r.0@ == query_tables_sql_of(MigrationDbBackend::MySql),
{
    let (sql, values) = tables_query_mysql().build(MysqlQueryBuilder);
    (sql, values.0)
}

/// Relies on QueryStatementWriter::build with Postgres's query builder over
/// tables_query_postgres.
#[verifier::external_body]
fn build_query_tables_postgres() -> (r: (String, Vec<Value>))
    ensures
        r.0@ == query_tables_sql_of(MigrationDbBackend::Postgres),
{
    let (sql, values) = tables_query_postgres().build(PostgresQueryBuilder);
    (sql, values.0)
}

/// Relies on QueryStatementWriter::build with SQLite's query builder over
/// tables_query_sqlite.
#[verifier::external_body]
fn build_query_tables_sqlite() -> (r: (String, Vec<Value>))
    ensures
        r.0@ == query_tables_sql_of(MigrationDbBackend::Sqlite),
{
    let (sql, values) = tables_query_sqlite().build(SqliteQueryBuilder);
    (sql, values.0)
}

/// Relies on sea_query's from_subquery, expr_as and and_where over the
/// dialect's table enumeration: COUNT(*) aliased `rows` over the
/// enumeration filtered to the one table name, which is bound; built with
/// MySQL's query builder.
#[verifier::external_body]
fn build_has_table_mysql(table: &str) -> (r: (String, Vec<Value>))
    ensures
        r.0@ == has_table_sql_of(MigrationDbBackend::MySql, table@),
{
    let mut subquery = tables_query_mysql();
    subquery.and_where(Expr::col(Alias::new("table_name")).eq(table));
    let mut stmt = Query::select();
    stmt.expr_as(Expr::cust("COUNT(*)"), Alias::new("rows"));
    stmt.from_subquery(subquery, Alias::new("subquery"));
    let (sql, values) = stmt.build(MysqlQueryBuilder);
    (sql, values.0)
}

/// As build_has_table_mysql, with Postgres's enumeration and builder.
#[verifier::external_body]
fn build_has_table_postgres(table: &str) -> (r: (String, Vec<Value>))
    ensures
        r.0@ == has_table_sql_of(MigrationDbBackend::Postgres, table@),
{
    let mut subquery = tables_query_postgres();
    subquery.and_where(Expr::col(Alias::new("table_name")).eq(table));
    let mut stmt = Query::select();
    stmt.expr_as(Expr::cust("COUNT(*)"), Alias::new("rows"));
    stmt.from_subquery(subquery, Alias::new("subquery"));
    let (sql, values) = stmt.build(PostgresQueryBuilder);
    (sql, values.0)
}

/// As build_has_table_mysql, with SQLite's enumeration and builder.
#[verifier::external_body]
fn build_has_table_sqlite(table: &str) -> (r: (String, Vec<Value>))
    ensures
        r.0@ == has_table_sql_of(MigrationDbBackend::Sqlite, table@),
{
    let mut subquery = tables_query_sqlite();
    subquery.and_where(Expr::col(Alias::new("table_name")).eq(table));
    let mut stmt = Query::select();
    stmt.expr_as(Expr::cust("COUNT(*)"), Alias::new("rows"));
    stmt.from_subquery(subquery, Alias::new("subquery"));
    let (sql, values) = stmt.build(SqliteQueryBuilder);
    (sql, values.0)
}

/// Relies on sea_query's select builder: COUNT(*) aliased `rows` over
/// information_schema.columns, filtered by the current schema (DATABASE()
/// on MySQL, CURRENT_SCHEMA() otherwise) and the bound table and column
/// names. The engine only issues this away from SQLite.
#[verifier::external_body]
fn build_has_column_query(table: &str, column: &str, backend: MigrationDbBackend) -> (r: (
    String,
    Vec<Value>,
))
    ensures
        r.0@ == has_column_sql_of(backend, table@, column@),
{
    let schema = match backend { MigrationDbBackend::MySql => "DATABASE()", _ => "CURRENT_SCHEMA()" };
    let stmt = Query::select()
        .expr_as(Expr::cust("COUNT(*)"), Alias::new("rows"))
        .from((Alias::new("information_schema"), Alias::new("columns")))
        .and_where(Expr::expr(Expr::cust(schema)).equals((Alias::new("columns"), Alias::new("table_schema"))))
        .and_where(Expr::col(Alias::new("table_name")).eq(table))
        .and_where(Expr::col(Alias::new("column_name")).eq(column))
        .to_owned();
    let (sql, values) = match backend {
        MigrationDbBackend::MySql => stmt.build(MysqlQueryBuilder),
        MigrationDbBackend::Postgres => stmt.build(PostgresQueryBuilder),
        MigrationDbBackend::Sqlite => stmt.build(SqliteQueryBuilder),
    };
    (sql, values.0)
}

/// Relies on sea_query's select builder: TABLE_NAME and CONSTRAINT_NAME
/// from information_schema.table_constraints, filtered to the current
/// schema and to FOREIGN KEY constraints (the kind is bound). The engine
/// only issues this on MySQL.
#[verifier::external_body]
fn build_select_foreign_keys(backend: MigrationDbBackend) -> (r: (String, Vec<Value>))
    ensures
        r.0@ == select_fks_sql_of(backend),
{
    let schema = match backend { MigrationDbBackend::Postgres => "CURRENT_SCHEMA()", _ => "DATABASE()" };
    let stmt = Query::select()
        .column(Alias::new("TABLE_NAME"))
        .column(Alias::new("CONSTRAINT_NAME"))
        .from((Alias::new("information_schema"), Alias::new("table_constraints")))
        .and_where(Expr::expr(Expr::cust(schema)).equals((Alias::new("table_constraints"), Alias::new("table_schema"))))
        .and_where(Expr::expr(Expr::value("FOREIGN KEY")).equals((Alias::new("table_constraints"), Alias::new("constraint_type"))))
        .to_owned();
    let (sql, values) = match backend {
        MigrationDbBackend::MySql => stmt.build(MysqlQueryBuilder),
        MigrationDbBackend::Postgres => stmt.build(PostgresQueryBuilder),
        MigrationDbBackend::Sqlite => stmt.build(SqliteQueryBuilder),
    };
    (sql, values.0)
}

/// Relies on sea_query's ForeignKey::drop and the backend's schema builder.
/// SQLite's builder panics on any foreign-key drop, so that backend is
/// ruled out here and refused earlier with UnsupportedForBackend.
#[verifier::external_body]
fn build_drop_foreign_key(table: &str, constraint: &str, backend: MigrationDbBackend) -> (r:
    String)
    requires
        !(backend is Sqlite),
    ensures
        r@ == drop_fk_sql_of(backend, table@, constraint@),
{
    let stmt = sea_query::ForeignKey::drop()
        .table(Alias::new(table))
        .name(constraint)
        .to_owned();
    match backend {
        MigrationDbBackend::MySql => stmt.build(MysqlQueryBuilder),
        MigrationDbBackend::Postgres => stmt.build(PostgresQueryBuilder),
        // ruled out by the precondition; SQLite's builder would panic
        MigrationDbBackend::Sqlite => stmt.build(MysqlQueryBuilder),
    }
}

/// Relies on sea_query's Table::drop with if_exists and cascade, and the
/// backend's schema builder.
#[verifier::external_body]
fn build_drop_table_cascade(table: &str, backend: MigrationDbBackend) -> (r: String)
    ensures
        r@ == drop_table_sql_of(backend, table@, true),
{
    let stmt = sea_query::Table::drop().table(Alias::new(table)).if_exists().cascade().to_owned();
    match backend {
        MigrationDbBackend::MySql => stmt.build(MysqlQueryBuilder),
        MigrationDbBackend::Postgres => stmt.build(PostgresQueryBuilder),
        MigrationDbBackend::Sqlite => stmt.build(SqliteQueryBuilder),
    }
}

/// Relies on sea_query's Table::drop with if_exists, without cascade, and
/// the backend's schema builder.
#[verifier::external_body]
fn build_drop_table_plain(table: &str, backend: MigrationDbBackend) -> (r: String)
    ensures
        r@ == drop_table_sql_of(backend, table@, false),
{
    let stmt = sea_query::Table::drop().table(Alias::new(table)).if_exists().to_owned();
    match backend {
        MigrationDbBackend::MySql => stmt.build(MysqlQueryBuilder),
        MigrationDbBackend::Postgres => stmt.build(PostgresQueryBuilder),
        MigrationDbBackend::Sqlite => stmt.build(SqliteQueryBuilder),
    }
}

/// Relies on std's format macro: the SQLite column-listing pragma for the
/// given table, by concatenation.
#[verifier::external_body]
fn pragma_table_info_sql(table: &str) -> (r: String)
    ensures
        r@ == "PRAGMA table_info("@ + table@ + ")"@,
{
    format!("PRAGMA table_info({})", table)
}

/// Relies on QueryStatementWriter::build with the backend's query builder:
/// the dialect's SQL text and the bound parameter values of a SELECT.
#[verifier::external_body]
fn build_select(stmt: &SelectStatement, backend: &MigrationDbBackend) -> (String, Vec<Value>) {
    let (sql, values) = match backend {
        MigrationDbBackend::MySql => stmt.build(MysqlQueryBuilder),
        MigrationDbBackend::Postgres => stmt.build(PostgresQueryBuilder),
        MigrationDbBackend::Sqlite => stmt.build(SqliteQueryBuilder),
    };
    (sql, values.0)
}

/// Relies on QueryStatementWriter::build, as build_select, for an INSERT.
#[verifier::external_body]
fn build_insert(stmt: &InsertStatement, backend: &MigrationDbBackend) -> (String, Vec<Value>) {
    let (sql, values) = match backend {
        MigrationDbBackend::MySql => stmt.build(MysqlQueryBuilder),
        MigrationDbBackend::Postgres => stmt.build(PostgresQueryBuilder),
        MigrationDbBackend::Sqlite => stmt.build(SqliteQueryBuilder),
    };
    (sql, values.0)
}

/// Relies on QueryStatementWriter::build, as build_select, for an UPDATE.
#[verifier::external_body]
fn build_update(stmt: &UpdateStatement, backend: &MigrationDbBackend) -> (String, Vec<Value>) {
    let (sql, values) = match backend {
        MigrationDbBackend::MySql => stmt.build(MysqlQueryBuilder),
        MigrationDbBackend::Postgres => stmt.build(PostgresQueryBuilder),
        MigrationDbBackend::Sqlite => stmt.build(SqliteQueryBuilder),
    };
    (sql, values.0)
}

/// Relies on QueryStatementWriter::build, as build_select, for a DELETE.
#[verifier::external_body]
fn build_delete(stmt: &DeleteStatement, backend: &MigrationDbBackend) -> (String, Vec<Value>) {
    let (sql, values) = match backend {
        MigrationDbBackend::MySql => stmt.build(MysqlQueryBuilder),
        MigrationDbBackend::Postgres => stmt.build(PostgresQueryBuilder),
        MigrationDbBackend::Sqlite => stmt.build(SqliteQueryBuilder),
    };
    (sql, values.0)
}

/// Relies on TableCreateStatement::build with the backend's schema builder.
#[verifier::external_body]
fn build_table_create(stmt: &TableCreateStatement, backend: &MigrationDbBackend) -> String {
    match backend {
        MigrationDbBackend::MySql => stmt.build(MysqlQueryBuilder),
        MigrationDbBackend::Postgres => stmt.build(PostgresQueryBuilder),
        MigrationDbBackend::Sqlite => stmt.build(SqliteQueryBuilder),
    }
}

/// Relies on TableDropStatement::build with the backend's schema builder.
#[verifier::external_body]
fn build_table_drop(stmt: &TableDropStatement, backend: &MigrationDbBackend) -> String {
    match backend {
        MigrationDbBackend::MySql => stmt.build(MysqlQueryBuilder),
        MigrationDbBackend::Postgres => stmt.build(PostgresQueryBuilder),
        MigrationDbBackend::Sqlite => stmt.build(SqliteQueryBuilder),
    }
}

/// Relies on TableAlterStatement::build with the backend's schema builder.
#[verifier::external_body]
fn build_table_alter(stmt: &TableAlterStatement, backend: &MigrationDbBackend) -> String {
    match backend {
        MigrationDbBackend::MySql => stmt.build(MysqlQueryBuilder),
        MigrationDbBackend::Postgres => stmt.build(PostgresQueryBuilder),
        MigrationDbBackend::Sqlite => stmt.build(SqliteQueryBuilder),
    }
}

/// Relies on TableRenameStatement::build with the backend's schema builder.
#[verifier::external_body]
fn build_table_rename(stmt: &TableRenameStatement, backend: &MigrationDbBackend) -> String {
    match backend {
        MigrationDbBackend::MySql => stmt.build(MysqlQueryBuilder),
        MigrationDbBackend::Postgres => stmt.build(PostgresQueryBuilder),
        MigrationDbBackend::Sqlite => stmt.build(SqliteQueryBuilder),
    }
}

/// Relies on TableTruncateStatement::build with the backend's schema builder.
#[verifier::external_body]
fn build_table_truncate(stmt: &TableTruncateStatement, backend: &MigrationDbBackend) -> String {
    match backend {
        MigrationDbBackend::MySql => stmt.build(MysqlQueryBuilder),
        MigrationDbBackend::Postgres => stmt.build(PostgresQueryBuilder),
        MigrationDbBackend::Sqlite => stmt.build(SqliteQueryBuilder),
    }
}

/// Relies on IndexCreateStatement::build with the backend's schema builder.
#[verifier::external_body]
fn build_index_create(stmt: &IndexCreateStatement, backend: &MigrationDbBackend) -> String {
    match backend {
        MigrationDbBackend::MySql => stmt.build(MysqlQueryBuilder),
        MigrationDbBackend::Postgres => stmt.build(PostgresQueryBuilder),
        MigrationDbBackend::Sqlite => stmt.build(SqliteQueryBuilder),
    }
}

/// Relies on IndexDropStatement::build with the backend's schema builder.
#[verifier::external_body]
fn build_index_drop(stmt: &IndexDropStatement, backend: &MigrationDbBackend) -> String {
    match backend {
        MigrationDbBackend::MySql => stmt.build(MysqlQueryBuilder),
        MigrationDbBackend::Postgres => stmt.build(PostgresQueryBuilder),
        MigrationDbBackend::Sqlite => stmt.build(SqliteQueryBuilder),
    }
}

/// Relies on ForeignKeyCreateStatement::build with the backend's schema
/// builder. SQLite's builder panics on any standalone foreign-key
/// creation, so that backend is ruled out here and refused earlier with
/// UnsupportedForBackend.
#[verifier::external_body]
fn build_foreign_key_create(stmt: &ForeignKeyCreateStatement, backend: &MigrationDbBackend,
) -> String
    requires
        !(backend is Sqlite),
{
    match backend {
        MigrationDbBackend::MySql => stmt.build(MysqlQueryBuilder),
        MigrationDbBackend::Postgres => stmt.build(PostgresQueryBuilder),
        // ruled out by the precondition; SQLite's builder would panic
        MigrationDbBackend::Sqlite => stmt.build(MysqlQueryBuilder),
    }
}

/// Relies on ForeignKeyDropStatement::build with the backend's schema
/// builder. SQLite's builder panics on any foreign-key drop, so that
/// backend is ruled out here and refused earlier with
/// UnsupportedForBackend.
#[verifier::external_body]
fn build_foreign_key_drop(stmt: &ForeignKeyDropStatement, backend: &MigrationDbBackend) -> String
    requires
        !(backend is Sqlite),
{
    match backend {
        MigrationDbBackend::MySql => stmt.build(MysqlQueryBuilder),
        MigrationDbBackend::Postgres => stmt.build(PostgresQueryBuilder),
        // ruled out by the precondition; SQLite's builder would panic
        MigrationDbBackend::Sqlite => stmt.build(MysqlQueryBuilder),
    }
}

/// Relies on TypeCreateStatement::build with the Postgres builder; the
/// caller has checked the backend.
#[verifier::external_body]
fn build_type_create(stmt: &TypeCreateStatement) -> String {
    stmt.build_ref(&PostgresQueryBuilder)
}

/// Relies on TypeAlterStatement::build with the Postgres builder; the
/// caller has checked the backend.
#[verifier::external_body]
fn build_type_alter(stmt: &TypeAlterStatement) -> String {
    stmt.build_ref(&PostgresQueryBuilder)
}

/// Relies on TypeDropStatement::build with the Postgres builder; the caller
/// has checked the backend.
#[verifier::external_body]
fn build_type_drop(stmt: &TypeDropStatement) -> String {
    stmt.build_ref(&PostgresQueryBuilder)
}

/// The dialect's way to name the current schema in a query. SQLite has no
/// such function, so the caller must not ask for it there.
pub fn get_current_schema(backend: MigrationDbBackend) -> (r: &'static str)
    requires
        !(backend is Sqlite),
    ensures
        backend is MySql ==> r@ == "DATABASE()"@,
        backend is Postgres ==> r@ == "CURRENT_SCHEMA()"@,
{
    match backend {
        MigrationDbBackend::MySql => "DATABASE()",
        MigrationDbBackend::Postgres => "CURRENT_SCHEMA()",
        // ruled out by the precondition; any value keeps the match total
        MigrationDbBackend::Sqlite => "DATABASE()",
    }
}

/// The dialect-specific SELECT that lists all user tables under the single
/// aliased column `table_name`: from information_schema on MySQL (filtered
/// to the current database) and Postgres (further restricted to base
/// tables), and from sqlite_master on SQLite (excluding the autoincrement
/// bookkeeping table). The result depends on the backend alone.
pub fn query_tables(backend: MigrationDbBackend) -> (r: (String, Vec<Value>))
    ensures
        r.0@ == query_tables_sql_of(backend),
{
    match backend {
        MigrationDbBackend::MySql => build_query_tables_mysql(),
        MigrationDbBackend::Postgres => build_query_tables_postgres(),
        MigrationDbBackend::Sqlite => build_query_tables_sqlite(),
    }
}

impl Statement {
    /// Produces the dialect's SQL text and ordered parameter values for
    /// this statement. Fails exactly when a Postgres-only statement is
    /// built for another backend, or a foreign-key statement for SQLite;
    /// each of the engine's own statements builds to a text determined by
    /// the backend and the statement's fields; a raw statement is echoed
    /// verbatim; parameterless statements carry no parameters.
    pub fn build(&self, backend: MigrationDbBackend) -> (r: Result<(String, Vec<Value>),
        MigrationError>)
        ensures
            r is Err <==> (self.is_postgres_only() && !(backend is Postgres)) || (
            self.is_sqlite_unsupported() && backend is Sqlite),
            r is Err ==> r->Err_0 is UnsupportedForBackend,
            self is CreateHistoryTable ==> r is Ok && r->Ok_0.0@ == create_history_sql_of(
                backend,
                "seaql_migrations"@,
                "version"@,
                "applied_at"@,
            ),
            self is SelectHistory ==> r is Ok && r->Ok_0.0@ == select_history_sql_of(
                backend,
                "seaql_migrations"@,
                "version"@,
                "applied_at"@,
            ),
            self is InsertHistory ==> r is Ok && r->Ok_0.0@ == insert_history_sql_of(
                backend,
                "seaql_migrations"@,
                "version"@,
                "applied_at"@,
            ) && r->Ok_0.1@.len() == 2,
            self is DeleteHistory ==> r is Ok && r->Ok_0.0@ == delete_history_sql_of(
                backend,
                "seaql_migrations"@,
                "version"@,
            ) && r->Ok_0.1@.len() == 1,
            self is QueryTables ==> r is Ok && r->Ok_0.0@ == query_tables_sql_of(backend),
            self matches Statement::HasTable { table } ==> r is Ok && r->Ok_0.0@
                == has_table_sql_of(backend, table@),
            self matches Statement::HasColumn { table, column } ==> r is Ok && r->Ok_0.0@ == (
            if backend is Sqlite {
                "PRAGMA table_info("@ + table@ + ")"@
            } else {
                has_column_sql_of(backend, table@, column@)
            }),
            self is SelectForeignKeys ==> r is Ok && r->Ok_0.0@ == select_fks_sql_of(backend),
            self matches Statement::DropForeignKeyByName { table, constraint } ==> (!(
            backend is Sqlite) ==> r is Ok && r->Ok_0.0@ == drop_fk_sql_of(
                backend,
                table@,
                constraint@,
            )),
            self matches Statement::DropUserTable { table } ==> r is Ok && r->Ok_0.0@
                == drop_table_sql_of(backend, table@, !(backend is Sqlite)),
            self matches Statement::Raw(s) ==> r is Ok && r->Ok_0.0@ == s@,
            self matches Statement::SetForeignKeyCheck { on } ==> r is Ok && r->Ok_0.0@ == (if *on {
                "PRAGMA foreign_keys = ON"@
            } else {
                "PRAGMA foreign_keys = OFF"@
            }),
            self matches Statement::TableInfoPragma { table } ==> r is Ok && r->Ok_0.0@
                == "PRAGMA table_info("@ + table@ + ")"@,
            r is Ok && self.is_parameterless() ==> r->Ok_0.1@.len() == 0,
    {
        match self {
            Statement::CreateHistoryTable => {
                let sql = build_create_history_table(
                    "seaql_migrations",
                    "version",
                    "applied_at",
                    backend,
                );
                Ok((sql, Vec::new()))
            },
            Statement::SelectHistory => {
                let sql = build_select_history("seaql_migrations", "version", "applied_at", backend);
                Ok((sql, Vec::new()))
            },
            Statement::InsertHistory { version, applied_at } => {
                Ok(
                    build_insert_history(
                        "seaql_migrations",
                        "version",
                        "applied_at",
                        version.as_str(),
                        *applied_at,
                        backend,
                    ),
                )
            },
            Statement::DeleteHistory { version } => {
                Ok(build_delete_history("seaql_migrations", "version", version.as_str(), backend))
            },
            Statement::QueryTables => Ok(query_tables(backend)),
            Statement::HasTable { table } => {
                match backend {
                    MigrationDbBackend::MySql => Ok(build_has_table_mysql(table.as_str())),
                    MigrationDbBackend::Postgres => Ok(build_has_table_postgres(table.as_str())),
                    MigrationDbBackend::Sqlite => Ok(build_has_table_sqlite(table.as_str())),
                }
            },
            Statement::HasColumn { table, column } => {
                if backend == MigrationDbBackend::Sqlite {
                    Ok((pragma_table_info_sql(table.as_str()), Vec::new()))
                } else {
                    Ok(build_has_column_query(table.as_str(), column.as_str(), backend))
                }
            },
            Statement::TableInfoPragma { table } => {
                Ok((pragma_table_info_sql(table.as_str()), Vec::new()))
            },
            Statement::SelectForeignKeys => Ok(build_select_foreign_keys(backend)),
            Statement::DropForeignKeyByName { table, constraint } => {
                if backend == MigrationDbBackend::Sqlite {
                    Err(MigrationError::UnsupportedForBackend)
                } else {
                    let sql = build_drop_foreign_key(table.as_str(), constraint.as_str(), backend);
                    Ok((sql, Vec::new()))
                }
            },
            Statement::DropUserTable { table } => {
                let sql = if backend == MigrationDbBackend::Sqlite {
                    build_drop_table_plain(table.as_str(), backend)
                } else {
                    build_drop_table_cascade(table.as_str(), backend)
                };
                Ok((sql, Vec::new()))
            },
            Statement::SetForeignKeyCheck { on } => {
                let sql = if *on {
                    "PRAGMA foreign_keys = ON"
                } else {
                    "PRAGMA foreign_keys = OFF"
                };
                Ok((sql.to_owned(), Vec::new()))
            },
            Statement::Raw(s) => Ok((s.clone(), Vec::new())),
            Statement::Insert(stmt) => Ok(build_insert(stmt, &backend)),
            Statement::Select(stmt) => Ok(build_select(stmt, &backend)),
            Statement::Update(stmt) => Ok(build_update(stmt, &backend)),
            Statement::Delete(stmt) => Ok(build_delete(stmt, &backend)),
            Statement::CreateTable(stmt) => Ok((build_table_create(stmt, &backend), Vec::new())),
            Statement::DropTable(stmt) => Ok((build_table_drop(stmt, &backend), Vec::new())),
            Statement::AlterTable(stmt) => Ok((build_table_alter(stmt, &backend), Vec::new())),
            Statement::RenameTable(stmt) => Ok((build_table_rename(stmt, &backend), Vec::new())),
            Statement::TruncateTable(stmt) => Ok(
                (build_table_truncate(stmt, &backend), Vec::new()),
            ),
            Statement::CreateIndex(stmt) => Ok((build_index_create(stmt, &backend), Vec::new())),
            Statement::DropIndex(stmt) => Ok((build_index_drop(stmt, &backend), Vec::new())),
            Statement::CreateForeignKey(stmt) => {
                if backend == MigrationDbBackend::Sqlite {
                    Err(MigrationError::UnsupportedForBackend)
                } else {
                    Ok((build_foreign_key_create(stmt, &backend), Vec::new()))
                }
            },
            Statement::DropForeignKey(stmt) => {
                if backend == MigrationDbBackend::Sqlite {
                    Err(MigrationError::UnsupportedForBackend)
                } else {
                    Ok((build_foreign_key_drop(stmt, &backend), Vec::new()))
                }
            },
            Statement::CreateType(stmt) => {
                if backend == MigrationDbBackend::Postgres {
                    Ok((build_type_create(stmt), Vec::new()))
                } else {
                    Err(MigrationError::UnsupportedForBackend)
                }
            },
            Statement::AlterType(stmt) => {
                if backend == MigrationDbBackend::Postgres {
                    Ok((build_type_alter(stmt), Vec::new()))
                } else {
                    Err(MigrationError::UnsupportedForBackend)
                }
            },
            Statement::DropType(stmt) => {
                if backend == MigrationDbBackend::Postgres {
                    Ok((build_type_drop(stmt), Vec::new()))
                } else {
                    Err(MigrationError::UnsupportedForBackend)
                }
            },
        }
    }
}

/// A value the connection can turn into the dialect's SQL text with its
/// ordered parameter values. The spec functions carry what the model can
/// say of a build without looking at the carried statement: whether it
/// succeeds, the text where the statement's own plain content fixes it, and
/// the parameter count where determined. `Statement::build` states the
/// exact per-variant contract; a bare string builds as itself, with no
/// parameters, whatever the backend.
pub trait MigrationStatementBuilder {
    /// Whether building succeeds for this backend.
    spec fn builds_ok(&self, db_backend: MigrationDbBackend) -> bool;

    /// The SQL text, where the value's plain content determines it; `None`
    /// where a carried statement is opaque to the model.
    spec fn built_sql(&self, db_backend: MigrationDbBackend) -> Option<Seq<char>>;

    /// The bound parameter count, where determined.
    spec fn built_params(&self, db_backend: MigrationDbBackend) -> Option<nat>;

    fn build(&self, db_backend: MigrationDbBackend) -> (r: Result<
        (String, Vec<Value>),
        MigrationError,
    >)
        ensures
            r is Ok <==> self.builds_ok(db_backend),
            r is Ok && self.built_sql(db_backend) is Some ==> r->Ok_0.0@ == self.built_sql(
                db_backend,
            ).unwrap(),
            r is Ok && self.built_params(db_backend) is Some ==> r->Ok_0.1@.len()
                == self.built_params(db_backend).unwrap(),
    ;
}

impl MigrationStatementBuilder for Statement {
    open spec fn builds_ok(&self, db_backend: MigrationDbBackend) -> bool {
        !((self.is_postgres_only() && !(db_backend is Postgres)) || (self.is_sqlite_unsupported()
            && db_backend is Sqlite))
    }

    open spec fn built_sql(&self, db_backend: MigrationDbBackend) -> Option<Seq<char>> {
        match self {
            Statement::Raw(s) => Some(s@),
            Statement::SetForeignKeyCheck { on } => Some(
                if *on {
                    "PRAGMA foreign_keys = ON"@
                } else {
                    "PRAGMA foreign_keys = OFF"@
                },
            ),
            Statement::TableInfoPragma { table } => Some("PRAGMA table_info("@ + table@ + ")"@),
            _ => None,
        }
    }

    open spec fn built_params(&self, db_backend: MigrationDbBackend) -> Option<nat> {
        if self.is_parameterless() {
            Some(0nat)
        } else {
            None
        }
    }

    fn build(&self, db_backend: MigrationDbBackend) -> Result<
        (String, Vec<Value>),
        MigrationError,
    > {
        Statement::build(self, db_backend)
    }
}

impl MigrationStatementBuilder for String {
    open spec fn builds_ok(&self, db_backend: MigrationDbBackend) -> bool {
        true
    }

    open spec fn built_sql(&self, db_backend: MigrationDbBackend) -> Option<Seq<char>> {
        Some(self@)
    }

    open spec fn built_params(&self, db_backend: MigrationDbBackend) -> Option<nat> {
        Some(0nat)
    }

    fn build(&self, db_backend: MigrationDbBackend) -> Result<
        (String, Vec<Value>),
        MigrationError,
    > {
        Ok((self.clone(), Vec::new()))
    }
}

} // verus!
