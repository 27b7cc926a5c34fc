use sea_migration::{MigrationDbBackend, MigrationError, MigrationStatementBuilder, Statement};
use sea_query::extension::postgres::Type;
use sea_query::Alias;

const ALL_BACKENDS: [MigrationDbBackend; 3] = [
    MigrationDbBackend::MySql,
    MigrationDbBackend::Postgres,
    MigrationDbBackend::Sqlite,
];

#[test]
fn create_history_table_sql() {
    for backend in ALL_BACKENDS {
        let (sql, params) = Statement::CreateHistoryTable.build(backend).unwrap();
        assert!(sql.contains("seaql_migrations"), "{}", sql);
        assert!(sql.contains("IF NOT EXISTS"), "{}", sql);
        assert!(sql.contains("version"), "{}", sql);
        assert!(sql.contains("applied_at"), "{}", sql);
        assert!(params.is_empty());
    }
}

#[test]
fn select_history_orders_by_version() {
    for backend in ALL_BACKENDS {
        let (sql, _) = Statement::SelectHistory.build(backend).unwrap();
        assert!(sql.contains("SELECT"), "{}", sql);
        assert!(sql.contains("seaql_migrations"), "{}", sql);
        assert!(sql.contains("ORDER BY"), "{}", sql);
        assert!(sql.contains("ASC"), "{}", sql);
    }
}

#[test]
fn insert_history_binds_version_and_timestamp() {
    let stmt = Statement::InsertHistory { version: "m1_create_cake".to_string(), applied_at: 42 };
    let (sql, params) = stmt.build(MigrationDbBackend::Postgres).unwrap();
    assert!(sql.contains("INSERT"), "{}", sql);
    assert!(sql.contains("seaql_migrations"), "{}", sql);
    assert_eq!(params.len(), 2);
}

#[test]
fn delete_history_binds_the_version() {
    let stmt = Statement::DeleteHistory { version: "m1_create_cake".to_string() };
    let (sql, params) = stmt.build(MigrationDbBackend::MySql).unwrap();
    assert!(sql.contains("DELETE"), "{}", sql);
    assert!(sql.contains("seaql_migrations"), "{}", sql);
    assert_eq!(params.len(), 1);
}

#[test]
fn query_tables_is_dialect_specific() {
    let (mysql, _) = Statement::QueryTables.build(MigrationDbBackend::MySql).unwrap();
    assert!(mysql.contains("information_schema"), "{}", mysql);
    assert!(mysql.contains("DATABASE()"), "{}", mysql);
    let (pg, _) = Statement::QueryTables.build(MigrationDbBackend::Postgres).unwrap();
    assert!(pg.contains("information_schema"), "{}", pg);
    assert!(pg.contains("CURRENT_SCHEMA()"), "{}", pg);
    let pg_params = Statement::QueryTables.build(MigrationDbBackend::Postgres).unwrap().1;
    assert!(pg_params.len() >= 1, "BASE TABLE filter should be bound");
    let (sqlite, sqlite_params) = Statement::QueryTables.build(MigrationDbBackend::Sqlite).unwrap();
    assert!(sqlite.contains("sqlite_master"), "{}", sqlite);
    assert_eq!(sqlite_params.len(), 2, "the type and name filters are bound");
}

#[test]
fn has_table_counts_rows_over_a_subquery() {
    let stmt = Statement::HasTable { table: "cake".to_string() };
    let (sql, params) = stmt.build(MigrationDbBackend::Sqlite).unwrap();
    assert!(sql.contains("COUNT(*)"), "{}", sql);
    assert!(sql.contains("rows"), "{}", sql);
    assert!(sql.contains("subquery"), "{}", sql);
    assert!(!params.is_empty());
}

#[test]
fn has_column_uses_information_schema_away_from_sqlite() {
    let stmt = Statement::HasColumn { table: "cake".to_string(), column: "name".to_string() };
    let (sql, _) = stmt.build(MigrationDbBackend::MySql).unwrap();
    assert!(sql.contains("information_schema"), "{}", sql);
    assert!(sql.contains("column_name"), "{}", sql);
    let (pragma, params) = stmt.build(MigrationDbBackend::Sqlite).unwrap();
    assert_eq!(pragma, "PRAGMA table_info(cake)");
    assert!(params.is_empty());
}

#[test]
fn pragma_statements_are_literal() {
    let stmt = Statement::TableInfoPragma { table: "cake".to_string() };
    let (sql, _) = stmt.build(MigrationDbBackend::Sqlite).unwrap();
    assert_eq!(sql, "PRAGMA table_info(cake)");
    let (off, _) = Statement::SetForeignKeyCheck { on: false }
        .build(MigrationDbBackend::Sqlite)
        .unwrap();
    assert_eq!(off, "PRAGMA foreign_keys = OFF");
    let (on, _) =
        Statement::SetForeignKeyCheck { on: true }.build(MigrationDbBackend::Sqlite).unwrap();
    assert_eq!(on, "PRAGMA foreign_keys = ON");
}

#[test]
fn select_foreign_keys_reads_table_constraints() {
    let (sql, _) = Statement::SelectForeignKeys.build(MigrationDbBackend::MySql).unwrap();
    assert!(sql.contains("table_constraints"), "{}", sql);
    assert!(sql.contains("TABLE_NAME"), "{}", sql);
    assert!(sql.contains("CONSTRAINT_NAME"), "{}", sql);
}

#[test]
fn drop_foreign_key_names_the_constraint() {
    let stmt = Statement::DropForeignKeyByName {
        table: "child".to_string(),
        constraint: "fk_child_parent".to_string(),
    };
    let (sql, _) = stmt.build(MigrationDbBackend::MySql).unwrap();
    assert!(sql.contains("child"), "{}", sql);
    assert!(sql.contains("fk_child_parent"), "{}", sql);
}

#[test]
fn foreign_key_statements_fail_under_sqlite() {
    let by_name = Statement::DropForeignKeyByName {
        table: "child".to_string(),
        constraint: "fk_child_parent".to_string(),
    };
    assert_eq!(
        by_name.build(MigrationDbBackend::Sqlite).unwrap_err(),
        MigrationError::UnsupportedForBackend
    );
    assert!(by_name.build(MigrationDbBackend::MySql).is_ok());
    let create = Statement::CreateForeignKey(sea_query::ForeignKey::create().to_owned());
    assert_eq!(
        create.build(MigrationDbBackend::Sqlite).unwrap_err(),
        MigrationError::UnsupportedForBackend
    );
    let drop = Statement::DropForeignKey(sea_query::ForeignKey::drop().to_owned());
    assert_eq!(
        drop.build(MigrationDbBackend::Sqlite).unwrap_err(),
        MigrationError::UnsupportedForBackend
    );
}

#[test]
fn drop_user_table_cascades_away_from_sqlite() {
    let stmt = Statement::DropUserTable { table: "cake".to_string() };
    let (mysql, _) = stmt.build(MigrationDbBackend::MySql).unwrap();
    assert!(mysql.contains("IF EXISTS"), "{}", mysql);
    assert!(mysql.contains("CASCADE"), "{}", mysql);
    let (sqlite, _) = stmt.build(MigrationDbBackend::Sqlite).unwrap();
    assert!(sqlite.contains("IF EXISTS"), "{}", sqlite);
    assert!(!sqlite.contains("CASCADE"), "{}", sqlite);
}

#[test]
fn raw_statement_is_echoed_verbatim() {
    let stmt = Statement::Raw("VACUUM".to_string());
    for backend in ALL_BACKENDS {
        let (sql, params) = stmt.build(backend).unwrap();
        assert_eq!(sql, "VACUUM");
        assert!(params.is_empty());
    }
    let raw: String = "VACUUM".to_string();
    for backend in ALL_BACKENDS {
        let (sql, params) = MigrationStatementBuilder::build(&raw, backend).unwrap();
        assert_eq!(sql, "VACUUM");
        assert!(params.is_empty());
    }
}

#[test]
fn bookkeeping_names_are_fixed() {
    assert_eq!(sea_migration::seaql_migrations::Table.name(), "seaql_migrations");
    assert_eq!(sea_migration::seaql_migrations::Column::Version.as_str(), "version");
    assert_eq!(sea_migration::seaql_migrations::Column::AppliedAt.as_str(), "applied_at");
    assert_eq!(sea_migration::MigrationStatus::Pending.as_str(), "Pending");
    assert_eq!(sea_migration::MigrationStatus::Applied.as_str(), "Applied");
}

#[test]
fn postgres_type_statement_fails_under_other_backends() {
    let create = Type::create()
        .as_enum(Alias::new("mood"))
        .values([Alias::new("happy"), Alias::new("sad")])
        .to_owned();
    let stmt = Statement::CreateType(create);
    assert_eq!(
        stmt.build(MigrationDbBackend::Sqlite).unwrap_err(),
        MigrationError::UnsupportedForBackend
    );
    assert_eq!(
        stmt.build(MigrationDbBackend::MySql).unwrap_err(),
        MigrationError::UnsupportedForBackend
    );
    let (sql, _) = stmt.build(MigrationDbBackend::Postgres).unwrap();
    assert!(sql.contains("CREATE TYPE"), "{}", sql);
    assert!(sql.contains("mood"), "{}", sql);
}
