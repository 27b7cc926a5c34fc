use sea_migration::manager::SchemaManager;
use sea_migration::migrator::{
    MigrationLogEvent, MigrationName, MigrationStatus, MigrationTrait, Migrator,
};
use sea_migration::seaql_migrations::{Model, ModelV};
use sea_migration::{
    MigrationConnection, MigrationDbBackend, MigrationError, MigrationQueryResult, Statement,
};
use sea_query::{Alias, ColumnDef, Table};

// The specification-level items of the library's traits survive compilation
// as ordinary trait items; no call ever reaches them at run time, so the
// test doubles leave their bodies unreachable.

struct MockRow {
    i64s: Vec<(String, i64)>,
    strs: Vec<(String, String)>,
}

impl MigrationQueryResult for MockRow {
    fn i64_col(&self, _col: sea_migration::vstd::seq::Seq<char>) -> Option<i64> {
        unreachable!()
    }

    fn string_col(
        &self,
        _col: sea_migration::vstd::seq::Seq<char>,
    ) -> Option<sea_migration::vstd::seq::Seq<char>> {
        unreachable!()
    }

    fn try_get_i64(&self, col: &str) -> Result<i64, MigrationError> {
        self.i64s
            .iter()
            .find(|(c, _)| c == col)
            .map(|(_, v)| *v)
            .ok_or_else(|| MigrationError::ColumnAccess(col.to_string()))
    }

    fn try_get_string(&self, col: &str) -> Result<String, MigrationError> {
        self.strs
            .iter()
            .find(|(c, _)| c == col)
            .map(|(_, v)| v.clone())
            .ok_or_else(|| MigrationError::ColumnAccess(col.to_string()))
    }
}

struct MockDb {
    backend: MigrationDbBackend,
    history: Option<Vec<Model>>,
    tables: Vec<String>,
    columns: Vec<(String, Vec<String>)>,
    fks: Vec<(String, String)>,
    clock: i64,
}

impl MockDb {
    fn new(backend: MigrationDbBackend) -> Self {
        MockDb { backend, history: None, tables: Vec::new(), columns: Vec::new(), fks: Vec::new(), clock: 0 }
    }

    fn register_table(&mut self, name: &str, cols: &[&str]) {
        if !self.tables.iter().any(|t| t == name) {
            self.tables.push(name.to_string());
        }
        self.columns
            .push((name.to_string(), cols.iter().map(|c| c.to_string()).collect()));
    }

    fn versions(&self) -> Vec<String> {
        self.history
            .as_ref()
            .map(|h| h.iter().map(|m| m.version.clone()).collect())
            .unwrap_or_default()
    }
}

fn table_ref_name(r: &sea_query::TableRef) -> Option<String> {
    match r {
        sea_query::TableRef::Table(iden) => Some(iden.to_string()),
        _ => None,
    }
}

impl MigrationConnection for MockDb {
    type QueryResult = MockRow;

    fn backend_spec(&self) -> MigrationDbBackend {
        unreachable!()
    }

    fn history_spec(&self) -> Option<sea_migration::vstd::seq::Seq<ModelV>> {
        unreachable!()
    }

    fn tables_spec(
        &self,
    ) -> sea_migration::vstd::set::Set<sea_migration::vstd::seq::Seq<char>> {
        unreachable!()
    }

    fn columns_spec(
        &self,
        _table: sea_migration::vstd::seq::Seq<char>,
    ) -> sea_migration::vstd::set::Set<sea_migration::vstd::seq::Seq<char>> {
        unreachable!()
    }

    fn get_database_backend(&self) -> MigrationDbBackend {
        self.backend
    }

    fn current_timestamp(&mut self) -> i64 {
        self.clock += 1;
        self.clock
    }

    fn exec_stmt(&mut self, stmt: &Statement) -> Result<(), MigrationError> {
        match stmt {
            Statement::CreateHistoryTable => {
                if self.history.is_none() {
                    self.history = Some(Vec::new());
                }
                if !self.tables.iter().any(|t| t == "seaql_migrations") {
                    self.tables.push("seaql_migrations".to_string());
                }
                Ok(())
            }
            Statement::InsertHistory { version, applied_at } => match self.history.as_mut() {
                None => Err(MigrationError::Driver("no history table".to_string())),
                Some(h) => {
                    if h.iter().any(|m| &m.version == version) {
                        Err(MigrationError::Driver("duplicate version".to_string()))
                    } else {
                        h.push(Model { version: version.clone(), applied_at: *applied_at });
                        Ok(())
                    }
                }
            },
            Statement::DeleteHistory { version } => match self.history.as_mut() {
                None => Err(MigrationError::Driver("no history table".to_string())),
                Some(h) => {
                    h.retain(|m| &m.version != version);
                    Ok(())
                }
            },
            Statement::DropUserTable { table } => {
                self.tables.retain(|t| t != table);
                self.columns.retain(|(t, _)| t != table);
                self.fks.retain(|(t, _)| t != table);
                if table == "seaql_migrations" {
                    self.history = None;
                }
                Ok(())
            }
            Statement::DropForeignKeyByName { table, constraint } => {
                self.fks.retain(|(t, c)| !(t == table && c == constraint));
                Ok(())
            }
            Statement::SetForeignKeyCheck { .. } => Ok(()),
            Statement::CreateTable(st) => {
                let name = st
                    .get_table_name()
                    .and_then(table_ref_name)
                    .ok_or_else(|| MigrationError::Driver("unnamed table".to_string()))?;
                let cols: Vec<String> =
                    st.get_columns().iter().map(|c| c.get_column_name()).collect();
                if !self.tables.iter().any(|t| t == &name) {
                    self.tables.push(name.clone());
                }
                self.columns.push((name, cols));
                Ok(())
            }
            _ => Ok(()),
        }
    }

    fn query_one(&mut self, stmt: &Statement) -> Result<Option<MockRow>, MigrationError> {
        match stmt {
            Statement::HasTable { table } => {
                let n = if self.tables.iter().any(|t| t == table) { 1 } else { 0 };
                Ok(Some(MockRow { i64s: vec![("rows".to_string(), n)], strs: Vec::new() }))
            }
            Statement::HasColumn { table, column } => {
                let n = if self
                    .columns
                    .iter()
                    .any(|(t, cs)| t == table && cs.iter().any(|c| c == column))
                {
                    1
                } else {
                    0
                };
                Ok(Some(MockRow { i64s: vec![("rows".to_string(), n)], strs: Vec::new() }))
            }
            _ => Ok(None),
        }
    }

    fn query_all(&mut self, stmt: &Statement) -> Result<Vec<MockRow>, MigrationError> {
        match stmt {
            Statement::SelectHistory => match self.history.as_ref() {
                None => Err(MigrationError::Driver("no history table".to_string())),
                Some(h) => Ok(h
                    .iter()
                    .map(|m| MockRow {
                        i64s: vec![("applied_at".to_string(), m.applied_at)],
                        strs: vec![("version".to_string(), m.version.clone())],
                    })
                    .collect()),
            },
            Statement::QueryTables => Ok(self
                .tables
                .iter()
                .map(|t| MockRow {
                    i64s: Vec::new(),
                    strs: vec![("table_name".to_string(), t.clone())],
                })
                .collect()),
            Statement::TableInfoPragma { table } => Ok(self
                .columns
                .iter()
                .filter(|(t, _)| t == table)
                .flat_map(|(_, cs)| cs.iter())
                .map(|c| MockRow {
                    i64s: Vec::new(),
                    strs: vec![("name".to_string(), c.clone())],
                })
                .collect()),
            Statement::SelectForeignKeys => Ok(self
                .fks
                .iter()
                .map(|(t, c)| MockRow {
                    i64s: Vec::new(),
                    strs: vec![
                        ("TABLE_NAME".to_string(), t.clone()),
                        ("CONSTRAINT_NAME".to_string(), c.clone()),
                    ],
                })
                .collect()),
            _ => Ok(Vec::new()),
        }
    }
}

#[derive(Clone, Copy)]
enum DemoUnit {
    CreateCake,
    CreateFruit,
    SeedCake,
}

impl MigrationName for DemoUnit {
    fn name_spec(&self) -> sea_migration::vstd::seq::Seq<char> {
        unreachable!()
    }

    fn name(&self) -> String {
        match self {
            DemoUnit::CreateCake => "m1_create_cake".to_string(),
            DemoUnit::CreateFruit => "m2_create_fruit".to_string(),
            DemoUnit::SeedCake => "m3_seed_cake".to_string(),
        }
    }
}

impl MigrationTrait<MockDb> for DemoUnit {
    fn up(&self, manager: &mut SchemaManager<MockDb>) -> Result<(), MigrationError> {
        match self {
            DemoUnit::CreateCake => manager.create_table(
                Table::create()
                    .table(Alias::new("cake"))
                    .col(ColumnDef::new(Alias::new("id")).integer())
                    .col(ColumnDef::new(Alias::new("name")).string())
                    .to_owned(),
            ),
            DemoUnit::CreateFruit => manager.create_table(
                Table::create()
                    .table(Alias::new("fruit"))
                    .col(ColumnDef::new(Alias::new("id")).integer())
                    .col(ColumnDef::new(Alias::new("name")).string())
                    .to_owned(),
            ),
            DemoUnit::SeedCake => {
                manager.exec_stmt(&Statement::Raw("INSERT INTO cake VALUES (1, 'c')".to_string()))
            }
        }
    }

    fn down(&self, manager: &mut SchemaManager<MockDb>) -> Result<(), MigrationError> {
        match self {
            DemoUnit::CreateCake => {
                manager.exec_stmt(&Statement::DropUserTable { table: "cake".to_string() })
            }
            DemoUnit::CreateFruit => {
                manager.exec_stmt(&Statement::DropUserTable { table: "fruit".to_string() })
            }
            DemoUnit::SeedCake => {
                manager.exec_stmt(&Statement::Raw("DELETE FROM cake".to_string()))
            }
        }
    }
}

#[derive(Clone, Copy)]
enum Two {
    First,
    Second,
}

impl MigrationName for Two {
    fn name_spec(&self) -> sea_migration::vstd::seq::Seq<char> {
        unreachable!()
    }

    fn name(&self) -> String {
        match self {
            Two::First => "m1_first".to_string(),
            Two::Second => "m2_second".to_string(),
        }
    }
}

impl MigrationTrait<MockDb> for Two {
    fn up(&self, manager: &mut SchemaManager<MockDb>) -> Result<(), MigrationError> {
        match self {
            Two::First => manager.exec_stmt(&Statement::Raw("SELECT 1".to_string())),
            Two::Second => Err(MigrationError::Message("boom".to_string())),
        }
    }

    fn down(&self, _manager: &mut SchemaManager<MockDb>) -> Result<(), MigrationError> {
        Ok(())
    }
}

fn demo_units() -> Vec<DemoUnit> {
    vec![DemoUnit::CreateCake, DemoUnit::CreateFruit, DemoUnit::SeedCake]
}

fn sqlite_setup() -> (Migrator<DemoUnit>, SchemaManager<MockDb>) {
    (Migrator::new(demo_units()), SchemaManager::new(MockDb::new(MigrationDbBackend::Sqlite)))
}

#[test]
fn status_fresh_install_sqlite() {
    let (mut migrator, mut mgr) = sqlite_setup();
    migrator.status(&mut mgr).unwrap();
    let lines: Vec<&MigrationLogEvent> = migrator
        .events
        .iter()
        .filter(|e| matches!(e, MigrationLogEvent::StatusLine { .. }))
        .collect();
    assert_eq!(lines.len(), 3);
    for (line, expected) in lines.iter().zip(["m1_create_cake", "m2_create_fruit", "m3_seed_cake"])
    {
        match line {
            MigrationLogEvent::StatusLine { name, status } => {
                assert_eq!(name, expected);
                assert_eq!(*status, MigrationStatus::Pending);
            }
            _ => unreachable!(),
        }
    }
    let db = mgr.into_connection();
    assert_eq!(db.history, Some(Vec::new()));
    assert!(db.tables.iter().any(|t| t == "seaql_migrations"));
}

#[test]
fn up_all_applies_in_declared_order() {
    let (mut migrator, mut mgr) = sqlite_setup();
    migrator.up(&mut mgr, None).unwrap();
    assert!(mgr.has_table("cake").unwrap());
    assert!(mgr.has_table("fruit").unwrap());
    assert!(mgr.has_column("cake", "name").unwrap());
    assert!(!mgr.has_column("cake", "flavour").unwrap());
    let db = mgr.into_connection();
    assert_eq!(db.versions(), ["m1_create_cake", "m2_create_fruit", "m3_seed_cake"]);
    for m in db.history.as_ref().unwrap() {
        assert!(m.applied_at > 0);
    }
    let applied_events: Vec<String> = migrator
        .events
        .iter()
        .filter_map(|e| match e {
            MigrationLogEvent::ApplyingMigration { name } => Some(name.clone()),
            _ => None,
        })
        .collect();
    assert_eq!(applied_events, ["m1_create_cake", "m2_create_fruit", "m3_seed_cake"]);
}

#[test]
fn down_one_step_keeps_earlier_migrations() {
    let (mut migrator, mut mgr) = sqlite_setup();
    migrator.up(&mut mgr, None).unwrap();
    migrator.down(&mut mgr, Some(1)).unwrap();
    assert!(mgr.has_table("cake").unwrap());
    let db = mgr.into_connection();
    assert_eq!(db.versions(), ["m1_create_cake", "m2_create_fruit"]);
    let rolled_back: Vec<String> = migrator
        .events
        .iter()
        .filter_map(|e| match e {
            MigrationLogEvent::RollingBackMigration { name } => Some(name.clone()),
            _ => None,
        })
        .collect();
    assert_eq!(rolled_back, ["m3_seed_cake"]);
}

#[test]
fn drift_detection_reports_both_sides() {
    let (mut migrator, mut mgr) = sqlite_setup();
    migrator.up(&mut mgr, None).unwrap();
    let mut without_m2 = Migrator::new(vec![DemoUnit::CreateCake, DemoUnit::SeedCake]);
    let err = without_m2.up(&mut mgr, None).unwrap_err();
    match err {
        MigrationError::Drift { applied_version, file_name } => {
            assert_eq!(applied_version, "m2_create_fruit");
            assert_eq!(file_name.as_deref(), Some("m3_seed_cake"));
        }
        other => panic!("expected drift, got {:?}", other),
    }
    let db = mgr.into_connection();
    assert_eq!(db.versions(), ["m1_create_cake", "m2_create_fruit", "m3_seed_cake"]);
}

#[test]
fn fresh_on_mysql_drops_foreign_keys_first() {
    let mut db = MockDb::new(MigrationDbBackend::MySql);
    db.register_table("parent", &["id"]);
    db.register_table("child", &["id", "parent_id"]);
    db.register_table("orphan", &["id"]);
    db.fks.push(("child".to_string(), "fk_child_parent".to_string()));
    db.history = Some(vec![Model { version: "stale".to_string(), applied_at: 7 }]);
    db.tables.push("seaql_migrations".to_string());
    let mut migrator = Migrator::new(demo_units());
    let mut mgr = SchemaManager::new(db);
    migrator.fresh(&mut mgr).unwrap();
    let events = &migrator.events;
    let pos = |e: &MigrationLogEvent| events.iter().position(|x| x == e).unwrap();
    let dropping_all = pos(&MigrationLogEvent::DroppingAllForeignKeys);
    let dropping_fk = pos(&MigrationLogEvent::DroppingForeignKey {
        table: "child".to_string(),
        constraint: "fk_child_parent".to_string(),
    });
    let fk_dropped =
        pos(&MigrationLogEvent::ForeignKeyDropped { constraint: "fk_child_parent".to_string() });
    let all_dropped = pos(&MigrationLogEvent::AllForeignKeysDropped);
    let first_table_drop = events
        .iter()
        .position(|x| matches!(x, MigrationLogEvent::DroppingTable { .. }))
        .unwrap();
    assert!(dropping_all < dropping_fk);
    assert!(dropping_fk < fk_dropped);
    assert!(fk_dropped < all_dropped);
    assert!(all_dropped < first_table_drop);
    let dropped: Vec<String> = events
        .iter()
        .filter_map(|x| match x {
            MigrationLogEvent::DroppingTable { table } => Some(table.clone()),
            _ => None,
        })
        .collect();
    assert_eq!(dropped, ["parent", "child", "orphan", "seaql_migrations"]);
    let db = mgr.into_connection();
    assert_eq!(db.versions(), ["m1_create_cake", "m2_create_fruit", "m3_seed_cake"]);
    let mut tables = db.tables.clone();
    tables.sort();
    assert_eq!(tables, ["cake", "fruit", "seaql_migrations"]);
    assert!(db.fks.is_empty());
}

#[test]
fn fresh_is_idempotent() {
    let (mut migrator, mut mgr) = sqlite_setup();
    migrator.fresh(&mut mgr).unwrap();
    let (versions1, mut tables1) = {
        let db = mgr.get_connection();
        (db.versions(), db.tables.clone())
    };
    migrator.fresh(&mut mgr).unwrap();
    let db = mgr.into_connection();
    let mut tables2 = db.tables.clone();
    tables1.sort();
    tables2.sort();
    assert_eq!(db.versions(), versions1);
    assert_eq!(tables2, tables1);
}

#[test]
fn up_then_down_leaves_history_empty() {
    let (mut migrator, mut mgr) = sqlite_setup();
    migrator.up(&mut mgr, None).unwrap();
    migrator.down(&mut mgr, None).unwrap();
    let db = mgr.into_connection();
    assert_eq!(db.history, Some(Vec::new()));
    assert_eq!(db.tables, ["seaql_migrations"]);
}

#[test]
fn zero_steps_do_nothing() {
    let (mut migrator, mut mgr) = sqlite_setup();
    migrator.up(&mut mgr, Some(0)).unwrap();
    assert_eq!(mgr.get_connection().versions(), Vec::<String>::new());
    migrator.up(&mut mgr, None).unwrap();
    migrator.down(&mut mgr, Some(0)).unwrap();
    let db = mgr.into_connection();
    assert_eq!(db.versions().len(), 3);
}

#[test]
fn steps_beyond_available_behave_as_none() {
    let (mut migrator, mut mgr) = sqlite_setup();
    migrator.up(&mut mgr, Some(10)).unwrap();
    assert_eq!(mgr.get_connection().versions().len(), 3);
    migrator.down(&mut mgr, Some(99)).unwrap();
    let db = mgr.into_connection();
    assert_eq!(db.versions(), Vec::<String>::new());
}

#[test]
fn stepwise_up_equals_one_call() {
    let (mut migrator, mut mgr) = sqlite_setup();
    migrator.up(&mut mgr, Some(1)).unwrap();
    assert_eq!(mgr.get_connection().versions(), ["m1_create_cake"]);
    migrator.up(&mut mgr, Some(2)).unwrap();
    let stepwise = mgr.into_connection().versions();
    let (mut migrator2, mut mgr2) = sqlite_setup();
    migrator2.up(&mut mgr2, Some(3)).unwrap();
    assert_eq!(stepwise, mgr2.into_connection().versions());
}

#[test]
fn refresh_and_reset() {
    let (mut migrator, mut mgr) = sqlite_setup();
    migrator.up(&mut mgr, None).unwrap();
    migrator.refresh(&mut mgr).unwrap();
    assert_eq!(mgr.get_connection().versions().len(), 3);
    migrator.reset(&mut mgr).unwrap();
    let db = mgr.into_connection();
    assert_eq!(db.history, Some(Vec::new()));
}

#[test]
fn empty_declared_list_succeeds_everywhere() {
    let mut migrator: Migrator<DemoUnit> = Migrator::new(Vec::new());
    let mut mgr = SchemaManager::new(MockDb::new(MigrationDbBackend::Sqlite));
    migrator.up(&mut mgr, None).unwrap();
    migrator.down(&mut mgr, None).unwrap();
    migrator.refresh(&mut mgr).unwrap();
    migrator.reset(&mut mgr).unwrap();
    migrator.fresh(&mut mgr).unwrap();
    assert!(migrator.events.contains(&MigrationLogEvent::NoPendingMigrations));
    assert!(migrator.events.contains(&MigrationLogEvent::NoAppliedMigrations));
    let db = mgr.into_connection();
    assert_eq!(db.history, Some(Vec::new()));
}

#[test]
fn status_is_read_only() {
    let (mut migrator, mut mgr) = sqlite_setup();
    migrator.up(&mut mgr, Some(2)).unwrap();
    let before = {
        let db = mgr.get_connection();
        (db.versions(), db.tables.clone(), db.columns.clone())
    };
    migrator.status(&mut mgr).unwrap();
    migrator.status(&mut mgr).unwrap();
    let db = mgr.into_connection();
    assert_eq!((db.versions(), db.tables.clone(), db.columns.clone()), before);
}

#[test]
fn duplicate_declared_names_are_detectable() {
    let migrator = Migrator::new(vec![DemoUnit::CreateCake, DemoUnit::CreateCake]);
    assert!(migrator.has_duplicate_names());
    let ok = Migrator::new(demo_units());
    assert!(!ok.has_duplicate_names());
    let mut dup = Migrator::new(vec![DemoUnit::SeedCake, DemoUnit::SeedCake]);
    let mut mgr = SchemaManager::new(MockDb::new(MigrationDbBackend::Sqlite));
    assert!(dup.up(&mut mgr, None).is_err());
}

#[test]
fn reconcile_pairs_units_with_statuses_by_index() {
    let (mut migrator, mut mgr) = sqlite_setup();
    migrator.up(&mut mgr, Some(1)).unwrap();
    let all = migrator.get_migration_with_status(&mut mgr).unwrap();
    assert_eq!(all.len(), 3);
    assert_eq!(all[0], sea_migration::Migration { index: 0, status: MigrationStatus::Applied });
    assert_eq!(all[1], sea_migration::Migration { index: 1, status: MigrationStatus::Pending });
    assert_eq!(all[2], sea_migration::Migration { index: 2, status: MigrationStatus::Pending });
    let pending = migrator.get_pending_migrations(&mut mgr).unwrap();
    assert_eq!(pending.iter().map(|m| m.index).collect::<Vec<_>>(), [1, 2]);
    let applied = migrator.get_applied_migrations(&mut mgr).unwrap();
    assert_eq!(applied.iter().map(|m| m.index).collect::<Vec<_>>(), [0]);
    let files = migrator.get_migration_files();
    assert_eq!(files.len(), 3);
    assert!(files.iter().all(|m| m.status == MigrationStatus::Pending));
    let models = migrator.get_migration_models(&mut mgr).unwrap();
    assert_eq!(models.len(), 1);
    assert_eq!(models[0].version, "m1_create_cake");
    assert_eq!(
        MockDb::into_migration_error("lifted".to_string()),
        MigrationError::Message("lifted".to_string())
    );
}

#[test]
fn has_column_over_information_schema() {
    let mut db = MockDb::new(MigrationDbBackend::Postgres);
    db.register_table("cake", &["id", "name"]);
    let mut mgr = SchemaManager::new(db);
    assert!(mgr.has_column("cake", "name").unwrap());
    assert!(!mgr.has_column("cake", "flavour").unwrap());
    assert!(mgr.has_table("cake").unwrap());
    assert!(!mgr.has_table("fruit").unwrap());
}

#[test]
fn history_row_round_trip() {
    let model = Model { version: "m1_create_cake".to_string(), applied_at: 42 };
    let row = MockRow {
        i64s: vec![("applied_at".to_string(), model.applied_at)],
        strs: vec![("version".to_string(), model.version.clone())],
    };
    let parsed = Model::try_from_query_result(row).unwrap();
    assert_eq!(parsed, model);
}

#[test]
fn history_row_missing_column_fails() {
    let row = MockRow { i64s: Vec::new(), strs: vec![("version".to_string(), "m".to_string())] };
    let err = Model::try_from_query_result(row).unwrap_err();
    assert_eq!(err, MigrationError::ColumnAccess("applied_at".to_string()));
}

#[test]
fn unit_failure_stops_the_run() {
    let mut migrator = Migrator::new(vec![Two::First, Two::Second]);
    let mut mgr = SchemaManager::new(MockDb::new(MigrationDbBackend::Sqlite));
    let err = migrator.up(&mut mgr, None).unwrap_err();
    assert_eq!(err, MigrationError::Message("boom".to_string()));
    let db = mgr.into_connection();
    assert_eq!(db.versions(), ["m1_first"]);
}
