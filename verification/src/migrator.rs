use vstd::prelude::*;

use crate::connection::{MigrationConnection, MigrationDbBackend, MigrationQueryResult};
use crate::error::MigrationError;
use crate::manager::SchemaManager;
use crate::plan::{
    down_remaining, install_effect, is_name_prefix, limited, model_views, name_views,
    post_install, unique_names, up_versions, versions_of,
};
use crate::seaql_migrations::{Model, ModelV};
use crate::statement::Statement;

verus! {

/// Status of migration
#[derive(Debug, Copy, Clone, PartialEq, Eq, Structural)]
pub enum MigrationStatus {
    /// Not yet applied
    Pending,
    /// Applied
    Applied,
}

impl MigrationStatus {
    /// The status as text.
    pub fn as_str(&self) -> (r: &'static str)
        ensures
            self is Pending ==> r@ == "Pending"@,
            self is Applied ==> r@ == "Applied"@,
    {
        match self {
            MigrationStatus::Pending => "Pending",
            MigrationStatus::Applied => "Applied",
        }
    }
}

/// One declared unit paired with its reconciled status; `index` is the
/// unit's position in the declared list.
#[derive(Debug, Copy, Clone, PartialEq, Eq, Structural)]
pub struct Migration {
    pub index: usize,
    pub status: MigrationStatus,
}

/// A migration unit's stable version identifier.
pub trait MigrationName {
    /// The name as the contracts see it.
    spec fn name_spec(&self) -> Seq<char>;

    fn name(&self) -> (r: String)
        ensures
            r@ == self.name_spec(),
    ;
}

/// The migration definition: a reversible schema change. A unit's body may
/// change the user schema at will, but must leave the bookkeeping table to
/// the engine; that is what the contracts oblige implementers to.
pub trait MigrationTrait<C: MigrationConnection>: MigrationName {
    /// Define actions to perform when applying the migration
    fn up(&self, manager: &mut SchemaManager<C>) -> (r: Result<(), MigrationError>)
        ensures
            final(manager).backend_spec() == old(manager).backend_spec(),
            final(manager).history_spec() == old(manager).history_spec(),
    ;

    /// Define actions to perform when rolling back the migration
    fn down(&self, manager: &mut SchemaManager<C>) -> (r: Result<(), MigrationError>)
        ensures
            final(manager).backend_spec() == old(manager).backend_spec(),
            final(manager).history_spec() == old(manager).history_spec(),
    ;
}

/// The engine's informational log, as structured events in the order they
/// were emitted.
#[derive(Debug, Clone, PartialEq)]
pub enum MigrationLogEvent {
    ApplyingMigrationCount { steps: Option<u32> },
    NoPendingMigrations,
    ApplyingMigration { name: String },
    MigrationApplied { name: String },
    RollingBackCount { steps: Option<u32> },
    NoAppliedMigrations,
    RollingBackMigration { name: String },
    MigrationRolledBack { name: String },
    CheckingStatus,
    StatusLine { name: String, status: MigrationStatus },
    DisablingForeignKeyCheck,
    ForeignKeyCheckDisabled,
    RestoringForeignKeyCheck,
    ForeignKeyCheckRestored,
    DroppingAllForeignKeys,
    DroppingForeignKey { table: String, constraint: String },
    ForeignKeyDropped { constraint: String },
    AllForeignKeysDropped,
    DroppingTable { table: String },
    TableDropped { table: String },
}


/// The order of a destructive rebuild's phases, as the log shows them:
/// disabling SQLite's referential-integrity check, dropping MySQL's
/// foreign keys, dropping the tables, restoring the check, and reapplying
/// the declared units.
pub open spec fn fresh_phase(e: MigrationLogEvent) -> int {
    match e {
        MigrationLogEvent::DisablingForeignKeyCheck => 0,
        MigrationLogEvent::ForeignKeyCheckDisabled => 0,
        MigrationLogEvent::DroppingAllForeignKeys => 1,
        MigrationLogEvent::DroppingForeignKey { .. } => 1,
        MigrationLogEvent::ForeignKeyDropped { .. } => 1,
        MigrationLogEvent::AllForeignKeysDropped => 1,
        MigrationLogEvent::DroppingTable { .. } => 2,
        MigrationLogEvent::TableDropped { .. } => 2,
        MigrationLogEvent::RestoringForeignKeyCheck => 3,
        MigrationLogEvent::ForeignKeyCheckRestored => 3,
        _ => 4,
    }
}

/// Two pushed events of the running phase keep a constant-phase suffix
/// constant, and keep a prefix of the sequence as it was.
proof fn lemma_const_phase_push2(
    events: Seq<MigrationLogEvent>,
    from: int,
    n: int,
    p: int,
    a: MigrationLogEvent,
    b: MigrationLogEvent,
)
    requires
        0 <= n <= from <= events.len(),
        forall|i: int| from <= i < events.len() ==> fresh_phase(#[trigger] events[i]) == p,
        fresh_phase(a) == p,
        fresh_phase(b) == p,
    ensures
        forall|i: int|
            from <= i < events.push(a).push(b).len() ==> fresh_phase(
                #[trigger] events.push(a).push(b)[i],
            ) == p,
        events.push(a).push(b).take(n) =~= events.take(n),
        forall|i: int| 0 <= i < events.len() ==> #[trigger] events.push(a).push(b)[i] == events[i],
{
    let out = events.push(a).push(b);
    assert forall|i: int| from <= i < out.len() implies fresh_phase(#[trigger] out[i]) == p by {
        if i < events.len() {
            assert(out[i] == events[i]);
        } else {
            assert(out[i] == a || out[i] == b);
        }
    }
    assert forall|i: int| 0 <= i < events.len() implies #[trigger] out[i] == events[i] by {}
}

/// Pairs the declared names with the recorded history rows by position: for
/// each history row there must be a declared name at the same index, and
/// the two must agree; otherwise the mismatch is reported as drift. Units
/// beyond the history are pending, matched ones applied.
pub fn reconcile_statuses(names: &Vec<String>, models: &Vec<Model>) -> (r: Result<
    Vec<MigrationStatus>,
    MigrationError,
>)
    ensures
        r is Ok <==> is_name_prefix(model_views(models@), name_views(names@)),
        r is Ok ==> r->Ok_0@.len() == names@.len() && (forall|i: int|
            0 <= i < names@.len() ==> r->Ok_0@[i] == (if i < models@.len() {
                MigrationStatus::Applied
            } else {
                MigrationStatus::Pending
            })),
        r matches Err(e) ==> e matches MigrationError::Drift { applied_version, file_name }
            && exists|k: int|
            0 <= k < models@.len() && (forall|j: int|
                0 <= j < k ==> name_views(names@)[j] == (#[trigger] model_views(models@)[j]).version)
                && applied_version@ == model_views(models@)[k].version && (match file_name {
                Option::None => k >= names@.len(),
                Option::Some(f) => k < names@.len() && f@ == name_views(names@)[k] && f@
                    != model_views(models@)[k].version,
            }),
{
    let mut i: usize = 0;
    while i < models.len()
        invariant
            i <= models@.len(),
            i <= names@.len(),
            forall|j: int|
                0 <= j < i ==> (#[trigger] model_views(models@)[j]).version == name_views(
                    names@,
                )[j],
        decreases models@.len() - i,
    {
        if i >= names.len() {
            let e = MigrationError::Drift {
                applied_version: models[i].version.clone(),
                file_name: None,
            };
            proof {
                let k = i as int;
                assert(model_views(models@)[k].version == models@[k]@.version);
            }
            return Err(e);
        }
        if names[i] != models[i].version {
            let e = MigrationError::Drift {
                applied_version: models[i].version.clone(),
                file_name: Some(names[i].clone()),
            };
            proof {
                let k = i as int;
                assert(model_views(models@)[k].version == models@[k]@.version);
                assert(name_views(names@)[k] == names@[k]@);
            }
            return Err(e);
        }
        i += 1;
    }
    let mut out: Vec<MigrationStatus> = Vec::new();
    let mut j: usize = 0;
    while j < names.len()
        invariant
            out@.len() == j,
            j <= names@.len(),
            models@.len() <= names@.len(),
            forall|p: int|
                0 <= p < j ==> out@[p] == (if p < models@.len() {
                    MigrationStatus::Applied
                } else {
                    MigrationStatus::Pending
                }),
        decreases names@.len() - j,
    {
        if j < models.len() {
            out.push(MigrationStatus::Applied);
        } else {
            out.push(MigrationStatus::Pending);
        }
        j += 1;
    }
    Ok(out)
}

/// Performing migrations on a database: holds the declared units, in the
/// order the host application fixed, and the events the operations logged.
pub struct Migrator<M> {
    pub units: Vec<M>,
    pub events: Vec<MigrationLogEvent>,
}

impl<M: MigrationName> Migrator<M> {
    /// The declared names, in order.
    pub open spec fn names(&self) -> Seq<Seq<char>> {
        self.units@.map_values(|m: M| m.name_spec())
    }

    pub fn new(units: Vec<M>) -> (s: Self)
        ensures
            s.units@ == units@,
            s.events@.len() == 0,
    {
        Migrator { units, events: Vec::new() }
    }

    /// Whether two declared units share a name. The declared list must not
    /// hold duplicates; this check makes a violation detectable at ingest
    /// time.
    pub fn has_duplicate_names(&self) -> (r: bool)
        ensures
            r <==> !unique_names(self.names()),
    {
        let n = self.units.len();
        let mut dup = false;
        let mut i: usize = 0;
        while i < n
            invariant
                n == self.units@.len(),
                i <= n,
                dup <==> exists|a: int, b: int|
                    0 <= a < b < n && a < i && #[trigger] self.names()[a] == #[trigger] self.names()[b],
            decreases n - i,
        {
            let name_i = self.units[i].name();
            let mut j: usize = i + 1;
            while j < n
                invariant
                    n == self.units@.len(),
                    i < n,
                    i < j <= n,
                    name_i@ == self.names()[i as int],
                    dup <==> (exists|a: int, b: int|
                        0 <= a < b < n && a < i && #[trigger] self.names()[a]
                            == #[trigger] self.names()[b]) || (exists|b: int|
                        i < b < j && self.names()[i as int] == #[trigger] self.names()[b]),
                decreases n - j,
            {
                let name_j = self.units[j].name();
                proof {
                    assert(name_j@ == self.names()[j as int]);
                }
                if name_i == name_j {
                    dup = true;
                }
                j += 1;
            }
            i += 1;
        }
        dup
    }

    /// Create migration table `seaql_migrations` in the database,
    /// idempotently: present history is untouched.
    pub fn install<C: MigrationConnection>(&self, manager: &mut SchemaManager<C>) -> (r: Result<
        (),
        MigrationError,
    >)
        ensures
            final(manager).backend_spec() == old(manager).backend_spec(),
            r is Ok ==> install_effect(
                old(manager).history_spec(),
                old(manager).tables_spec(),
                final(manager).history_spec(),
                final(manager).tables_spec(),
            ) && final(manager).history_spec() is Some,
            r is Ok && old(manager).history_spec() is Some ==> (forall|t: Seq<char>|
                final(manager).columns_spec(t) == old(manager).columns_spec(t)),
            r is Err ==> final(manager).history_spec() == old(manager).history_spec() && final(manager).tables_spec() == old(manager).tables_spec() && (forall|t: Seq<char>|
                final(manager).columns_spec(t) == old(manager).columns_spec(t)),
    {
        manager.exec_stmt(&Statement::CreateHistoryTable)
    }

    /// Get list of applied migrations from database: installs the
    /// bookkeeping table, then reads its rows back, in recorded order.
    pub fn get_migration_models<C: MigrationConnection>(
        &self,
        manager: &mut SchemaManager<C>,
    ) -> (r: Result<Vec<Model>, MigrationError>)
        ensures
            final(manager).backend_spec() == old(manager).backend_spec(),
            r is Ok ==> install_effect(
                old(manager).history_spec(),
                old(manager).tables_spec(),
                final(manager).history_spec(),
                final(manager).tables_spec(),
            ) && final(manager).history_spec() is Some && model_views(r->Ok_0@) == final(manager).history_spec().unwrap(),
            r is Ok && old(manager).history_spec() is Some ==> (forall|t: Seq<char>|
                final(manager).columns_spec(t) == old(manager).columns_spec(t)),
            r is Err ==> (final(manager).history_spec() == old(manager).history_spec() && final(manager).tables_spec() == old(manager).tables_spec()) || install_effect(
                old(manager).history_spec(),
                old(manager).tables_spec(),
                final(manager).history_spec(),
                final(manager).tables_spec(),
            ),
            r is Err && old(manager).history_spec() is Some ==> (forall|t: Seq<char>|
                final(manager).columns_spec(t) == old(manager).columns_spec(t)),
    {
        self.install(manager)?;
        let rows = manager.query_all(&Statement::SelectHistory)?;
        let ghost h: Seq<ModelV> = manager.history_spec().unwrap();
        let mut models: Vec<Model> = Vec::new();
        let mut i: usize = 0;
        while i < rows.len()
            invariant
                i <= rows@.len(),
                rows@.len() == h.len(),
                forall|p: int|
                    0 <= p < h.len() ==> (#[trigger] rows@[p]).string_col("version"@) == Some(
                        h[p].version,
                    ) && rows@[p].i64_col("applied_at"@) is Some && rows@[p].i64_col(
                        "applied_at"@,
                    ).unwrap() as int == h[p].applied_at,
                models@.len() == i,
                model_views(models@) == h.take(i as int),
            decreases rows@.len() - i,
        {
            let m = Model::try_from_query_result(&rows[i])?;
            proof {
                assert(m@ == h[i as int]);
                assert(model_views(models@.push(m)) =~= h.take(i as int + 1));
            }
            models.push(m);
            i += 1;
        }
        proof {
            assert(h.take(h.len() as int) =~= h);
        }
        Ok(models)
    }

    /// Get list of migrations wrapped in `Migration` struct, all pending.
    pub fn get_migration_files(&self) -> (r: Vec<Migration>)
        ensures
            r@.len() == self.units@.len(),
            forall|i: int|
                0 <= i < r@.len() ==> r@[i] == (Migration {
                    index: i as usize,
                    status: MigrationStatus::Pending,
                }),
    {
        let mut out: Vec<Migration> = Vec::new();
        let mut i: usize = 0;
        while i < self.units.len()
            invariant
                i <= self.units@.len(),
                out@.len() == i,
                forall|p: int|
                    0 <= p < i ==> out@[p] == (Migration {
                        index: p as usize,
                        status: MigrationStatus::Pending,
                    }),
            decreases self.units@.len() - i,
        {
            out.push(Migration { index: i, status: MigrationStatus::Pending });
            i += 1;
        }
        out
    }

    /// Get list of migrations with status: reconciles the declared list
    /// with the recorded history and reports any mismatch as drift.
    pub fn get_migration_with_status<C: MigrationConnection>(
        &self,
        manager: &mut SchemaManager<C>,
    ) -> (r: Result<Vec<Migration>, MigrationError>)
        ensures
            final(manager).backend_spec() == old(manager).backend_spec(),
            r is Ok ==> install_effect(
                old(manager).history_spec(),
                old(manager).tables_spec(),
                final(manager).history_spec(),
                final(manager).tables_spec(),
            ) && final(manager).history_spec() is Some && {
                let h = final(manager).history_spec().unwrap();
                &&& is_name_prefix(h, self.names())
                &&& r->Ok_0@.len() == self.units@.len()
                &&& (forall|i: int|
                    0 <= i < self.units@.len() ==> r->Ok_0@[i] == (Migration {
                        index: i as usize,
                        status: if i < h.len() {
                            MigrationStatus::Applied
                        } else {
                            MigrationStatus::Pending
                        },
                    }))
            },
            r is Ok && old(manager).history_spec() is Some ==> (forall|t: Seq<char>|
                final(manager).columns_spec(t) == old(manager).columns_spec(t)),
            r is Err ==> (final(manager).history_spec() == old(manager).history_spec() && final(manager).tables_spec() == old(manager).tables_spec()) || install_effect(
                old(manager).history_spec(),
                old(manager).tables_spec(),
                final(manager).history_spec(),
                final(manager).tables_spec(),
            ),
            r is Err && old(manager).history_spec() is Some ==> (forall|t: Seq<char>|
                final(manager).columns_spec(t) == old(manager).columns_spec(t)),
    {
        let models = self.get_migration_models(manager)?;
        let mut names: Vec<String> = Vec::new();
        let mut i: usize = 0;
        while i < self.units.len()
            invariant
                i <= self.units@.len(),
                names@.len() == i,
                forall|p: int| 0 <= p < i ==> (#[trigger] names@[p])@ == self.names()[p],
            decreases self.units@.len() - i,
        {
            let n = self.units[i].name();
            proof {
                assert(n@ == self.names()[i as int]);
            }
            names.push(n);
            i += 1;
        }
        let statuses = match reconcile_statuses(&names, &models) {
            Ok(s) => s,
            Err(e) => {
                return Err(e);
            },
        };
        proof {
            assert(name_views(names@) =~= self.names());
            assert(is_name_prefix(model_views(models@), self.names()));
        }
        let mut out: Vec<Migration> = Vec::new();
        let mut j: usize = 0;
        while j < statuses.len()
            invariant
                j <= statuses@.len(),
                statuses@.len() == self.units@.len(),
                out@.len() == j,
                forall|i2: int|
                    0 <= i2 < statuses@.len() ==> statuses@[i2] == (if i2 < models@.len() {
                        MigrationStatus::Applied
                    } else {
                        MigrationStatus::Pending
                    }),
                forall|p: int|
                    0 <= p < j ==> out@[p] == (Migration { index: p as usize, status: statuses@[p] }),
            decreases statuses@.len() - j,
        {
            let s = statuses[j];
            out.push(Migration { index: j, status: s });
            j += 1;
        }
        Ok(out)
    }

    /// Get list of pending migrations, in declared order.
    pub fn get_pending_migrations<C: MigrationConnection>(
        &self,
        manager: &mut SchemaManager<C>,
    ) -> (r: Result<Vec<Migration>, MigrationError>)
        ensures
            final(manager).backend_spec() == old(manager).backend_spec(),
            r is Ok ==> install_effect(
                old(manager).history_spec(),
                old(manager).tables_spec(),
                final(manager).history_spec(),
                final(manager).tables_spec(),
            ) && final(manager).history_spec() is Some && {
                let h = final(manager).history_spec().unwrap();
                &&& is_name_prefix(h, self.names())
                &&& r->Ok_0@.len() == self.units@.len() - h.len()
                &&& (forall|j: int|
                    0 <= j < r->Ok_0@.len() ==> r->Ok_0@[j] == (Migration {
                        index: (h.len() + j) as usize,
                        status: MigrationStatus::Pending,
                    }))
            },
            r is Ok && old(manager).history_spec() is Some ==> (forall|t: Seq<char>|
                final(manager).columns_spec(t) == old(manager).columns_spec(t)),
            r is Err ==> (final(manager).history_spec() == old(manager).history_spec() && final(manager).tables_spec() == old(manager).tables_spec()) || install_effect(
                old(manager).history_spec(),
                old(manager).tables_spec(),
                final(manager).history_spec(),
                final(manager).tables_spec(),
            ),
    {
        let all = self.get_migration_with_status(manager)?;
        let mut out: Vec<Migration> = Vec::new();
        let ghost h = manager.history_spec().unwrap();
        let mut i: usize = 0;
        while i < all.len()
            invariant
                i <= all@.len(),
                all@.len() == self.units@.len(),
                h.len() <= self.units@.len(),
                forall|p: int|
                    0 <= p < all@.len() ==> all@[p] == (Migration {
                        index: p as usize,
                        status: if p < h.len() {
                            MigrationStatus::Applied
                        } else {
                            MigrationStatus::Pending
                        },
                    }),
                out@.len() == (if i <= h.len() {
                    0int
                } else {
                    i - h.len()
                }),
                forall|j: int|
                    0 <= j < out@.len() ==> out@[j] == (Migration {
                        index: (h.len() + j) as usize,
                        status: MigrationStatus::Pending,
                    }),
            decreases all@.len() - i,
        {
            let mig = all[i];
            if matches!(mig.status, MigrationStatus::Pending) {
                out.push(mig);
            }
            i += 1;
        }
        Ok(out)
    }

    /// Get list of applied migrations, in declared order.
    pub fn get_applied_migrations<C: MigrationConnection>(
        &self,
        manager: &mut SchemaManager<C>,
    ) -> (r: Result<Vec<Migration>, MigrationError>)
        ensures
            final(manager).backend_spec() == old(manager).backend_spec(),
            r is Ok ==> install_effect(
                old(manager).history_spec(),
                old(manager).tables_spec(),
                final(manager).history_spec(),
                final(manager).tables_spec(),
            ) && final(manager).history_spec() is Some && {
                let h = final(manager).history_spec().unwrap();
                &&& is_name_prefix(h, self.names())
                &&& r->Ok_0@.len() == h.len()
                &&& (forall|j: int|
                    0 <= j < r->Ok_0@.len() ==> r->Ok_0@[j] == (Migration {
                        index: j as usize,
                        status: MigrationStatus::Applied,
                    }))
            },
            r is Ok && old(manager).history_spec() is Some ==> (forall|t: Seq<char>|
                final(manager).columns_spec(t) == old(manager).columns_spec(t)),
            r is Err ==> (final(manager).history_spec() == old(manager).history_spec() && final(manager).tables_spec() == old(manager).tables_spec()) || install_effect(
                old(manager).history_spec(),
                old(manager).tables_spec(),
                final(manager).history_spec(),
                final(manager).tables_spec(),
            ),
    {
        let all = self.get_migration_with_status(manager)?;
        let mut out: Vec<Migration> = Vec::new();
        let ghost h = manager.history_spec().unwrap();
        let mut i: usize = 0;
        while i < all.len()
            invariant
                i <= all@.len(),
                all@.len() == self.units@.len(),
                h.len() <= self.units@.len(),
                forall|p: int|
                    0 <= p < all@.len() ==> all@[p] == (Migration {
                        index: p as usize,
                        status: if p < h.len() {
                            MigrationStatus::Applied
                        } else {
                            MigrationStatus::Pending
                        },
                    }),
                out@.len() == (if i <= h.len() {
                    i as int
                } else {
                    h.len() as int
                }),
                forall|j: int|
                    0 <= j < out@.len() ==> out@[j] == (Migration {
                        index: j as usize,
                        status: MigrationStatus::Applied,
                    }),
            decreases all@.len() - i,
        {
            let mig = all[i];
            if matches!(mig.status, MigrationStatus::Applied) {
                out.push(mig);
            }
            i += 1;
        }
        Ok(out)
    }

    /// Apply pending migrations: install, reconcile, then run each pending
    /// unit's forward routine in declared order, recording each success in
    /// the history before moving on. `steps` caps how many units run;
    /// `None` applies all; a failure stops the run with the units already
    /// applied still recorded.
    pub fn up<C: MigrationConnection>(
        &mut self,
        manager: &mut SchemaManager<C>,
        steps: Option<u32>,
    ) -> (r: Result<(), MigrationError>) where M: MigrationTrait<C>
        ensures
            final(self).units@ == old(self).units@,
            final(manager).backend_spec() == old(manager).backend_spec(),
            old(self).events@.len() <= final(self).events@.len(),
            forall|i: int|
                0 <= i < old(self).events@.len() ==> final(self).events@[i] == old(self).events@[i],
            r is Ok ==> final(manager).history_spec() is Some && {
                let h0 = post_install(old(manager).history_spec());
                let h1 = final(manager).history_spec().unwrap();
                &&& is_name_prefix(h0, old(self).names())
                &&& versions_of(h1) == up_versions(old(self).names(), h0.len() as int, steps)
                &&& h1.take(h0.len() as int) == h0
                &&& (forall|i: int| h0.len() <= i < h1.len() ==> (#[trigger] h1[i]).applied_at > 0)
            },
            r is Ok && limited(
                old(self).names().len() - post_install(old(manager).history_spec()).len(),
                steps,
            ) == 0 ==> final(manager).tables_spec() == old(manager).tables_spec().insert(
                "seaql_migrations"@,
            ) && (old(manager).history_spec() is Some ==> (forall|t: Seq<char>|
                final(manager).columns_spec(t) == old(manager).columns_spec(t))),
            r is Ok ==> {
                let e0 = old(self).events@;
                let e1 = final(self).events@;
                let h0 = post_install(old(manager).history_spec());
                let names = old(self).names();
                let applied_n = limited(names.len() - h0.len(), steps);
                let base = e0.len() + 1 + (if names.len() == h0.len() {
                    1int
                } else {
                    0int
                });
                &&& e1.take(e0.len() as int) == e0
                &&& e1[e0.len() as int] == (MigrationLogEvent::ApplyingMigrationCount { steps })
                &&& (names.len() == h0.len() ==> e1[e0.len() as int + 1]
                    == MigrationLogEvent::NoPendingMigrations)
                &&& e1.len() == base + 2 * applied_n
                &&& (forall|p: int|
                    0 <= p < applied_n ==> ((#[trigger] e1[base + 2 * p]) matches
                        MigrationLogEvent::ApplyingMigration { name } && name@ == names[h0.len()
                        + p]))
                &&& (forall|p: int|
                    0 <= p < applied_n ==> ((#[trigger] e1[base + 2 * p + 1]) matches
                        MigrationLogEvent::MigrationApplied { name } && name@ == names[h0.len()
                        + p]))
                &&& (forall|i: int|
                    base <= i < e1.len() ==> ((#[trigger] e1[i]) is ApplyingMigration || e1[i] is MigrationApplied))
            },
            r is Err ==> final(manager).history_spec() == old(manager).history_spec() || (final(manager).history_spec() is Some && {
                let h0 = post_install(old(manager).history_spec());
                let h1 = final(manager).history_spec().unwrap();
                exists|k: int|
                    0 <= k <= limited(old(self).names().len() - h0.len(), steps) && h0.len() + k
                        <= old(self).names().len() && versions_of(h1) == (#[trigger] old(self).names().take(h0.len() + k)) && h1.take(h0.len() as int) == h0
            }),
    {
        self.install(manager)?;
        self.events.push(MigrationLogEvent::ApplyingMigrationCount { steps });
        let pending = match self.get_pending_migrations(manager) {
            Ok(p) => p,
            Err(e) => {
                proof {
                    if !(manager.history_spec() == old(manager).history_spec()) {
                        let h0 = post_install(old(manager).history_spec());
                        assert(old(manager).history_spec() is None);
                        assert(h0 =~= Seq::<ModelV>::empty());
                        let h1 = manager.history_spec().unwrap();
                        assert(h1 =~= h0);
                        assert(versions_of(h1) =~= old(self).names().take(h0.len() as int + 0));
                        assert(h1.take(h0.len() as int) =~= h0);
                    }
                }
                return Err(e);
            },
        };
        if pending.len() == 0 {
            self.events.push(MigrationLogEvent::NoPendingMigrations);
        }
        let count: usize = match steps {
            None => pending.len(),
            Some(k) => {
                let k = k as usize;
                if k < pending.len() {
                    k
                } else {
                    pending.len()
                }
            },
        };
        let n_units = self.units.len();
        let ghost e_base: Seq<MigrationLogEvent> = self.events@;
        let ghost h0: Seq<ModelV> = manager.history_spec().unwrap();
        let ghost names0: Seq<Seq<char>> = self.names();
        proof {
            assert(names0.len() == n_units as int);
            assert(h0 == post_install(old(manager).history_spec()));
            assert(count as int == limited(names0.len() - h0.len(), steps));
            assert(versions_of(h0) =~= names0.take(h0.len() as int));
            assert(h0.take(h0.len() as int) =~= h0);
        }
        let mut j: usize = 0;
        while j < count
            invariant
                self.units@ == old(self).units@,
                names0 == self.names(),
                manager.backend_spec() == old(manager).backend_spec(),
                h0 == post_install(old(manager).history_spec()),
                is_name_prefix(h0, names0),
                pending@.len() == names0.len() - h0.len(),
                forall|p: int|
                    0 <= p < pending@.len() ==> (#[trigger] pending@[p]) == (Migration {
                        index: (h0.len() + p) as usize,
                        status: MigrationStatus::Pending,
                    }),
                j <= count <= pending@.len(),
                count as int == limited(names0.len() - h0.len(), steps),
                names0.len() == n_units as int,
                manager.history_spec() is Some,
                ({
                    let h1 = manager.history_spec().unwrap();
                    &&& h1.len() == h0.len() + j
                    &&& versions_of(h1) == names0.take(h0.len() + j as int)
                    &&& h1.take(h0.len() as int) == h0
                    &&& (forall|i: int|
                        h0.len() <= i < h1.len() ==> (#[trigger] h1[i]).applied_at > 0)
                }),
                self.events@.len() == e_base.len() + 2 * j,
                self.events@.take(e_base.len() as int) == e_base,
                old(self).events@.len() < e_base.len(),
                forall|i2: int|
                    0 <= i2 < old(self).events@.len() ==> #[trigger] e_base[i2] == old(
                        self,
                    ).events@[i2],
                j == 0 ==> manager.tables_spec() == old(manager).tables_spec().insert(
                    "seaql_migrations"@,
                ),
                j == 0 && old(manager).history_spec() is Some ==> (forall|t: Seq<char>|
                    manager.columns_spec(t) == old(manager).columns_spec(t)),
                forall|p: int|
                    0 <= p < j ==> ((#[trigger] self.events@[e_base.len() + 2 * p]) matches
                        MigrationLogEvent::ApplyingMigration { name } && name@ == names0[h0.len()
                        + p]),
                forall|p: int|
                    0 <= p < j ==> ((#[trigger] self.events@[e_base.len() + 2 * p + 1]) matches
                        MigrationLogEvent::MigrationApplied { name } && name@ == names0[h0.len()
                        + p]),
            decreases count - j,
        {
            let ghost h1: Seq<ModelV> = manager.history_spec().unwrap();
            let idx = pending[j].index;
            proof {
                assert(pending@[j as int] == (Migration {
                    index: (h0.len() + j as int) as usize,
                    status: MigrationStatus::Pending,
                }));
                assert(h0.len() + j < names0.len());
                assert(idx as int == h0.len() + j as int);
            }
            let name = self.units[idx].name();
            proof {
                assert(name@ == names0[idx as int]);
            }
            self.events.push(MigrationLogEvent::ApplyingMigration { name: name.clone() });
            match self.units[idx].up(manager) {
                Ok(u) => u,
                Err(e) => {
                    proof {
                        assert(versions_of(manager.history_spec().unwrap()) == old(
                            self,
                        ).names().take(h0.len() + j as int));
                        assert(self.events@.take(e_base.len() as int) =~= e_base);
                        assert forall|i2: int|
                            0 <= i2 < old(self).events@.len() implies self.events@[i2] == old(
                            self,
                        ).events@[i2] by {
                            assert(self.events@.take(e_base.len() as int)[i2] == e_base[i2]);
                            assert(self.events@[i2] == e_base[i2]);
                            assert(e_base[i2] == old(self).events@[i2]);
                        }
                    }
                    return Err(e);
                },
            };
            self.events.push(MigrationLogEvent::MigrationApplied { name: name.clone() });
            let t = manager.current_timestamp();
            let ghost nm: Seq<char> = name@;
            match manager.exec_stmt(&Statement::InsertHistory { version: name, applied_at: t }) {
                Ok(u) => u,
                Err(e) => {
                    proof {
                        assert(versions_of(manager.history_spec().unwrap()) == old(
                            self,
                        ).names().take(h0.len() + j as int));
                        assert(self.events@.take(e_base.len() as int) =~= e_base);
                        assert forall|i2: int|
                            0 <= i2 < old(self).events@.len() implies self.events@[i2] == old(
                            self,
                        ).events@[i2] by {
                            assert(self.events@.take(e_base.len() as int)[i2] == e_base[i2]);
                            assert(self.events@[i2] == e_base[i2]);
                            assert(e_base[i2] == old(self).events@[i2]);
                        }
                    }
                    return Err(e);
                },
            };
            proof {
                let h2 = manager.history_spec().unwrap();
                assert(h2 == h1.push(ModelV { version: nm, applied_at: t as int }));
                assert(nm == names0[h0.len() + j as int]);
                assert forall|i: int| 0 <= i < h2.len() implies #[trigger] versions_of(h2)[i]
                    == names0.take(h0.len() + j + 1)[i] by {
                    if i < h1.len() {
                        assert(versions_of(h1)[i] == names0.take(h0.len() + j as int)[i]);
                        assert(h2[i] == h1[i]);
                    } else {
                        assert(h2[i] == (ModelV { version: nm, applied_at: t as int }));
                    }
                }
                assert(versions_of(h2) =~= names0.take(h0.len() + j + 1));
                assert forall|i: int| 0 <= i < h0.len() implies #[trigger] h2.take(
                    h0.len() as int,
                )[i] == h0[i] by {
                    assert(h2[i] == h1[i]);
                    assert(h1.take(h0.len() as int)[i] == h0[i]);
                }
                assert(h2.take(h0.len() as int) =~= h0);
                assert(self.events@.take(e_base.len() as int) =~= e_base);
            }
            j += 1;
        }
        proof {
            let h1 = manager.history_spec().unwrap();
            assert(versions_of(h1) == up_versions(names0, h0.len() as int, steps));
            let e0 = old(self).events@;
            assert(self.events@.take(e_base.len() as int) =~= e_base);
            assert(self.events@.take(e0.len() as int) =~= e0);
            assert(self.events@[e0.len() as int] == e_base[e0.len() as int]);
            if names0.len() == h0.len() {
                assert(self.events@[e0.len() as int + 1] == e_base[e0.len() as int + 1]);
            }
            let eb = e_base.len() as int;
            assert forall|i: int| eb <= i < self.events@.len() implies ((
            #[trigger] self.events@[i]) is ApplyingMigration || self.events@[i] is MigrationApplied) by {
                let k = i - eb;
                let q = k / 2;
                assert(k == 2 * q || k == 2 * q + 1);
                assert(0 <= q < count as int);
                if k == 2 * q {
                    assert(self.events@[e_base.len() + 2 * q] matches
                        MigrationLogEvent::ApplyingMigration { name });
                } else {
                    assert(self.events@[e_base.len() + 2 * q + 1] matches
                        MigrationLogEvent::MigrationApplied { name });
                }
            }
        }
        Ok(())
    }

    /// Rollback applied migrations: reconcile, then run each applied unit's
    /// backward routine, newest first, deleting its history row after each
    /// success. `steps` caps how many units roll back; `None` rolls back
    /// all. The strong clauses hold for a declared list without duplicate
    /// names, which the engine's users must provide.
    pub fn down<C: MigrationConnection>(
        &mut self,
        manager: &mut SchemaManager<C>,
        steps: Option<u32>,
    ) -> (r: Result<(), MigrationError>) where M: MigrationTrait<C>
        ensures
            final(self).units@ == old(self).units@,
            final(manager).backend_spec() == old(manager).backend_spec(),
            old(self).events@.len() <= final(self).events@.len(),
            forall|i: int|
                0 <= i < old(self).events@.len() ==> final(self).events@[i] == old(self).events@[i],
            r is Ok ==> final(manager).history_spec() is Some,
            r is Ok && limited(post_install(old(manager).history_spec()).len() as int, steps) == 0
                ==> final(manager).tables_spec() == old(manager).tables_spec().insert(
                "seaql_migrations"@,
            ) && (old(manager).history_spec() is Some ==> (forall|t: Seq<char>|
                final(manager).columns_spec(t) == old(manager).columns_spec(t))),
            r is Ok && unique_names(old(self).names()) ==> {
                let h0 = post_install(old(manager).history_spec());
                let h1 = final(manager).history_spec().unwrap();
                &&& is_name_prefix(h0, old(self).names())
                &&& h1 == h0.take(down_remaining(h0.len() as int, steps))
            },
            r is Ok ==> {
                let e0 = old(self).events@;
                let e1 = final(self).events@;
                let h0 = post_install(old(manager).history_spec());
                let rolled = limited(h0.len() as int, steps);
                let base = e0.len() + 1 + (if h0.len() == 0 {
                    1int
                } else {
                    0int
                });
                &&& e1.take(e0.len() as int) == e0
                &&& e1[e0.len() as int] == (MigrationLogEvent::RollingBackCount { steps })
                &&& (h0.len() == 0 ==> e1[e0.len() as int + 1]
                    == MigrationLogEvent::NoAppliedMigrations)
                &&& e1.len() == base + 2 * rolled
                &&& (forall|p: int|
                    0 <= p < rolled ==> ((#[trigger] e1[base + 2 * p]) matches
                        MigrationLogEvent::RollingBackMigration { name } && name@ == old(
                        self,
                    ).names()[h0.len() - 1 - p]))
                &&& (forall|p: int|
                    0 <= p < rolled ==> ((#[trigger] e1[base + 2 * p + 1]) matches
                        MigrationLogEvent::MigrationRolledBack { name } && name@ == old(
                        self,
                    ).names()[h0.len() - 1 - p]))
            },
            (r is Err && unique_names(old(self).names())) ==> final(manager).history_spec() == old(manager).history_spec() || (final(manager).history_spec() is Some && {
                let h0 = post_install(old(manager).history_spec());
                let h1 = final(manager).history_spec().unwrap();
                exists|k: int|
                    0 <= k <= limited(h0.len() as int, steps) && h1 == (#[trigger] h0.take(
                        h0.len() - k,
                    ))
            }),
    {
        self.install(manager)?;
        self.events.push(MigrationLogEvent::RollingBackCount { steps });
        let applied = match self.get_applied_migrations(manager) {
            Ok(a) => a,
            Err(e) => {
                proof {
                    if !(manager.history_spec() == old(manager).history_spec()) {
                        let h0 = post_install(old(manager).history_spec());
                        assert(old(manager).history_spec() is None);
                        assert(h0 =~= Seq::<ModelV>::empty());
                        let h1 = manager.history_spec().unwrap();
                        assert(h1 =~= h0.take(h0.len() as int - 0));
                    }
                }
                return Err(e);
            },
        };
        if applied.len() == 0 {
            self.events.push(MigrationLogEvent::NoAppliedMigrations);
        }
        let count: usize = match steps {
            None => applied.len(),
            Some(k) => {
                let k = k as usize;
                if k < applied.len() {
                    k
                } else {
                    applied.len()
                }
            },
        };
        let ghost e_base: Seq<MigrationLogEvent> = self.events@;
        let ghost h0: Seq<ModelV> = manager.history_spec().unwrap();
        let ghost names0: Seq<Seq<char>> = self.names();
        proof {
            assert(h0 == post_install(old(manager).history_spec()));
            assert(h0.take(h0.len() as int - 0) =~= h0);
        }
        let total = applied.len();
        let mut j: usize = 0;
        while j < count
            invariant
                self.units@ == old(self).units@,
                names0 == self.names(),
                manager.backend_spec() == old(manager).backend_spec(),
                h0 == post_install(old(manager).history_spec()),
                is_name_prefix(h0, names0),
                total == h0.len(),
                j <= count <= total,
                count as int == limited(h0.len() as int, steps),
                manager.history_spec() is Some,
                unique_names(names0) ==> manager.history_spec().unwrap() == h0.take(
                    h0.len() - j as int,
                ),
                is_name_prefix(h0, names0),
                self.events@.len() == e_base.len() + 2 * j,
                self.events@.take(e_base.len() as int) == e_base,
                old(self).events@.len() < e_base.len(),
                forall|i2: int|
                    0 <= i2 < old(self).events@.len() ==> #[trigger] e_base[i2] == old(
                        self,
                    ).events@[i2],
                j == 0 ==> manager.tables_spec() == old(manager).tables_spec().insert(
                    "seaql_migrations"@,
                ),
                j == 0 && old(manager).history_spec() is Some ==> (forall|t: Seq<char>|
                    manager.columns_spec(t) == old(manager).columns_spec(t)),
                forall|p: int|
                    0 <= p < j ==> ((#[trigger] self.events@[e_base.len() + 2 * p]) matches
                        MigrationLogEvent::RollingBackMigration { name } && name@
                        == names0[h0.len() - 1 - p]),
                forall|p: int|
                    0 <= p < j ==> ((#[trigger] self.events@[e_base.len() + 2 * p + 1]) matches
                        MigrationLogEvent::MigrationRolledBack { name } && name@ == names0[h0.len()
                        - 1 - p]),
            decreases count - j,
        {
            let idx = total - 1 - j;
            let name = self.units[idx].name();
            proof {
                assert(name@ == names0[idx as int]);
            }
            self.events.push(MigrationLogEvent::RollingBackMigration { name: name.clone() });
            match self.units[idx].down(manager) {
                Ok(u) => u,
                Err(e) => {
                    proof {
                        if unique_names(names0) {
                            assert(manager.history_spec().unwrap() == h0.take(
                                h0.len() - j as int,
                            ));
                        }
                        assert(self.events@.take(e_base.len() as int) =~= e_base);
                        assert forall|i2: int|
                            0 <= i2 < old(self).events@.len() implies self.events@[i2] == old(
                            self,
                        ).events@[i2] by {
                            assert(self.events@.take(e_base.len() as int)[i2] == e_base[i2]);
                        }
                    }
                    return Err(e);
                },
            };
            self.events.push(MigrationLogEvent::MigrationRolledBack { name: name.clone() });
            let ghost h1: Seq<ModelV> = manager.history_spec().unwrap();
            let ghost nm: Seq<char> = name@;
            match manager.exec_stmt(&Statement::DeleteHistory { version: name }) {
                Ok(u) => u,
                Err(e) => {
                    proof {
                        if unique_names(names0) {
                            assert(manager.history_spec().unwrap() == h0.take(
                                h0.len() - j as int,
                            ));
                        }
                        assert(self.events@.take(e_base.len() as int) =~= e_base);
                        assert forall|i2: int|
                            0 <= i2 < old(self).events@.len() implies self.events@[i2] == old(
                            self,
                        ).events@[i2] by {
                            assert(self.events@.take(e_base.len() as int)[i2] == e_base[i2]);
                        }
                    }
                    return Err(e);
                },
            };
            proof {
                if unique_names(names0) {
                    let h2 = manager.history_spec().unwrap();
                    assert(h1 == h0.take(h0.len() - j as int));
                    assert(h1.len() == h0.len() - j);
                    assert(h1[h1.len() - 1].version == h0[h0.len() - j - 1].version);
                    assert(h0[h0.len() - j - 1].version == names0[h0.len() - j - 1]);
                    assert forall|i: int| 0 <= i < h1.len() - 1 implies (#[trigger] h1[i]).version
                        != nm by {
                        assert(h1[i].version == names0[i]);
                    }
                    crate::plan::lemma_delete_last(h1, nm);
                    assert(h2 == h1.take(h1.len() - 1));
                    assert(h1.take(h1.len() - 1) =~= h0.take(h0.len() - (j + 1) as int));
                }
                assert(self.events@.take(e_base.len() as int) =~= e_base);
            }
            j += 1;
        }
        proof {
            let e0 = old(self).events@;
            assert(self.events@.take(e_base.len() as int) =~= e_base);
            assert(self.events@.take(e0.len() as int) =~= e0);
            assert(self.events@[e0.len() as int] == e_base[e0.len() as int]);
            if h0.len() == 0 {
                assert(self.events@[e0.len() as int + 1] == e_base[e0.len() as int + 1]);
            }
        }
        Ok(())
    }

    /// Rollback all applied migrations.
    pub fn reset<C: MigrationConnection>(&mut self, manager: &mut SchemaManager<C>) -> (r: Result<
        (),
        MigrationError,
    >) where M: MigrationTrait<C>
        ensures
            final(self).units@ == old(self).units@,
            final(manager).backend_spec() == old(manager).backend_spec(),
            r is Ok && unique_names(old(self).names()) ==> final(manager).history_spec() is Some
                && final(manager).history_spec().unwrap().len() == 0,
    {
        self.down(manager, None)
    }

    /// Rollback all applied migrations, then reapply all migrations.
    pub fn refresh<C: MigrationConnection>(
        &mut self,
        manager: &mut SchemaManager<C>,
    ) -> (r: Result<(), MigrationError>) where M: MigrationTrait<C>
        ensures
            final(self).units@ == old(self).units@,
            final(manager).backend_spec() == old(manager).backend_spec(),
            r is Ok && unique_names(old(self).names()) ==> final(manager).history_spec() is Some
                && versions_of(final(manager).history_spec().unwrap()) == old(self).names() && (
            forall|i: int|
                0 <= i < final(manager).history_spec().unwrap().len() ==> (#[trigger] final(manager).history_spec().unwrap()[i]).applied_at > 0),
    {
        self.down(manager, None)?;
        let r = self.up(manager, None);
        proof {
            if r is Ok && unique_names(old(self).names()) {
                let names0 = old(self).names();
                assert(names0.take(0 + limited(names0.len() - 0, None)) =~= names0);
            }
        }
        r
    }

    /// Drop all tables from the database, then reapply all migrations. The
    /// rebuild works from any starting state, drift included: install,
    /// disable SQLite's referential-integrity checking or drop MySQL's
    /// foreign keys, drop every user table — the bookkeeping table among
    /// them — restore the checking, and apply every declared unit onto the
    /// empty database. The log shows that order: its phases only advance,
    /// every enumerated table is announced as dropped, and the
    /// reapplication is announced after the drops.
    #[verifier::rlimit(100)]
    #[verifier::spinoff_prover]
    #[verifier::loop_isolation(false)]
    pub fn fresh<C: MigrationConnection>(&mut self, manager: &mut SchemaManager<C>) -> (r: Result<
        (),
        MigrationError,
    >) where M: MigrationTrait<C>
        ensures
            final(self).units@ == old(self).units@,
            final(manager).backend_spec() == old(manager).backend_spec(),
            old(self).events@.len() <= final(self).events@.len(),
            forall|i: int|
                0 <= i < old(self).events@.len() ==> final(self).events@[i] == old(self).events@[i],
            r is Ok ==> final(manager).history_spec() is Some && {
                let h1 = final(manager).history_spec().unwrap();
                &&& versions_of(h1) == old(self).names()
                &&& (forall|i: int| 0 <= i < h1.len() ==> (#[trigger] h1[i]).applied_at > 0)
            },
            r is Ok ==> {
                let e0 = old(self).events@;
                let e1 = final(self).events@;
                let t_enum = old(manager).tables_spec().insert("seaql_migrations"@);
                &&& (forall|i: int, j: int|
                    e0.len() <= i < j < e1.len() ==> fresh_phase(#[trigger] e1[i]) <= fresh_phase(
                        #[trigger] e1[j],
                    ))
                &&& (old(manager).backend_spec() is Sqlite ==> e0.len() + 2 <= e1.len()
                    && e1[e0.len() as int] == MigrationLogEvent::DisablingForeignKeyCheck
                    && e1[e0.len() as int + 1] == MigrationLogEvent::ForeignKeyCheckDisabled
                    && e1.contains(MigrationLogEvent::RestoringForeignKeyCheck) && e1.contains(
                    MigrationLogEvent::ForeignKeyCheckRestored,
                ))
                &&& (old(manager).backend_spec() is MySql ==> e0.len() < e1.len()
                    && e1[e0.len() as int] == MigrationLogEvent::DroppingAllForeignKeys
                    && e1.contains(MigrationLogEvent::AllForeignKeysDropped))
                &&& (forall|n: Seq<char>|
                    #[trigger] t_enum.contains(n) ==> exists|i: int|
                        e0.len() <= i < e1.len() && ((#[trigger] e1[i]) matches
                            MigrationLogEvent::DroppingTable { table } && table@ == n))
                &&& e1.contains(MigrationLogEvent::ApplyingMigrationCount { steps: None })
            },
            r is Ok && old(self).names().len() == 0 ==> final(manager).tables_spec() == Set::<
                Seq<char>,
            >::empty().insert("seaql_migrations"@) && final(manager).history_spec() is Some
                && final(manager).history_spec().unwrap().len() == 0,
    {
        let ghost e0: Seq<MigrationLogEvent> = self.events@;
        let ghost t_enum: Set<Seq<char>> = old(manager).tables_spec().insert("seaql_migrations"@);
        self.install(manager)?;
        let ghost t_installed: Set<Seq<char>> = manager.tables_spec();
        proof {
            assert(t_installed == t_enum);
        }
        let backend = manager.get_database_backend();
        let ghost pre_phase: int = if backend is Sqlite {
            0int
        } else {
            1int
        };
        if backend == MigrationDbBackend::Sqlite {
            self.events.push(MigrationLogEvent::DisablingForeignKeyCheck);
            manager.exec_stmt(&Statement::SetForeignKeyCheck { on: false })?;
            self.events.push(MigrationLogEvent::ForeignKeyCheckDisabled);
            proof {
                assert(self.events@ == e0.push(MigrationLogEvent::DisablingForeignKeyCheck).push(
                    MigrationLogEvent::ForeignKeyCheckDisabled,
                ));
            }
        }
        if backend == MigrationDbBackend::MySql {
            self.events.push(MigrationLogEvent::DroppingAllForeignKeys);
            let fk_rows = manager.query_all(&Statement::SelectForeignKeys)?;
            let mut i: usize = 0;
            while i < fk_rows.len()
                invariant
                    self.units@ == old(self).units@,
                    manager.backend_spec() == old(manager).backend_spec(),
                    manager.history_spec() is Some,
                    manager.tables_spec() == t_installed,
                    t_installed == t_enum,
                    i <= fk_rows@.len(),
                    e0.len() < self.events@.len(),
                    forall|i2: int| 0 <= i2 < e0.len() ==> #[trigger] self.events@[i2] == e0[i2],
                    self.events@[e0.len() as int] == MigrationLogEvent::DroppingAllForeignKeys,
                    forall|i2: int|
                        e0.len() <= i2 < self.events@.len() ==> fresh_phase(
                            #[trigger] self.events@[i2],
                        ) == 1,
                decreases fk_rows@.len() - i,
            {
                let ghost ev_top: Seq<MigrationLogEvent> = self.events@;
                proof {
                    assert forall|i2: int|
                        0 <= i2 < old(self).events@.len() implies #[trigger] self.events@[i2]
                        == old(self).events@[i2] by {
                        assert(self.events@[i2] == e0[i2]);
                    }
                }
                let constraint = fk_rows[i].try_get_string("CONSTRAINT_NAME")?;
                let table = fk_rows[i].try_get_string("TABLE_NAME")?;
                proof {
                    let a = MigrationLogEvent::DroppingForeignKey {
                        table: table,
                        constraint: constraint,
                    };
                    let b = MigrationLogEvent::ForeignKeyDropped { constraint: constraint };
                    lemma_const_phase_push2(ev_top, e0.len() as int, 0, 1, a, b);
                }
                self.events.push(
                    MigrationLogEvent::DroppingForeignKey {
                        table: table.clone(),
                        constraint: constraint.clone(),
                    },
                );
                match manager.exec_stmt(
                    &Statement::DropForeignKeyByName { table, constraint: constraint.clone() },
                ) {
                    Ok(u) => u,
                    Err(e) => {
                        proof {
                            assert forall|i2: int|
                                0 <= i2 < old(self).events@.len() implies #[trigger] self.events@[i2] == old(self).events@[i2] by {
                                assert(self.events@[i2] == ev_top[i2]);
                                assert(ev_top[i2] == e0[i2]);
                            }
                        }
                        return Err(e);
                    },
                };
                self.events.push(MigrationLogEvent::ForeignKeyDropped { constraint });
                i += 1;
            }
            let ghost ev_pre_marker: Seq<MigrationLogEvent> = self.events@;
            self.events.push(MigrationLogEvent::AllForeignKeysDropped);
            proof {
                assert forall|i2: int|
                    e0.len() <= i2 < self.events@.len() implies fresh_phase(
                    #[trigger] self.events@[i2],
                ) == 1 by {
                    if i2 < ev_pre_marker.len() {
                        assert(self.events@[i2] == ev_pre_marker[i2]);
                    }
                }
            }
        }
        let ghost e_mid: Seq<MigrationLogEvent> = self.events@;
        let ghost fk_done_idx: int = e_mid.len() - 1;
        proof {
            assert forall|i2: int| e0.len() <= i2 < e_mid.len() implies fresh_phase(
                #[trigger] e_mid[i2],
            ) == pre_phase by {}
        }
        let rows = manager.query_all(&Statement::QueryTables)?;
        let mut i: usize = 0;
        while i < rows.len()
            invariant
                self.units@ == old(self).units@,
                manager.backend_spec() == old(manager).backend_spec(),
                i <= rows@.len(),
                t_enum.contains("seaql_migrations"@),
                forall|j: int|
                    0 <= j < rows@.len() ==> (#[trigger] rows@[j]).string_col(
                        "table_name"@,
                    ) is Some && t_enum.contains(rows@[j].string_col("table_name"@).unwrap()),
                forall|n: Seq<char>|
                    t_enum.contains(n) ==> exists|j: int|
                        0 <= j < rows@.len() && (#[trigger] rows@[j]).string_col("table_name"@)
                            == Some(n),
                forall|n: Seq<char>|
                    #[trigger] manager.tables_spec().contains(n) ==> t_enum.contains(n),
                forall|j: int|
                    0 <= j < i ==> !manager.tables_spec().contains(
                        (#[trigger] rows@[j]).string_col("table_name"@).unwrap(),
                    ),
                manager.history_spec() is Some ==> manager.tables_spec().contains(
                    "seaql_migrations"@,
                ),
                e0.len() <= e_mid.len(),
                forall|i2: int| 0 <= i2 < e0.len() ==> #[trigger] self.events@[i2] == e0[i2],
                self.events@.len() == e_mid.len() + 2 * i,
                self.events@.take(e_mid.len() as int) == e_mid,
                forall|i2: int|
                    e_mid.len() <= i2 < self.events@.len() ==> fresh_phase(
                        #[trigger] self.events@[i2],
                    ) == 2,
                forall|j: int|
                    0 <= j < i ==> ((#[trigger] self.events@[e_mid.len() + 2 * j]) matches
                        MigrationLogEvent::DroppingTable { table } && table@
                        == rows@[j].string_col("table_name"@).unwrap()),
            decreases rows@.len() - i,
        {
            let ghost ev_top: Seq<MigrationLogEvent> = self.events@;
            proof {
                assert forall|i2: int|
                    0 <= i2 < old(self).events@.len() implies #[trigger] self.events@[i2] == old(
                    self,
                ).events@[i2] by {
                    assert(self.events@[i2] == e0[i2]);
                }
            }
            let table = rows[i].try_get_string("table_name")?;
            proof {
                assert(rows@[i as int].string_col("table_name"@) == Some(table@));
                let a = MigrationLogEvent::DroppingTable { table: table };
                let b = MigrationLogEvent::TableDropped { table: table };
                lemma_const_phase_push2(ev_top, e_mid.len() as int, e_mid.len() as int, 2, a, b);
            }
            self.events.push(MigrationLogEvent::DroppingTable { table: table.clone() });
            match manager.exec_stmt(&Statement::DropUserTable { table: table.clone() }) {
                Ok(u) => u,
                Err(e) => {
                    proof {
                        assert forall|i2: int|
                            0 <= i2 < old(self).events@.len() implies #[trigger] self.events@[i2]
                            == old(self).events@[i2] by {
                            assert(self.events@[i2] == ev_top[i2]);
                            assert(ev_top[i2] == e0[i2]);
                        }
                    }
                    return Err(e);
                },
            };
            self.events.push(MigrationLogEvent::TableDropped { table });
            proof {
                assert(self.events@.take(e_mid.len() as int) =~= e_mid);
            }
            i += 1;
        }
        proof {
            if manager.history_spec() is Some {
                let j = choose|j: int|
                    0 <= j < rows@.len() && (#[trigger] rows@[j]).string_col("table_name"@)
                        == Some("seaql_migrations"@);
                assert(!manager.tables_spec().contains("seaql_migrations"@));
                assert(false);
            }
            assert forall|n: Seq<char>| !(#[trigger] manager.tables_spec().contains(n)) by {
                if manager.tables_spec().contains(n) {
                    assert(t_enum.contains(n));
                    let j = choose|j: int|
                        0 <= j < rows@.len() && (#[trigger] rows@[j]).string_col("table_name"@)
                            == Some(n);
                    assert(!manager.tables_spec().contains(
                        rows@[j].string_col("table_name"@).unwrap(),
                    ));
                    assert(false);
                }
            }
            assert(manager.tables_spec() =~= Set::<Seq<char>>::empty());
        }
        let ghost e_drops: Seq<MigrationLogEvent> = self.events@;
        let ghost restore_idx: int = e_drops.len() as int;
        if backend == MigrationDbBackend::Sqlite {
            self.events.push(MigrationLogEvent::RestoringForeignKeyCheck);
            manager.exec_stmt(&Statement::SetForeignKeyCheck { on: true })?;
            self.events.push(MigrationLogEvent::ForeignKeyCheckRestored);
            proof {
                assert(self.events@ == e_drops.push(
                    MigrationLogEvent::RestoringForeignKeyCheck,
                ).push(MigrationLogEvent::ForeignKeyCheckRestored));
            }
        }
        let ghost e_pre_up: Seq<MigrationLogEvent> = self.events@;
        proof {
            assert(manager.history_spec() is None);
            assert forall|i2: int| 0 <= i2 < e_drops.len() implies #[trigger] e_pre_up[i2]
                == e_drops[i2] by {}
            assert forall|i2: int| 0 <= i2 < e_mid.len() implies #[trigger] e_drops[i2]
                == e_mid[i2] by {
                assert(e_drops.take(e_mid.len() as int)[i2] == e_mid[i2]);
            }
        }
        let r = self.up(manager, None);
        proof {
            if r is Ok {
                let names0 = old(self).names();
                assert(names0.take(0 + limited(names0.len() - 0, None)) =~= names0);
                let e1 = self.events@;
                let b = e_pre_up.len() as int;
                assert(e1.take(b) == e_pre_up);
                assert forall|i2: int| 0 <= i2 < b implies #[trigger] e1[i2] == e_pre_up[i2] by {
                    assert(e1.take(b)[i2] == e_pre_up[i2]);
                }
                let h0up = post_install(Option::<Seq<ModelV>>::None);
                assert(h0up.len() == 0);
                let applied_n = limited(names0.len() - h0up.len(), None);
                assert(applied_n == names0.len());
                let pad: int = if names0.len() == h0up.len() {
                    1int
                } else {
                    0int
                };
                let base = b + 1 + pad;
                assert(e1[b] == (MigrationLogEvent::ApplyingMigrationCount { steps: None }));
                assert(e1.len() == base + 2 * applied_n);
                assert forall|i2: int| b <= i2 < e1.len() implies fresh_phase(#[trigger] e1[i2])
                    == 4 by {
                    if i2 == b {
                        assert(e1[i2] == (MigrationLogEvent::ApplyingMigrationCount {
                            steps: None,
                        }));
                    } else if i2 < base {
                        assert(e1[i2] == MigrationLogEvent::NoPendingMigrations);
                    } else {
                        assert(e1[i2] is ApplyingMigration || e1[i2] is MigrationApplied);
                    }
                }
                assert forall|i2: int| e0.len() <= i2 < b implies fresh_phase(#[trigger] e1[i2])
                    <= 3 && (i2 < e_mid.len() ==> fresh_phase(e1[i2]) == pre_phase) && (
                e_mid.len() <= i2 < e_drops.len() ==> fresh_phase(e1[i2]) == 2) && (e_drops.len()
                    <= i2 ==> fresh_phase(e1[i2]) == 3) by {
                    assert(e1[i2] == e_pre_up[i2]);
                    if i2 < e_mid.len() {
                        assert(e_pre_up[i2] == e_mid[i2]);
                    } else if i2 < e_drops.len() {
                        assert(e_pre_up[i2] == e_drops[i2]);
                    } else {
                        assert(e_pre_up[i2] == MigrationLogEvent::RestoringForeignKeyCheck
                            || e_pre_up[i2] == MigrationLogEvent::ForeignKeyCheckRestored);
                    }
                }
                assert forall|i2: int, j2: int|
                    e0.len() <= i2 < j2 < e1.len() implies fresh_phase(#[trigger] e1[i2])
                    <= fresh_phase(#[trigger] e1[j2]) by {
                    if j2 < b {
                        if i2 < e_mid.len() {
                            assert(fresh_phase(e1[i2]) == pre_phase && pre_phase <= 1);
                        } else if i2 < e_drops.len() {
                            assert(fresh_phase(e1[i2]) == 2);
                            assert(e_mid.len() <= j2);
                        } else {
                            assert(fresh_phase(e1[i2]) == 3);
                            assert(e_drops.len() <= j2);
                        }
                    } else if i2 < b {
                        assert(fresh_phase(e1[i2]) <= 3);
                        assert(fresh_phase(e1[j2]) == 4);
                    } else {
                        assert(fresh_phase(e1[i2]) == 4 && fresh_phase(e1[j2]) == 4);
                    }
                }
                assert forall|n: Seq<char>| #[trigger] t_enum.contains(n) implies exists|i2: int|
                    e0.len() <= i2 < e1.len() && ((#[trigger] e1[i2]) matches
                        MigrationLogEvent::DroppingTable { table } && table@ == n) by {
                    let j = choose|j: int|
                        0 <= j < rows@.len() && (#[trigger] rows@[j]).string_col("table_name"@)
                            == Some(n);
                    let idx = e_mid.len() + 2 * j;
                    assert(e_drops[idx] matches MigrationLogEvent::DroppingTable { table }
                        && table@ == n);
                    assert(e1[idx] == e_pre_up[idx]);
                    assert(e_pre_up[idx] == e_drops[idx]);
                }
                if old(manager).backend_spec() is Sqlite {
                    assert(e1[e0.len() as int] == e_pre_up[e0.len() as int]);
                    assert(e1[e0.len() as int + 1] == e_pre_up[e0.len() as int + 1]);
                    assert(e1[restore_idx] == MigrationLogEvent::RestoringForeignKeyCheck);
                    assert(e1.contains(MigrationLogEvent::RestoringForeignKeyCheck));
                    assert(e1[restore_idx + 1] == MigrationLogEvent::ForeignKeyCheckRestored);
                    assert(e1.contains(MigrationLogEvent::ForeignKeyCheckRestored));
                }
                if old(manager).backend_spec() is MySql {
                    assert(e1[e0.len() as int] == e_pre_up[e0.len() as int]);
                    assert(e1[fk_done_idx] == MigrationLogEvent::AllForeignKeysDropped);
                    assert(e1.contains(MigrationLogEvent::AllForeignKeysDropped));
                }
                assert(e1.contains(MigrationLogEvent::ApplyingMigrationCount { steps: None }));
                if names0.len() == 0 {
                    assert(final(manager).tables_spec() =~= Set::<Seq<char>>::empty().insert(
                        "seaql_migrations"@,
                    ));
                    assert(versions_of(final(manager).history_spec().unwrap()).len() == 0);
                }
            }
        }
        r
    }

    /// Check the status of all migrations: reconciles and logs one line per
    /// declared unit. Reading is all it does: the history it found is the
    /// history it leaves.
    pub fn status<C: MigrationConnection>(&mut self, manager: &mut SchemaManager<C>) -> (r: Result<
        (),
        MigrationError,
    >)
        ensures
            final(self).units@ == old(self).units@,
            final(manager).backend_spec() == old(manager).backend_spec(),
            r is Ok ==> install_effect(
                old(manager).history_spec(),
                old(manager).tables_spec(),
                final(manager).history_spec(),
                final(manager).tables_spec(),
            ),
            r is Ok && old(manager).history_spec() is Some ==> (forall|t: Seq<char>|
                final(manager).columns_spec(t) == old(manager).columns_spec(t)),
            r is Err && old(manager).history_spec() is Some ==> (forall|t: Seq<char>|
                final(manager).columns_spec(t) == old(manager).columns_spec(t)),
            r is Ok ==> final(manager).history_spec() is Some && {
                let h = final(manager).history_spec().unwrap();
                let e0 = old(self).events@;
                let e1 = final(self).events@;
                &&& is_name_prefix(h, old(self).names())
                &&& e1.len() == e0.len() + 1 + old(self).units@.len()
                &&& e1.take(e0.len() as int) == e0
                &&& e1[e0.len() as int] == MigrationLogEvent::CheckingStatus
                &&& (forall|p: int|
                    0 <= p < old(self).units@.len() ==> ((#[trigger] e1[e0.len() + 1 + p]) matches
                        MigrationLogEvent::StatusLine { name, status } && name@ == old(self).names()[p] && status == (if p < h.len() {
                        MigrationStatus::Applied
                    } else {
                        MigrationStatus::Pending
                    })))
            },
            r is Err ==> (final(manager).history_spec() == old(manager).history_spec() && final(manager).tables_spec() == old(manager).tables_spec()) || install_effect(
                old(manager).history_spec(),
                old(manager).tables_spec(),
                final(manager).history_spec(),
                final(manager).tables_spec(),
            ),
    {
        self.events.push(MigrationLogEvent::CheckingStatus);
        let all = self.get_migration_with_status(manager)?;
        let ghost h: Seq<ModelV> = manager.history_spec().unwrap();
        let ghost e_base: Seq<MigrationLogEvent> = self.events@;
        let mut i: usize = 0;
        while i < all.len()
            invariant
                self.units@ == old(self).units@,
                all@.len() == self.units@.len(),
                h.len() <= self.units@.len(),
                forall|p: int|
                    0 <= p < all@.len() ==> (#[trigger] all@[p]) == (Migration {
                        index: p as usize,
                        status: if p < h.len() {
                            MigrationStatus::Applied
                        } else {
                            MigrationStatus::Pending
                        },
                    }),
                i <= all@.len(),
                self.events@.len() == e_base.len() + i,
                self.events@.take(e_base.len() as int) == e_base,
                forall|p: int|
                    0 <= p < i ==> ((#[trigger] self.events@[e_base.len() + p]) matches
                        MigrationLogEvent::StatusLine { name, status } && name@ == self.names()[p]
                        && status == all@[p].status),
            decreases all@.len() - i,
        {
            let name = self.units[i].name();
            proof {
                assert(name@ == self.names()[i as int]);
            }
            let status = all[i].status;
            self.events.push(MigrationLogEvent::StatusLine { name, status });
            proof {
                assert(self.events@.take(e_base.len() as int) =~= e_base);
            }
            i += 1;
        }
        proof {
            let e0 = old(self).events@;
            let e1 = self.events@;
            assert(e_base == e0.push(MigrationLogEvent::CheckingStatus));
            assert(e1.take(e_base.len() as int) == e_base);
            assert(e1.take(e0.len() as int) =~= e0);
            assert(e1[e0.len() as int] == e_base[e0.len() as int]);
        }
        Ok(())
    }
}

} // verus!
