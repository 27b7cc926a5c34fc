use vstd::prelude::*;

use crate::connection::MigrationQueryResult;
use crate::error::MigrationError;

verus! {

/// The persisted bookkeeping table that records applied migrations.
pub struct Table;

impl Table {
    /// The table's name in the database.
    pub fn name(&self) -> (r: &'static str)
        ensures
            r@ == "seaql_migrations"@,
    {
        "seaql_migrations"
    }
}

/// The two columns of the bookkeeping table.
#[derive(Debug, Copy, Clone, PartialEq, Eq, Structural)]
pub enum Column {
    Version,
    AppliedAt,
}

impl Column {
    /// The column's name in the database.
    pub fn as_str(&self) -> (r: &'static str)
        ensures
            self is Version ==> r@ == "version"@,
            self is AppliedAt ==> r@ == "applied_at"@,
    {
        match self {
            Column::Version => "version",
            Column::AppliedAt => "applied_at",
        }
    }
}

/// One row of the bookkeeping table: a unit's version name and the Unix
/// second at which it was recorded as applied.
#[derive(Debug, Clone, PartialEq)]
pub struct Model {
    pub version: String,
    pub applied_at: i64,
}

/// The mathematical content of a history row.
pub struct ModelV {
    pub version: Seq<char>,
    pub applied_at: int,
}

impl View for Model {
    type V = ModelV;

    open spec fn view(&self) -> ModelV {
        ModelV { version: self.version@, applied_at: self.applied_at as int }
    }
}

impl Model {
    /// Reads a history row out of a query result: the `version` string
    /// column and the `applied_at` integer column. Succeeds exactly when the
    /// row holds both.
    pub fn try_from_query_result<R: MigrationQueryResult>(res: R) -> (r: Result<Model,
        MigrationError>)
        ensures
            match (res.string_col("version"@), res.i64_col("applied_at"@)) {
                (Some(v), Some(a)) => r is Ok && r->Ok_0@ == (ModelV {
                    version: v,
                    applied_at: a as int,
                }),
                _ => r is Err,
            },
    {
        let version = res.try_get_string("version")?;
        let applied_at = res.try_get_i64("applied_at")?;
        Ok(Model { version, applied_at })
    }
}

} // verus!
