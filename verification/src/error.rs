use vstd::prelude::*;

verus! {

/// The error kinds an engine operation can surface.
///
/// `Driver` carries a failure reported by the database driver; `ColumnAccess`
/// names a column that a query result did not hold (or held with the wrong
/// type); `UnsupportedForBackend` is returned when a Postgres-only statement
/// is built for another backend; `Message` carries an engine-level report
/// (such as a missing expected row); `Drift` reports a mismatch between the
/// recorded history and the declared migration list: `applied_version` is the
/// version found in the history table, `file_name` the declared name at the
/// same position, or `None` when the history extends beyond the declared list.
#[derive(Debug, Clone, PartialEq)]
pub enum MigrationError {
    Driver(String),
    ColumnAccess(String),
    UnsupportedForBackend,
    Message(String),
    Drift { applied_version: String, file_name: Option<String> },
}

} // verus!
