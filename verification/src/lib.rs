pub use vstd;

pub mod connection;
pub mod error;
pub mod manager;
pub mod migrator;
pub mod plan;
pub mod seaql_migrations;
pub mod statement;

pub use connection::MigrationConnection;
pub use connection::MigrationDbBackend;
pub use connection::MigrationQueryResult;
pub use error::MigrationError;
pub use manager::SchemaManager;
pub use migrator::Migration;
pub use migrator::MigrationLogEvent;
pub use migrator::MigrationName;
pub use migrator::MigrationStatus;
pub use migrator::MigrationTrait;
pub use migrator::Migrator;
pub use statement::MigrationStatementBuilder;
pub use statement::Statement;
