//! Persistence layer for package metadata: a repository manifest is turned
//! into rows and written to a SQLite store inside one transaction.

pub mod connection;
mod engine;
pub mod error;
pub mod laws;
pub mod metadata;
pub mod rows;
pub mod sql;

pub use connection::{Database, DbStatements, PackageRepository};
pub use error::{IngestField, StatementKind, StorageError};
pub use metadata::{ManifestFault, PackageVersion, RemotePackage, RemotePackageMetadata};
pub use rows::{build_rows, plan_import, RowWrite, Table};
