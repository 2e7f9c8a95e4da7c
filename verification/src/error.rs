//! The errors that opening a store or importing a manifest can return.

use vstd::prelude::*;

verus! {

/// The field of a manifest record that an ingest failure points at.
#[derive(Clone, Copy, Debug, PartialEq, Eq, Structural)]
pub enum IngestField {
    /// The package's name.
    Name,
    /// A version string of the package.
    Version,
    /// The name of a package that a version depends on.
    Dependency,
}

/// One of the prepared write operations.
#[derive(Clone, Copy, Debug, PartialEq, Eq, Structural)]
pub enum StatementKind {
    /// Insert or replace a package row.
    UpsertPackage,
    /// Insert or replace a version row.
    UpsertVersion,
    /// Insert or replace a dependency row.
    UpsertDependency,
}

/// Why opening a store or importing a manifest failed.
#[derive(Debug)]
pub enum StorageError {
    /// The primary file could not be opened, created or initialised.
    Open { detail: String },
    /// The shard with this number (1 for the first shard) could not be attached.
    Attach { shard: usize, detail: String },
    /// Write-ahead logging could not be switched on, or the session could
    /// not be made ready for writing.
    Config { detail: String },
    /// A write statement does not compile against the store's schema.
    Prepare { statement: StatementKind, detail: String },
    /// A record of the manifest is malformed, or the store refused its row.
    Ingest { package: String, field: IngestField, detail: String },
    /// The final commit failed.
    Commit { detail: String },
}

impl StorageError {
    /// A one-line description of the error.
    pub fn message(&self) -> (text: String)
        ensures
            text@ == self.label() + ": "@ + self.detail_text(),
    {
        let head: String = match self {
            StorageError::Open { .. } => String::from_str("open"),
            StorageError::Attach { .. } => String::from_str("attach"),
            StorageError::Config { .. } => String::from_str("config"),
            StorageError::Prepare { .. } => String::from_str("prepare"),
            StorageError::Ingest { .. } => String::from_str("ingest"),
            StorageError::Commit { .. } => String::from_str("commit"),
        };
        let tail: &str = match self {
            StorageError::Open { detail } => detail.as_str(),
            StorageError::Attach { detail, .. } => detail.as_str(),
            StorageError::Config { detail } => detail.as_str(),
            StorageError::Prepare { detail, .. } => detail.as_str(),
            StorageError::Ingest { detail, .. } => detail.as_str(),
            StorageError::Commit { detail } => detail.as_str(),
        };
        head.concat(": ").concat(tail)
    }

    /// The name of the error's kind.
    pub open spec fn label(&self) -> Seq<char> {
        match self {
            StorageError::Open { .. } => "open"@,
            StorageError::Attach { .. } => "attach"@,
            StorageError::Config { .. } => "config"@,
            StorageError::Prepare { .. } => "prepare"@,
            StorageError::Ingest { .. } => "ingest"@,
            StorageError::Commit { .. } => "commit"@,
        }
    }

    /// The text that the error carries.
    pub open spec fn detail_text(&self) -> Seq<char> {
        match self {
            StorageError::Open { detail } => detail@,
            StorageError::Attach { detail, .. } => detail@,
            StorageError::Config { detail } => detail@,
            StorageError::Prepare { detail, .. } => detail@,
            StorageError::Ingest { detail, .. } => detail@,
            StorageError::Commit { detail } => detail@,
        }
    }
}

} // verus!
