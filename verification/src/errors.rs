//! Per-record error taxonomy of the migration pipeline. Every error is
//! recoverable at per-record granularity: the orchestrator counts it and
//! moves on to the next record.

use vstd::prelude::*;

verus! {

/// Outcome of one failed record. `DatabaseError`: a required catalog field is
/// absent. `ExtensionError`: the audio filename has no detectable extension.
/// `CopyError`: the source is missing, disambiguation could not converge, or
/// the underlying filesystem copy failed. `TagError`: the audio format is
/// unsupported or the tag-container write failed.
#[derive(Clone, Copy, Debug, PartialEq, Eq, Structural)]
pub enum MigrationError {
    DatabaseError,
    ExtensionError,
    CopyError,
    TagError,
}

impl MigrationError {
    /// Diagnostic name of the error, for the per-record report line.
    pub fn name(&self) -> (r: &'static str)
        ensures
            self is DatabaseError ==> r@ == "DatabaseError"@,
            self is ExtensionError ==> r@ == "ExtensionError"@,
            self is CopyError ==> r@ == "CopyError"@,
            self is TagError ==> r@ == "TagError"@,
    {
        match self {
            MigrationError::DatabaseError => "DatabaseError",
            MigrationError::ExtensionError => "ExtensionError",
            MigrationError::CopyError => "CopyError",
            MigrationError::TagError => "TagError",
        }
    }
}

} // verus!
