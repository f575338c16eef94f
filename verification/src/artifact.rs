use vstd::prelude::*;

use crate::clock::DateParts;

verus! {

/// Which data source a backup artifact was produced from.
#[derive(Clone, Copy, PartialEq, Eq, Structural, Debug)]
pub enum BackupKind {
    Database,
    Directory,
}

/// One produced backup artifact: a single local file, exclusively owned by
/// the stage holding it, removed from local storage on every exit path once
/// no longer needed.
pub struct ArchiveArtifact {
    pub kind: BackupKind,
    pub local_path: String,
    pub size_bytes: u64,
    pub created_at: DateParts,
}

/// What one attempt to remove a local artifact came to.
pub enum RemoveOutcome {
    Removed,
    NotFound,
    Failed(String),
}

/// Whether a removal attempt leaves the artifact gone from local storage: a
/// file that was already missing counts as removed; any other failure does
/// not — it is logged, and never overrides the run's primary outcome.
pub fn removal_succeeded(outcome: &RemoveOutcome) -> (r: bool)
    ensures
        r == !(outcome is Failed),
{
    match outcome {
        RemoveOutcome::Removed => true,
        RemoveOutcome::NotFound => true,
        RemoveOutcome::Failed(_) => false,
    }
}

} // verus!
