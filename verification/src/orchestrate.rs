use vstd::prelude::*;

use crate::artifact::ArchiveArtifact;
use crate::artifact::BackupKind;
use crate::errors::BackupError;

verus! {

/// Where one backup kind's run stands: the stages run strictly in this
/// order — resolve the destination folder, produce the artifact, upload it,
/// prune (only for a kind that carries a retention policy, and only after a
/// successful upload), remove the local artifact, report.
pub enum RunPhase {
    NeedFolder,
    NeedProduce { folder_id: String },
    NeedUpload { folder_id: String },
    NeedPrune { folder_id: String },
    NeedCleanup,
    Done,
}

/// What the driving loop must do next for a run.
#[derive(Debug, PartialEq, Eq)]
pub enum RunAction {
    ResolveFolder,
    Produce { folder_id: String },
    Upload { folder_id: String, artifact_path: String },
    Prune { folder_id: String, keep: usize },
    RemoveLocal { artifact_path: String },
    Report { success: bool, deleted: u32 },
}

/// What the outside world answered to the last action.
pub enum RunEvent {
    FolderResolved(Result<String, BackupError>),
    Produced(Result<ArchiveArtifact, BackupError>),
    Uploaded(Result<(), BackupError>),
    Pruned(Result<u32, BackupError>),
    Removed(bool),
}

/// The run of one backup kind: no cross-invocation state, every stage's
/// failure carried up, the local artifact removed on every path once it
/// exists.
pub struct KindRun {
    pub kind: BackupKind,
    /// The keep-count when this kind carries a retention policy.
    pub retention: Option<usize>,
    pub phase: RunPhase,
    /// The local path of the produced artifact, once one exists.
    pub produced_path: Option<String>,
    /// The first failing stage's error, if any stage failed.
    pub failure: Option<BackupError>,
    /// Successful deletions the prune stage reported.
    pub deleted: u32,
    /// Whether the local artifact's removal has been ordered.
    pub cleanup_issued: bool,
}

/// The well-formedness every reachable run state keeps: an artifact exists
/// from the moment production succeeded until the run ends, pruning happens
/// only on a run with a policy and no failure so far, and a finished run
/// that produced an artifact has ordered its removal.
pub open spec fn run_wf(s: KindRun) -> bool {
    &&& match s.phase {
        RunPhase::NeedFolder => s.produced_path is None && s.failure is None,
        RunPhase::NeedProduce { .. } => s.produced_path is None && s.failure is None,
        RunPhase::NeedUpload { .. } => s.produced_path is Some && s.failure is None,
        RunPhase::NeedPrune { .. } => s.produced_path is Some && s.failure is None
            && s.retention is Some,
        RunPhase::NeedCleanup => s.produced_path is Some,
        RunPhase::Done => s.produced_path is Some ==> s.cleanup_issued,
    }
}

/// Which events answer which phase.
pub open spec fn event_fits(phase: RunPhase, event: RunEvent) -> bool {
    match (phase, event) {
        (RunPhase::NeedFolder, RunEvent::FolderResolved(_)) => true,
        (RunPhase::NeedProduce { .. }, RunEvent::Produced(_)) => true,
        (RunPhase::NeedUpload { .. }, RunEvent::Uploaded(_)) => true,
        (RunPhase::NeedPrune { .. }, RunEvent::Pruned(_)) => true,
        (RunPhase::NeedCleanup, RunEvent::Removed(_)) => true,
        _ => false,
    }
}

/// The transition one event causes.
pub open spec fn step_spec(s: KindRun, event: RunEvent) -> KindRun {
    match event {
        RunEvent::FolderResolved(r) => match r {
            Ok(id) => KindRun { phase: RunPhase::NeedProduce { folder_id: id }, ..s },
            Err(e) => KindRun { phase: RunPhase::Done, failure: Some(e), ..s },
        },
        RunEvent::Produced(r) => match r {
            Ok(a) => KindRun {
                phase: match s.phase {
                    RunPhase::NeedProduce { folder_id } => RunPhase::NeedUpload { folder_id },
                    _ => RunPhase::Done,
                },
                produced_path: Some(a.local_path),
                ..s
            },
            Err(e) => KindRun { phase: RunPhase::Done, failure: Some(e), ..s },
        },
        RunEvent::Uploaded(r) => match r {
            Ok(u) => KindRun {
                phase: if s.retention is Some {
                    match s.phase {
                        RunPhase::NeedUpload { folder_id } => RunPhase::NeedPrune { folder_id },
                        _ => RunPhase::NeedCleanup,
                    }
                } else {
                    RunPhase::NeedCleanup
                },
                ..s
            },
            Err(e) => KindRun { phase: RunPhase::NeedCleanup, failure: Some(e), ..s },
        },
        RunEvent::Pruned(r) => match r {
            Ok(n) => KindRun { phase: RunPhase::NeedCleanup, deleted: n, ..s },
            Err(e) => KindRun { phase: RunPhase::NeedCleanup, failure: Some(e), ..s },
        },
        RunEvent::Removed(ok) => KindRun { phase: RunPhase::Done, cleanup_issued: true, ..s },
    }
}

/// The action each phase calls for.
pub open spec fn action_of(s: KindRun) -> RunAction {
    match s.phase {
        RunPhase::NeedFolder => RunAction::ResolveFolder,
        RunPhase::NeedProduce { folder_id } => RunAction::Produce { folder_id },
        RunPhase::NeedUpload { folder_id } => RunAction::Upload {
            folder_id,
            artifact_path: match s.produced_path {
                Some(p) => p,
                None => arbitrary(),
            },
        },
        RunPhase::NeedPrune { folder_id } => RunAction::Prune {
            folder_id,
            keep: match s.retention {
                Some(k) => k,
                None => 0,
            },
        },
        RunPhase::NeedCleanup => RunAction::RemoveLocal {
            artifact_path: match s.produced_path {
                Some(p) => p,
                None => arbitrary(),
            },
        },
        RunPhase::Done => RunAction::Report { success: s.failure is None, deleted: s.deleted },
    }
}

impl KindRun {
    /// Start a run for one kind, with its retention policy if it carries one.
    pub fn new(kind: BackupKind, retention: Option<usize>) -> (r: KindRun)
        ensures
            r.kind == kind,
            r.retention == retention,
            r.phase is NeedFolder,
            r.produced_path is None,
            r.failure is None,
            r.deleted == 0,
            !r.cleanup_issued,
            run_wf(r),
    {
        KindRun {
            kind,
            retention,
            phase: RunPhase::NeedFolder,
            produced_path: None,
            failure: None,
            deleted: 0,
            cleanup_issued: false,
        }
    }

    pub open spec fn finished_spec(&self) -> bool {
        self.phase is Done
    }

    pub fn finished(&self) -> (r: bool)
        ensures
            r == self.finished_spec(),
    {
        match self.phase {
            RunPhase::Done => true,
            _ => false,
        }
    }

    /// What the driving loop must do next.
    pub fn next_action(&self) -> (r: RunAction)
        requires
            run_wf(*self),
        ensures
            r == action_of(*self),
    {
        match &self.phase {
            RunPhase::NeedFolder => RunAction::ResolveFolder,
            RunPhase::NeedProduce { folder_id } => RunAction::Produce {
                folder_id: folder_id.clone(),
            },
            RunPhase::NeedUpload { folder_id } => {
                let artifact_path = match &self.produced_path {
                    Some(p) => p.clone(),
                    None => String::new(),
                };
                RunAction::Upload { folder_id: folder_id.clone(), artifact_path }
            },
            RunPhase::NeedPrune { folder_id } => {
                let keep = match &self.retention {
                    Some(k) => *k,
                    None => 0,
                };
                RunAction::Prune { folder_id: folder_id.clone(), keep }
            },
            RunPhase::NeedCleanup => {
                let artifact_path = match &self.produced_path {
                    Some(p) => p.clone(),
                    None => String::new(),
                };
                RunAction::RemoveLocal { artifact_path }
            },
            RunPhase::Done => RunAction::Report {
                success: match &self.failure {
                    Some(_) => false,
                    None => true,
                },
                deleted: self.deleted,
            },
        }
    }

    /// Advance the run by one answered action.
    pub fn step(self, event: RunEvent) -> (r: KindRun)
        requires
            run_wf(self),
            event_fits(self.phase, event),
        ensures
            r == step_spec(self, event),
            run_wf(r),
    {
        match event {
            RunEvent::FolderResolved(res) => match res {
                Ok(id) => KindRun { phase: RunPhase::NeedProduce { folder_id: id }, ..self },
                Err(e) => KindRun { phase: RunPhase::Done, failure: Some(e), ..self },
            },
            RunEvent::Produced(res) => match res {
                Ok(a) => {
                    let folder_id = match self.phase {
                        RunPhase::NeedProduce { folder_id } => folder_id,
                        _ => String::new(),
                    };
                    KindRun {
                        phase: RunPhase::NeedUpload { folder_id },
                        produced_path: Some(a.local_path),
                        ..self
                    }
                },
                Err(e) => KindRun { phase: RunPhase::Done, failure: Some(e), ..self },
            },
            RunEvent::Uploaded(res) => match res {
                Ok(_) => {
                    let folder_id = match self.phase {
                        RunPhase::NeedUpload { folder_id } => folder_id,
                        _ => String::new(),
                    };
                    let has_retention = match &self.retention {
                        Some(_) => true,
                        None => false,
                    };
                    if has_retention {
                        KindRun { phase: RunPhase::NeedPrune { folder_id }, ..self }
                    } else {
                        KindRun { phase: RunPhase::NeedCleanup, ..self }
                    }
                },
                Err(e) => KindRun { phase: RunPhase::NeedCleanup, failure: Some(e), ..self },
            },
            RunEvent::Pruned(res) => match res {
                Ok(n) => KindRun { phase: RunPhase::NeedCleanup, deleted: n, ..self },
                Err(e) => KindRun { phase: RunPhase::NeedCleanup, failure: Some(e), ..self },
            },
            RunEvent::Removed(_) => KindRun { phase: RunPhase::Done, cleanup_issued: true, ..self },
        }
    }
}

/// A finished run that ever produced an artifact has ordered the artifact's
/// local removal — success or failure alike.
pub proof fn lemma_cleanup_always_ordered(s: KindRun)
    requires
        run_wf(s),
        s.phase is Done,
        s.produced_path is Some,
    ensures
        s.cleanup_issued,
{
}

/// Pruning is reached only on a run that carries a retention policy and has
/// not failed at any earlier stage — in particular, only after a successful
/// upload.
pub proof fn lemma_prune_only_after_upload_success(s: KindRun)
    requires
        run_wf(s),
        s.phase is NeedPrune,
    ensures
        s.retention is Some,
        s.failure is None,
{
}

} // verus!
