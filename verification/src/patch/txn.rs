//! Decisions of one runner-side patch transaction: version checks before
//! anything is written, snapshots for rollback, and the outcome when the
//! apply fails.

use vstd::prelude::*;

use crate::domain::error::{ErrorBody, ErrorCode};
use crate::domain::patch::{FileChange, PatchStatus};
use crate::filesys::{FileMeta, FsError};
use crate::patch::helper::HelperSuccess;
use crate::policy::environment::{EnvironmentDispatchError, EnvironmentKind};
use crate::policy::workspace::Workspace;
use crate::runner::api::{RunnerApplyPatchRequest, RunnerApplyPatchResult};
use crate::runner::launch::pair_views;
use crate::text::{concat2, str_eq, string_views};

verus! {

/// A client's expected version no longer matches the file.
pub open spec fn is_version_conflict(e: ErrorBody, path: Seq<char>) -> bool {
    e.code == ErrorCode::VersionConflict && e.message@ == "version conflict for "@ + path
        && e.operation_id is None
}

/// Compares one expected version with the file's current one.
pub fn check_version(path: &str, expected: &str, actual: &str) -> (r: Result<(), ErrorBody>)
    ensures
        r is Ok <==> expected@ == actual@,
        r matches Err(e) ==> is_version_conflict(e, path@),
{
    if str_eq(actual, expected) {
        Ok(())
    } else {
        let m = concat2("version conflict for ", path);
        Err(ErrorBody::new(ErrorCode::VersionConflict, m.as_str()))
    }
}

/// The status of a failed apply: rolled back when every snapshot was
/// restored, partial otherwise.
pub fn failure_status(restore_complete: bool) -> (r: PatchStatus)
    ensures
        r == if restore_complete {
            PatchStatus::FailedRolledBack
        } else {
            PatchStatus::FailedPartial
        },
{
    if restore_complete {
        PatchStatus::FailedRolledBack
    } else {
        PatchStatus::FailedPartial
    }
}

/// A file's state before an apply: its content and mode when it was a
/// regular file.
#[derive(Debug, Clone, PartialEq, Eq)]
pub struct FileSnapshot {
    pub relative: String,
    pub existed: bool,
    pub content: Option<Vec<u8>>,
    pub mode: Option<u32>,
}

/// A regular file that is not a symlink.
pub open spec fn is_regular(m: FileMeta) -> bool {
    m.is_file && !m.is_symlink
}

/// A filesystem error during rollback, reported as a patch failure.
pub fn fs_io(err: &FsError) -> (r: ErrorBody)
    ensures
        r.code == ErrorCode::InvalidPatch,
        r.message@ == err.message_spec(),
        r.operation_id is None,
{
    let m = err.message();
    ErrorBody::new(ErrorCode::InvalidPatch, m.as_str())
}

/// Whether a snapshot must capture the file, from its metadata: a regular
/// file is captured; anything else, or nothing at all, counts as absent;
/// any other error stops the snapshot.
pub fn snapshot_capture(meta: &Result<FileMeta, FsError>) -> (r: Result<bool, ErrorBody>)
    ensures
        match meta {
            Ok(m) => r == Ok::<bool, ErrorBody>(is_regular(*m)),
            Err(FsError::NotFound) => r == Ok::<bool, ErrorBody>(false),
            Err(e) => r matches Err(b) && b.code == ErrorCode::InvalidPatch && b.message@
                == e.message_spec(),
        },
{
    match meta {
        Ok(m) => Ok(m.is_file && !m.is_symlink),
        Err(FsError::NotFound) => Ok(false),
        Err(e) => Err(fs_io(e)),
    }
}

/// What restoring one snapshot does.
#[derive(Debug, Clone, Copy, PartialEq, Eq, Structural)]
pub enum RestoreAction {
    /// Recreate parents, write the old content back, then its mode if known.
    WriteBack,
    /// Remove the file the patch created.
    Remove,
    /// Nothing to undo.
    Nothing,
}

/// The restore step for a snapshot, given the file's metadata now (only
/// consulted for a file that did not exist before).
pub fn restore_action(snap: &FileSnapshot, now: &Result<FileMeta, FsError>) -> (r: Result<
    RestoreAction,
    ErrorBody,
>)
    ensures
        snap.existed ==> r == Ok::<RestoreAction, ErrorBody>(RestoreAction::WriteBack),
        !snap.existed ==> match now {
            Ok(m) => r == Ok::<RestoreAction, ErrorBody>(
                if is_regular(*m) {
                    RestoreAction::Remove
                } else {
                    RestoreAction::Nothing
                },
            ),
            Err(FsError::NotFound) => r == Ok::<RestoreAction, ErrorBody>(RestoreAction::Nothing),
            Err(e) => r matches Err(b) && b.code == ErrorCode::InvalidPatch && b.message@
                == e.message_spec(),
        },
{
    if snap.existed {
        return Ok(RestoreAction::WriteBack);
    }
    match now {
        Ok(m) => if m.is_file && !m.is_symlink {
            Ok(RestoreAction::Remove)
        } else {
            Ok(RestoreAction::Nothing)
        },
        Err(FsError::NotFound) => Ok(RestoreAction::Nothing),
        Err(e) => Err(fs_io(e)),
    }
}


/// Where a patch transaction stands.
#[derive(Debug, Clone, Copy, PartialEq, Eq, Structural)]
pub enum TxnPhase {
    /// Waiting for the current version of the expected path at this index.
    CheckingVersion(usize),
    /// Waiting for the helper's preflight.
    Preflighting,
    /// Waiting for the snapshots of the planned files.
    Snapshotting,
    /// Waiting for the helper's apply.
    Applying,
    /// Waiting for the changes checked against the disk.
    Verifying,
    /// Waiting for the rollback.
    Restoring,
    /// Done; no event is taken any more.
    Finished,
}

/// One runner-side `apply_patch` transaction: every expected version is
/// checked, in order, before the helper runs; a failed apply is rolled back
/// from snapshots.
pub struct PatchTxn {
    pub check_only: bool,
    pub versions: Vec<(String, String)>,
    pub phase: TxnPhase,
    /// The preflight's files and changes.
    pub planned: Option<HelperSuccess>,
    /// The apply's files and changes.
    pub applied: Option<HelperSuccess>,
    /// The current versions reported so far, each equal to the expected one.
    pub confirmed: Ghost<Seq<Seq<char>>>,
}

/// What the runner reports back to the transaction.
pub enum TxnEvent {
    /// The current version of the path asked for, or why it could not be read.
    Version(Result<String, ErrorBody>),
    Preflighted(Result<HelperSuccess, ErrorBody>),
    Snapshotted(Result<Vec<FileSnapshot>, ErrorBody>),
    Applied(Result<HelperSuccess, ErrorBody>),
    /// The claimed changes, with their versions as found on disk.
    Verified(Result<Vec<FileChange>, ErrorBody>),
    /// Whether every snapshot was restored.
    Restored(bool),
}

/// What the runner must do next.
pub enum TxnStep {
    ReadVersion { path: String },
    Preflight,
    Snapshot { files: Vec<String> },
    Apply,
    Verify,
    Restore,
    Finish(Result<RunnerApplyPatchResult, ErrorBody>),
}

impl PatchTxn {
    /// Versions are confirmed one by one and in order; the helper is only
    /// reached once all of them are; a check-only transaction never
    /// snapshots, applies or restores; the preflight (and, past an apply,
    /// its result) is kept for what comes next.
    pub open spec fn wf(self) -> bool {
        let n = self.versions@.len();
        let c = self.confirmed@;
        &&& c.len() <= n
        &&& forall|j: int| 0 <= j < c.len() ==> #[trigger] c[j] == self.versions@[j].1@
        &&& match self.phase {
            TxnPhase::CheckingVersion(i) => i < n && c.len() == i,
            TxnPhase::Finished => true,
            _ => c.len() == n,
        }
        &&& self.check_only ==> !(self.phase is Snapshotting || self.phase is Applying
            || self.phase is Restoring)
        &&& (self.phase is Snapshotting || self.phase is Applying || self.phase is Restoring
            || self.phase is Verifying) ==> self.planned is Some
        &&& (self.phase is Verifying && !self.check_only) ==> self.applied is Some
    }

    /// Whether `ev` answers the step this transaction is waiting on.
    pub open spec fn accepts(self, ev: TxnEvent) -> bool {
        match self.phase {
            TxnPhase::CheckingVersion(_) => ev is Version,
            TxnPhase::Preflighting => ev is Preflighted,
            TxnPhase::Snapshotting => ev is Snapshotted,
            TxnPhase::Applying => ev is Applied,
            TxnPhase::Verifying => ev is Verified,
            TxnPhase::Restoring => ev is Restored,
            TxnPhase::Finished => false,
        }
    }
}

/// A result of a finished transaction.
pub open spec fn finishes_with(
    r: TxnStep,
    status: PatchStatus,
    files: Vec<String>,
    changes: Vec<FileChange>,
) -> bool {
    r == TxnStep::Finish(Ok(RunnerApplyPatchResult { status, files, changes }))
}

fn copy_pairs(v: &Vec<(String, String)>) -> (r: Vec<(String, String)>)
    ensures
        pair_views(r@) == pair_views(v@),
{
    let mut r: Vec<(String, String)> = Vec::new();
    let mut i: usize = 0;
    while i < v.len()
        invariant
            i <= v@.len(),
            pair_views(r@) == pair_views(v@).subrange(0, i as int),
        decreases v@.len() - i,
    {
        let p = (v[i].0.clone(), v[i].1.clone());
        let ghost before = r@;
        r.push(p);
        proof {
            assert(r@ == before.push(p));
            assert(pair_views(r@) =~= pair_views(before).push((p.0@, p.1@)));
            assert(pair_views(r@) =~= pair_views(v@).subrange(0, i + 1));
        }
        i = i + 1;
    }
    r
}

fn copy_strings(v: &Vec<String>) -> (r: Vec<String>)
    ensures
        string_views(r@) == string_views(v@),
{
    let mut r: Vec<String> = Vec::new();
    let mut i: usize = 0;
    while i < v.len()
        invariant
            i <= v@.len(),
            string_views(r@) == string_views(v@).subrange(0, i as int),
        decreases v@.len() - i,
    {
        let c = v[i].clone();
        let ghost before = r@;
        r.push(c);
        proof {
            assert(r@ == before.push(c));
            assert(string_views(r@) =~= string_views(before).push(c@));
            assert(string_views(r@) =~= string_views(v@).subrange(0, i + 1));
        }
        i = i + 1;
    }
    r
}

/// Opens a transaction: a workspace that cannot be written finishes at
/// once; otherwise the first expected version is read, or, with none, the
/// helper's preflight runs.
pub fn start(ws: &Workspace, req: &RunnerApplyPatchRequest) -> (r: (PatchTxn, TxnStep))
    ensures
        r.0.wf(),
        r.0.check_only == req.check_only,
        pair_views(r.0.versions@) == pair_views(req.expected_versions@),
        r.0.planned is None,
        r.0.applied is None,
        ws.environment_kind != EnvironmentKind::Host ==> (r.0.phase == TxnPhase::Finished
            && (r.1 matches TxnStep::Finish(Err(e)) && e.code == ErrorCode::Unauthorized
            && e.operation_id is None && e.message@ == (EnvironmentDispatchError::UnsupportedFileWrite {
            kind: ws.environment_kind,
        }).message())),
        ws.environment_kind == EnvironmentKind::Host && req.expected_versions@.len() > 0
            ==> (r.0.phase == TxnPhase::CheckingVersion(0) && (r.1 matches TxnStep::ReadVersion {
            path,
        } && path@ == req.expected_versions@[0].0@)),
        ws.environment_kind == EnvironmentKind::Host && req.expected_versions@.len() == 0
            ==> r.0.phase == TxnPhase::Preflighting && r.1 is Preflight,
{
    let versions = copy_pairs(&req.expected_versions);
    proof {
        assert(pair_views(versions@).len() == pair_views(req.expected_versions@).len());
        if versions@.len() > 0 {
            assert(pair_views(versions@)[0] == pair_views(req.expected_versions@)[0]);
        }
    }
    let mut t = PatchTxn {
        check_only: req.check_only,
        versions,
        phase: TxnPhase::Finished,
        planned: None,
        applied: None,
        confirmed: Ghost(Seq::empty()),
    };
    match ws.require_file_write() {
        Err(e) => {
            return (t, TxnStep::Finish(Err(e)));
        },
        Ok(()) => {},
    }
    if t.versions.len() > 0 {
        t.phase = TxnPhase::CheckingVersion(0);
        let path = t.versions[0].0.clone();
        (t, TxnStep::ReadVersion { path })
    } else {
        t.phase = TxnPhase::Preflighting;
        (t, TxnStep::Preflight)
    }
}

/// Advances a transaction by one event.
pub fn step(t: &mut PatchTxn, ev: TxnEvent) -> (r: TxnStep)
    requires
        old(t).wf(),
        old(t).accepts(ev),
    ensures
        final(t).wf(),
        final(t).check_only == old(t).check_only,
        final(t).versions == old(t).versions,
        // The helper runs, and files change, only once every expected
        // version has been confirmed.
        (r is Preflight || r is Snapshot || r is Apply || r is Verify || r is Restore) ==> (
        final(t).confirmed@.len() == final(t).versions@.len() && forall|j: int|
            0 <= j < final(t).versions@.len() ==> #[trigger] final(t).confirmed@[j]
                == final(t).versions@[j].1@),
        // No snapshot, apply or rollback in a check-only transaction.
        final(t).check_only ==> !(r is Snapshot || r is Apply || r is Restore),
        // Versions, in order: a mismatch finishes with a conflict for that path.
        old(t).phase matches TxnPhase::CheckingVersion(i) ==> match ev {
            TxnEvent::Version(Err(e)) => final(t).phase == TxnPhase::Finished && r
                == TxnStep::Finish(Err(e)),
            TxnEvent::Version(Ok(a)) => if a@ != old(t).versions@[i as int].1@ {
                final(t).phase == TxnPhase::Finished && (r matches TxnStep::Finish(Err(e))
                    && is_version_conflict(e, old(t).versions@[i as int].0@))
            } else {
                &&& final(t).confirmed@ == old(t).confirmed@.push(a@)
                &&& i + 1 < old(t).versions@.len() ==> (final(t).phase
                    == TxnPhase::CheckingVersion((i + 1) as usize) && (r matches TxnStep::ReadVersion {
                    path,
                } && path@ == old(t).versions@[i + 1].0@))
                &&& i + 1 == old(t).versions@.len() ==> final(t).phase == TxnPhase::Preflighting
                    && r is Preflight
            },
            _ => false,
        },
        // Preflight: a refusal finishes with it; a check-only plan goes to
        // verification, any other to snapshots of the planned files.
        old(t).phase is Preflighting ==> match ev {
            TxnEvent::Preflighted(Err(e)) => final(t).phase == TxnPhase::Finished && r
                == TxnStep::Finish(Err(e)),
            TxnEvent::Preflighted(Ok(p)) => final(t).planned == Some(p) && if old(t).check_only {
                final(t).phase == TxnPhase::Verifying && r is Verify
            } else {
                final(t).phase == TxnPhase::Snapshotting && (r matches TxnStep::Snapshot { files }
                    && string_views(files@) == string_views(p.files@))
            },
            _ => false,
        },
        old(t).phase is Snapshotting ==> match ev {
            TxnEvent::Snapshotted(Err(e)) => final(t).phase == TxnPhase::Finished && r
                == TxnStep::Finish(Err(e)),
            TxnEvent::Snapshotted(Ok(_)) => final(t).phase == TxnPhase::Applying
                && final(t).planned == old(t).planned && r is Apply,
            _ => false,
        },
        // A failed apply is rolled back; a successful one is verified.
        old(t).phase is Applying ==> match ev {
            TxnEvent::Applied(Err(_)) => final(t).phase == TxnPhase::Restoring
                && final(t).planned == old(t).planned && r is Restore,
            TxnEvent::Applied(Ok(a)) => final(t).phase == TxnPhase::Verifying
                && final(t).planned == old(t).planned && final(t).applied == Some(a) && r is Verify,
            _ => false,
        },
        // After a rollback: the failure status, with the preflight's files and changes.
        old(t).phase is Restoring ==> match ev {
            TxnEvent::Restored(complete) => final(t).phase == TxnPhase::Finished && finishes_with(
                r,
                if complete {
                    PatchStatus::FailedRolledBack
                } else {
                    PatchStatus::FailedPartial
                },
                old(t).planned.unwrap().files,
                old(t).planned.unwrap().changes,
            ),
            _ => false,
        },
        // Verification: `Checked` with the preflight's files, or `Applied`
        // with the apply's, and the verified changes.
        old(t).phase is Verifying ==> match ev {
            TxnEvent::Verified(Err(e)) => final(t).phase == TxnPhase::Finished && r
                == TxnStep::Finish(Err(e)),
            TxnEvent::Verified(Ok(changes)) => final(t).phase == TxnPhase::Finished && if old(
                t,
            ).check_only {
                finishes_with(r, PatchStatus::Checked, old(t).planned.unwrap().files, changes)
            } else {
                finishes_with(r, PatchStatus::Applied, old(t).applied.unwrap().files, changes)
            },
            _ => false,
        },
{
    let phase = t.phase;
    match phase {
        TxnPhase::CheckingVersion(i) => {
            match ev {
                TxnEvent::Version(Err(e)) => {
                    t.phase = TxnPhase::Finished;
                    TxnStep::Finish(Err(e))
                },
                TxnEvent::Version(Ok(actual)) => {
                    let n = t.versions.len();
                    let verdict = check_version(
                        t.versions[i].0.as_str(),
                        t.versions[i].1.as_str(),
                        actual.as_str(),
                    );
                    if let Err(conflict) = verdict {
                        t.phase = TxnPhase::Finished;
                        TxnStep::Finish(Err(conflict))
                    } else {
                        proof {
                            t.confirmed@ = t.confirmed@.push(actual@);
                        }
                        if i + 1 < n {
                            t.phase = TxnPhase::CheckingVersion(i + 1);
                            let path = t.versions[i + 1].0.clone();
                            TxnStep::ReadVersion { path }
                        } else {
                            t.phase = TxnPhase::Preflighting;
                            TxnStep::Preflight
                        }
                    }
                },
                _ => TxnStep::Preflight,
            }
        },
        TxnPhase::Preflighting => {
            match ev {
                TxnEvent::Preflighted(Err(e)) => {
                    t.phase = TxnPhase::Finished;
                    TxnStep::Finish(Err(e))
                },
                TxnEvent::Preflighted(Ok(p)) => {
                    if t.check_only {
                        t.planned = Some(p);
                        t.phase = TxnPhase::Verifying;
                        TxnStep::Verify
                    } else {
                        let files = copy_strings(&p.files);
                        t.planned = Some(p);
                        t.phase = TxnPhase::Snapshotting;
                        TxnStep::Snapshot { files }
                    }
                },
                _ => TxnStep::Preflight,
            }
        },
        TxnPhase::Snapshotting => {
            match ev {
                TxnEvent::Snapshotted(Err(e)) => {
                    t.phase = TxnPhase::Finished;
                    TxnStep::Finish(Err(e))
                },
                TxnEvent::Snapshotted(Ok(_)) => {
                    t.phase = TxnPhase::Applying;
                    TxnStep::Apply
                },
                _ => TxnStep::Apply,
            }
        },
        TxnPhase::Applying => {
            match ev {
                TxnEvent::Applied(Err(_)) => {
                    t.phase = TxnPhase::Restoring;
                    TxnStep::Restore
                },
                TxnEvent::Applied(Ok(a)) => {
                    t.applied = Some(a);
                    t.phase = TxnPhase::Verifying;
                    TxnStep::Verify
                },
                _ => TxnStep::Apply,
            }
        },
        TxnPhase::Restoring => {
            match ev {
                TxnEvent::Restored(complete) => {
                    let status = failure_status(complete);
                    let planned = t.planned.take().unwrap();
                    t.phase = TxnPhase::Finished;
                    TxnStep::Finish(Ok(RunnerApplyPatchResult {
                        status,
                        files: planned.files,
                        changes: planned.changes,
                    }))
                },
                _ => TxnStep::Restore,
            }
        },
        TxnPhase::Verifying => {
            match ev {
                TxnEvent::Verified(Err(e)) => {
                    t.phase = TxnPhase::Finished;
                    TxnStep::Finish(Err(e))
                },
                TxnEvent::Verified(Ok(changes)) => {
                    t.phase = TxnPhase::Finished;
                    if t.check_only {
                        let planned = t.planned.take().unwrap();
                        TxnStep::Finish(Ok(RunnerApplyPatchResult {
                            status: PatchStatus::Checked,
                            files: planned.files,
                            changes,
                        }))
                    } else {
                        let applied = t.applied.take().unwrap();
                        TxnStep::Finish(Ok(RunnerApplyPatchResult {
                            status: PatchStatus::Applied,
                            files: applied.files,
                            changes,
                        }))
                    }
                },
                _ => TxnStep::Verify,
            }
        },
        TxnPhase::Finished => TxnStep::Preflight,
    }
}

} // verus!
