//! Patch operations as recorded and reported to clients.

use vstd::prelude::*;

use crate::domain::ids::{OperationId, OperationKey, WorkId, WorkspaceId};
use crate::domain::work::CoordinationHint;

verus! {

/// Outcome of one `apply_patch` operation.
#[derive(Debug, Clone, Copy, PartialEq, Eq, Structural)]
pub enum PatchStatus {
    Applied,
    Checked,
    Rejected,
    FailedRolledBack,
    FailedPartial,
    Unknown,
}

#[derive(Debug, Clone, Copy, PartialEq, Eq, Structural)]
pub enum FileChangeKind {
    Add,
    Update,
    Delete,
    Move,
}

/// One file touched by a patch, with content versions when known.
#[derive(Debug, Clone, PartialEq, Eq)]
pub struct FileChange {
    pub path: String,
    pub before_version: Option<String>,
    pub after_version: Option<String>,
    pub kind: FileChangeKind,
}

#[derive(Debug, Clone, PartialEq, Eq)]
pub struct ApplyPatchParams {
    pub workspace_id: WorkspaceId,
    pub patch: String,
    pub expected_versions: std::collections::BTreeMap<String, String>,
    pub operation_key: Option<OperationKey>,
    pub check_only: bool,
    pub work_id: Option<WorkId>,
}

#[derive(Debug, Clone, PartialEq, Eq)]
pub struct ApplyPatchResult {
    pub status: PatchStatus,
    pub operation_id: OperationId,
    pub replayed: bool,
    pub files: Vec<String>,
    pub changes: Vec<FileChange>,
    pub work_id: Option<WorkId>,
    pub coordination: Option<CoordinationHint>,
}

impl ApplyPatchResult {
    /// A fresh, non-replayed result with no files listed yet.
    pub fn new(status: PatchStatus, operation_id: OperationId) -> (r: Self)
        ensures
            r.status == status,
            r.operation_id == operation_id,
            !r.replayed,
            r.files@.len() == 0,
            r.changes@.len() == 0,
            r.work_id is None,
            r.coordination is None,
    {
        ApplyPatchResult {
            status,
            operation_id,
            replayed: false,
            files: Vec::new(),
            changes: Vec::new(),
            work_id: None,
            coordination: None,
        }
    }
}

#[derive(Debug, Clone, Copy, PartialEq, Eq, Structural)]
pub enum OperationKind {
    Patch,
}

impl Default for OperationKind {
    fn default() -> (r: Self)
        ensures
            r == OperationKind::Patch,
    {
        OperationKind::Patch
    }
}

#[derive(Debug, Clone, Copy, PartialEq, Eq, Structural)]
pub enum OperationEventName {
    Minted,
    Finished,
}

/// A timestamped step in an operation's history.
#[derive(Debug, Clone, PartialEq, Eq)]
pub struct OperationEvent {
    pub at: i64,
    pub name: OperationEventName,
    pub status: Option<PatchStatus>,
    pub reason: Option<String>,
}

impl OperationEvent {
    /// The operation id was minted at `at`.
    pub fn minted(at: i64) -> (r: Self)
        ensures
            r.at == at,
            r.name == OperationEventName::Minted,
            r.status is None,
            r.reason is None,
    {
        OperationEvent { at, name: OperationEventName::Minted, status: None, reason: None }
    }

    /// The operation finished with `status`; an unknown outcome carries
    /// the reason `unknown`.
    pub fn finished(at: i64, status: PatchStatus) -> (r: Self)
        ensures
            r.at == at,
            r.name == OperationEventName::Finished,
            r.status == Some(status),
            status == PatchStatus::Unknown ==> (r.reason matches Some(s) && s@ == "unknown"@),
            status != PatchStatus::Unknown ==> r.reason is None,
    {
        OperationEvent {
            at,
            name: OperationEventName::Finished,
            status: Some(status),
            reason: match status {
                PatchStatus::Unknown => Some(String::from_str("unknown")),
                _ => None,
            },
        }
    }
}

#[derive(Debug, Clone, PartialEq, Eq)]
pub struct OperationStatusParams {
    pub operation_id: Option<OperationId>,
    pub operation_key: Option<OperationKey>,
}

#[derive(Debug, Clone, PartialEq, Eq)]
pub struct OperationStatusResult {
    pub operation_id: OperationId,
    pub status: PatchStatus,
    pub replayed: bool,
    pub kind: OperationKind,
    pub workspace_id: WorkspaceId,
    pub created_at: i64,
    pub finished_at: Option<i64>,
    pub files: Vec<String>,
    pub changes: Vec<FileChange>,
    pub events: Vec<OperationEvent>,
}

} // verus!
