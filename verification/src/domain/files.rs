//! `read` / `find` tool parameters and results.

use vstd::prelude::*;

use crate::domain::ids::{WorkId, WorkspaceId};
use crate::domain::work::CoordinationHint;

verus! {

/// Per-call byte cap for `read`. Omitted `limit` uses this value.
pub const DEFAULT_READ_LIMIT: u32 = 1024 * 1024;
/// Per-call path cap for `find`. Omitted `limit` uses this value.
pub const DEFAULT_FIND_LIMIT: u32 = 10_000;

#[derive(Debug, Clone, PartialEq, Eq)]
pub struct ReadParams {
    pub workspace_id: WorkspaceId,
    pub path: String,
    /// Byte offset into the file. Omitted is 0.
    pub offset: Option<u64>,
    /// Byte window size. Omitted is [`DEFAULT_READ_LIMIT`]. Max is the same.
    pub limit: Option<u32>,
    pub work_id: Option<WorkId>,
}

#[derive(Debug, Clone, PartialEq, Eq)]
pub struct ReadResult {
    pub path: String,
    pub content: String,
    pub version: String,
    pub truncated: bool,
    /// Start of this window in file bytes.
    pub offset: u64,
    /// File bytes included in this window. Not `content.len()` after lossy decoding.
    pub byte_count: u64,
    /// The window was not valid UTF-8 and was decoded lossily.
    pub content_lossy: bool,
    /// Where the next window starts, when this one was cut short.
    pub next_offset: Option<u64>,
    pub coordination: Option<CoordinationHint>,
}

#[derive(Debug, Clone, PartialEq, Eq)]
pub struct FindParams {
    pub workspace_id: WorkspaceId,
    pub glob: Option<String>,
    /// Index into the sorted matching path list. Omitted is 0.
    pub offset: Option<u64>,
    /// Path window size. Omitted is [`DEFAULT_FIND_LIMIT`]. Max is the same.
    pub limit: Option<u32>,
    pub work_id: Option<WorkId>,
}

#[derive(Debug, Clone, PartialEq, Eq)]
pub struct FindResult {
    pub paths: Vec<String>,
    pub truncated: bool,
    /// Start of this window in the sorted path list.
    pub offset: u64,
    /// The directory walk hit one of its caps; the listing is partial.
    pub incomplete: bool,
    /// Digest of the whole sorted listing and its completeness.
    pub listing_version: String,
    pub next_offset: Option<u64>,
    pub coordination: Option<CoordinationHint>,
}

} // verus!
