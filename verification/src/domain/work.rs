//! Logical work items and the user-intent steering queue.

use vstd::prelude::*;

use crate::domain::ids::{IntentId, WorkId, WorkspaceId};
use crate::domain::intent::{DeliveryPolicy, IntentKind};
use crate::text::str_eq;

verus! {

/// Application work state. Independent of MCP session lifetime.
#[derive(Debug, Clone, Copy, PartialEq, Eq, Structural)]
pub enum WorkState {
    Active,
    Closing,
    Closed,
    Cancelled,
}

impl WorkState {
    /// The wire name of a state.
    pub open spec fn name(self) -> Seq<char> {
        match self {
            WorkState::Active => "active"@,
            WorkState::Closing => "closing"@,
            WorkState::Closed => "closed"@,
            WorkState::Cancelled => "cancelled"@,
        }
    }

    /// The state a wire name denotes, if any.
    pub open spec fn from_name(raw: Seq<char>) -> Option<WorkState> {
        if raw == "active"@ {
            Some(WorkState::Active)
        } else if raw == "closing"@ {
            Some(WorkState::Closing)
        } else if raw == "closed"@ {
            Some(WorkState::Closed)
        } else if raw == "cancelled"@ {
            Some(WorkState::Cancelled)
        } else {
            None
        }
    }

    pub fn as_str(self) -> (r: &'static str)
        ensures
            r@ == self.name(),
    {
        match self {
            WorkState::Active => "active",
            WorkState::Closing => "closing",
            WorkState::Closed => "closed",
            WorkState::Cancelled => "cancelled",
        }
    }

    pub fn parse(raw: &str) -> (r: Option<Self>)
        ensures
            r == WorkState::from_name(raw@),
    {
        if str_eq(raw, "active") {
            Some(WorkState::Active)
        } else if str_eq(raw, "closing") {
            Some(WorkState::Closing)
        } else if str_eq(raw, "closed") {
            Some(WorkState::Closed)
        } else if str_eq(raw, "cancelled") {
            Some(WorkState::Cancelled)
        } else {
            None
        }
    }

    /// Claims are served while the work is active or closing.
    pub fn accepts_claims(self) -> (r: bool)
        ensures
            r == (self == WorkState::Active || self == WorkState::Closing),
    {
        matches!(self, WorkState::Active | WorkState::Closing)
    }

    /// Open means not yet closed or cancelled.
    pub fn is_open(self) -> (r: bool)
        ensures
            r == (self == WorkState::Active || self == WorkState::Closing),
    {
        matches!(self, WorkState::Active | WorkState::Closing)
    }
}

/// Counts-only hint. Never includes intent bodies.
#[derive(Debug, Clone, PartialEq, Eq)]
pub struct CoordinationHint {
    pub work_id: WorkId,
    pub pending_user_items: u32,
    pub queue_revision: u64,
}

#[derive(Debug, Clone, PartialEq, Eq)]
pub struct Work {
    pub work_id: WorkId,
    pub workspace_id: WorkspaceId,
    pub title: Option<String>,
    pub state: WorkState,
    pub queue_revision: u64,
}

#[derive(Debug, Clone, PartialEq, Eq)]
pub struct WorkOpenParams {
    pub workspace_id: WorkspaceId,
    pub title: Option<String>,
}

#[derive(Debug, Clone, PartialEq, Eq)]
pub struct WorkOpenResult {
    pub work_id: WorkId,
    pub workspace_id: WorkspaceId,
    pub state: WorkState,
}

#[derive(Debug, Clone, PartialEq, Eq)]
pub struct WorkIdParams {
    pub work_id: WorkId,
}

#[derive(Debug, Clone, PartialEq, Eq)]
pub struct SteerStatusResult {
    pub work_id: WorkId,
    pub state: WorkState,
    pub queued: u32,
    pub claimed: u32,
    pub claimable_now: u32,
    pub queue_revision: u64,
}

#[derive(Debug, Clone, PartialEq, Eq)]
pub struct ClaimedIntent {
    pub intent_id: IntentId,
    pub revision: u64,
    pub kind: IntentKind,
    pub delivery: DeliveryPolicy,
    pub content: String,
}

#[derive(Debug, Clone, PartialEq, Eq)]
pub struct SteerClaimNextResult {
    pub item: Option<ClaimedIntent>,
}

/// How a claimed intent ended.
#[derive(Debug, Clone, Copy, PartialEq, Eq, Structural)]
pub enum SteerOutcome {
    Done,
    Blocked,
}

impl Default for SteerOutcome {
    fn default() -> (r: Self)
        ensures
            r == SteerOutcome::Done,
    {
        SteerOutcome::Done
    }
}

#[derive(Debug, Clone, PartialEq, Eq)]
pub struct SteerCompleteParams {
    pub work_id: WorkId,
    pub intent_id: IntentId,
    pub outcome: SteerOutcome,
}

#[derive(Debug, Clone, PartialEq, Eq)]
pub struct WorkFinishResult {
    pub work_id: WorkId,
    pub closed: bool,
    pub reason: Option<String>,
    pub queued: u32,
    pub state: WorkState,
}

pub const FINISH_REASON_PENDING: &'static str = "pending_user_input";

/// Every work state parses back from its name, and a name parses only to the state it names.
pub proof fn lemma_work_state_names(x: WorkState, raw: Seq<char>)
    ensures
        WorkState::from_name(x.name()) == Some(x),
        WorkState::from_name(raw) matches Some(y) ==> y.name() == raw,
{
    reveal_strlit("active");
    reveal_strlit("closing");
    reveal_strlit("closed");
    reveal_strlit("cancelled");
    assert("active"@.len() != "closing"@.len());
    assert("active"@[0] != "closed"@[0]);
    assert("active"@.len() != "cancelled"@.len());
    assert("closing"@.len() != "closed"@.len());
    assert("closing"@.len() != "cancelled"@.len());
    assert("closed"@.len() != "cancelled"@.len());
    match x {
        WorkState::Active => {
            assert(WorkState::from_name(x.name()) == Some(x));
        },
        WorkState::Closing => {
            assert(WorkState::from_name(x.name()) == Some(x));
        },
        WorkState::Closed => {
            assert(WorkState::from_name(x.name()) == Some(x));
        },
        WorkState::Cancelled => {
            assert(WorkState::from_name(x.name()) == Some(x));
        },
    }
}

} // verus!
