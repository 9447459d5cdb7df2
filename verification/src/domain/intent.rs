//! Deferred user input: state, delivery policy and kind.

use vstd::prelude::*;

use crate::domain::ids::{IntentId, WorkId, WorkspaceId};
use crate::domain::work::WorkState;
use crate::text::str_eq;

verus! {

#[derive(Debug, Clone, Copy, PartialEq, Eq, Structural)]
pub enum IntentState {
    Draft,
    Queued,
    Claimed,
    Done,
    Blocked,
    Cancelled,
    Superseded,
}

impl IntentState {
    pub open spec fn name(self) -> Seq<char> {
        match self {
            IntentState::Draft => "draft"@,
            IntentState::Queued => "queued"@,
            IntentState::Claimed => "claimed"@,
            IntentState::Done => "done"@,
            IntentState::Blocked => "blocked"@,
            IntentState::Cancelled => "cancelled"@,
            IntentState::Superseded => "superseded"@,
        }
    }

    pub open spec fn from_name(raw: Seq<char>) -> Option<IntentState> {
        if raw == "draft"@ {
            Some(IntentState::Draft)
        } else if raw == "queued"@ {
            Some(IntentState::Queued)
        } else if raw == "claimed"@ {
            Some(IntentState::Claimed)
        } else if raw == "done"@ {
            Some(IntentState::Done)
        } else if raw == "blocked"@ {
            Some(IntentState::Blocked)
        } else if raw == "cancelled"@ {
            Some(IntentState::Cancelled)
        } else if raw == "superseded"@ {
            Some(IntentState::Superseded)
        } else {
            None
        }
    }

    pub fn as_str(self) -> (r: &'static str)
        ensures
            r@ == self.name(),
    {
        match self {
            IntentState::Draft => "draft",
            IntentState::Queued => "queued",
            IntentState::Claimed => "claimed",
            IntentState::Done => "done",
            IntentState::Blocked => "blocked",
            IntentState::Cancelled => "cancelled",
            IntentState::Superseded => "superseded",
        }
    }

    pub fn parse(raw: &str) -> (r: Option<Self>)
        ensures
            r == IntentState::from_name(raw@),
    {
        if str_eq(raw, "draft") {
            Some(IntentState::Draft)
        } else if str_eq(raw, "queued") {
            Some(IntentState::Queued)
        } else if str_eq(raw, "claimed") {
            Some(IntentState::Claimed)
        } else if str_eq(raw, "done") {
            Some(IntentState::Done)
        } else if str_eq(raw, "blocked") {
            Some(IntentState::Blocked)
        } else if str_eq(raw, "cancelled") {
            Some(IntentState::Cancelled)
        } else if str_eq(raw, "superseded") {
            Some(IntentState::Superseded)
        } else {
            None
        }
    }

    /// Only drafts and queued items can still be edited.
    pub fn is_editable(self) -> (r: bool)
        ensures
            r == (self == IntentState::Draft || self == IntentState::Queued),
    {
        matches!(self, IntentState::Draft | IntentState::Queued)
    }
}

/// When a queued intent may be handed to the agent.
#[derive(Debug, Clone, Copy, PartialEq, Eq, Structural)]
pub enum DeliveryPolicy {
    NextCheckpoint,
    AfterCurrentWork,
    NextWork,
}

impl Default for DeliveryPolicy {
    fn default() -> (r: Self)
        ensures
            r == DeliveryPolicy::AfterCurrentWork,
    {
        DeliveryPolicy::AfterCurrentWork
    }
}

impl DeliveryPolicy {
    pub open spec fn name(self) -> Seq<char> {
        match self {
            DeliveryPolicy::NextCheckpoint => "next_checkpoint"@,
            DeliveryPolicy::AfterCurrentWork => "after_current_work"@,
            DeliveryPolicy::NextWork => "next_work"@,
        }
    }

    pub open spec fn from_name(raw: Seq<char>) -> Option<DeliveryPolicy> {
        if raw == "next_checkpoint"@ {
            Some(DeliveryPolicy::NextCheckpoint)
        } else if raw == "after_current_work"@ {
            Some(DeliveryPolicy::AfterCurrentWork)
        } else if raw == "next_work"@ {
            Some(DeliveryPolicy::NextWork)
        } else {
            None
        }
    }

    /// Whether an item with this policy can be claimed while the work is
    /// in `work_state`.
    pub open spec fn spec_claimable_in(self, work_state: WorkState) -> bool {
        (self == DeliveryPolicy::NextCheckpoint && (work_state == WorkState::Active
            || work_state == WorkState::Closing)) || (self == DeliveryPolicy::AfterCurrentWork
            && work_state == WorkState::Closing)
    }

    pub fn as_str(self) -> (r: &'static str)
        ensures
            r@ == self.name(),
    {
        match self {
            DeliveryPolicy::NextCheckpoint => "next_checkpoint",
            DeliveryPolicy::AfterCurrentWork => "after_current_work",
            DeliveryPolicy::NextWork => "next_work",
        }
    }

    pub fn parse(raw: &str) -> (r: Option<Self>)
        ensures
            r == DeliveryPolicy::from_name(raw@),
    {
        if str_eq(raw, "next_checkpoint") {
            Some(DeliveryPolicy::NextCheckpoint)
        } else if str_eq(raw, "after_current_work") {
            Some(DeliveryPolicy::AfterCurrentWork)
        } else if str_eq(raw, "next_work") {
            Some(DeliveryPolicy::NextWork)
        } else {
            None
        }
    }

    pub fn claimable_in(self, work_state: WorkState) -> (r: bool)
        ensures
            r == self.spec_claimable_in(work_state),
    {
        match (self, work_state) {
            (DeliveryPolicy::NextCheckpoint, WorkState::Active) => true,
            (DeliveryPolicy::NextCheckpoint, WorkState::Closing) => true,
            (DeliveryPolicy::AfterCurrentWork, WorkState::Closing) => true,
            _ => false,
        }
    }
}

#[derive(Debug, Clone, Copy, PartialEq, Eq, Structural)]
pub enum IntentKind {
    FollowUp,
    Note,
    StopNotice,
}

impl Default for IntentKind {
    fn default() -> (r: Self)
        ensures
            r == IntentKind::FollowUp,
    {
        IntentKind::FollowUp
    }
}

impl IntentKind {
    pub open spec fn name(self) -> Seq<char> {
        match self {
            IntentKind::FollowUp => "follow_up"@,
            IntentKind::Note => "note"@,
            IntentKind::StopNotice => "stop_notice"@,
        }
    }

    pub open spec fn from_name(raw: Seq<char>) -> Option<IntentKind> {
        if raw == "follow_up"@ {
            Some(IntentKind::FollowUp)
        } else if raw == "note"@ {
            Some(IntentKind::Note)
        } else if raw == "stop_notice"@ {
            Some(IntentKind::StopNotice)
        } else {
            None
        }
    }

    pub fn as_str(self) -> (r: &'static str)
        ensures
            r@ == self.name(),
    {
        match self {
            IntentKind::FollowUp => "follow_up",
            IntentKind::Note => "note",
            IntentKind::StopNotice => "stop_notice",
        }
    }

    pub fn parse(raw: &str) -> (r: Option<Self>)
        ensures
            r == IntentKind::from_name(raw@),
    {
        if str_eq(raw, "follow_up") {
            Some(IntentKind::FollowUp)
        } else if str_eq(raw, "note") {
            Some(IntentKind::Note)
        } else if str_eq(raw, "stop_notice") {
            Some(IntentKind::StopNotice)
        } else {
            None
        }
    }
}

/// User-authored deferred input. Body is instruction, never a capability.
#[derive(Debug, Clone, PartialEq, Eq)]
pub struct UserIntent {
    pub intent_id: IntentId,
    pub work_id: Option<WorkId>,
    pub workspace_id: WorkspaceId,
    pub position: i64,
    pub revision: u64,
    pub kind: IntentKind,
    pub delivery: DeliveryPolicy,
    pub body: String,
    pub state: IntentState,
}

/// Every intent state parses back from its name, and a name parses only to the state it names.
pub proof fn lemma_intent_state_names(x: IntentState, raw: Seq<char>)
    ensures
        IntentState::from_name(x.name()) == Some(x),
        IntentState::from_name(raw) matches Some(y) ==> y.name() == raw,
{
    reveal_strlit("draft");
    reveal_strlit("queued");
    reveal_strlit("claimed");
    reveal_strlit("done");
    reveal_strlit("blocked");
    reveal_strlit("cancelled");
    reveal_strlit("superseded");
    assert("draft"@.len() != "queued"@.len());
    assert("draft"@.len() != "claimed"@.len());
    assert("draft"@.len() != "done"@.len());
    assert("draft"@.len() != "blocked"@.len());
    assert("draft"@.len() != "cancelled"@.len());
    assert("draft"@.len() != "superseded"@.len());
    assert("queued"@.len() != "claimed"@.len());
    assert("queued"@.len() != "done"@.len());
    assert("queued"@.len() != "blocked"@.len());
    assert("queued"@.len() != "cancelled"@.len());
    assert("queued"@.len() != "superseded"@.len());
    assert("claimed"@.len() != "done"@.len());
    assert("claimed"@[0] != "blocked"@[0]);
    assert("claimed"@.len() != "cancelled"@.len());
    assert("claimed"@.len() != "superseded"@.len());
    assert("done"@.len() != "blocked"@.len());
    assert("done"@.len() != "cancelled"@.len());
    assert("done"@.len() != "superseded"@.len());
    assert("blocked"@.len() != "cancelled"@.len());
    assert("blocked"@.len() != "superseded"@.len());
    assert("cancelled"@.len() != "superseded"@.len());
    match x {
        IntentState::Draft => {
            assert(IntentState::from_name(x.name()) == Some(x));
        },
        IntentState::Queued => {
            assert(IntentState::from_name(x.name()) == Some(x));
        },
        IntentState::Claimed => {
            assert(IntentState::from_name(x.name()) == Some(x));
        },
        IntentState::Done => {
            assert(IntentState::from_name(x.name()) == Some(x));
        },
        IntentState::Blocked => {
            assert(IntentState::from_name(x.name()) == Some(x));
        },
        IntentState::Cancelled => {
            assert(IntentState::from_name(x.name()) == Some(x));
        },
        IntentState::Superseded => {
            assert(IntentState::from_name(x.name()) == Some(x));
        },
    }
}

/// Every delivery policy parses back from its name, and a name parses only to the policy it names.
pub proof fn lemma_delivery_policy_names(x: DeliveryPolicy, raw: Seq<char>)
    ensures
        DeliveryPolicy::from_name(x.name()) == Some(x),
        DeliveryPolicy::from_name(raw) matches Some(y) ==> y.name() == raw,
{
    reveal_strlit("next_checkpoint");
    reveal_strlit("after_current_work");
    reveal_strlit("next_work");
    assert("next_checkpoint"@.len() != "after_current_work"@.len());
    assert("next_checkpoint"@.len() != "next_work"@.len());
    assert("after_current_work"@.len() != "next_work"@.len());
    match x {
        DeliveryPolicy::NextCheckpoint => {
            assert(DeliveryPolicy::from_name(x.name()) == Some(x));
        },
        DeliveryPolicy::AfterCurrentWork => {
            assert(DeliveryPolicy::from_name(x.name()) == Some(x));
        },
        DeliveryPolicy::NextWork => {
            assert(DeliveryPolicy::from_name(x.name()) == Some(x));
        },
    }
}

/// Every intent kind parses back from its name, and a name parses only to the kind it names.
pub proof fn lemma_intent_kind_names(x: IntentKind, raw: Seq<char>)
    ensures
        IntentKind::from_name(x.name()) == Some(x),
        IntentKind::from_name(raw) matches Some(y) ==> y.name() == raw,
{
    reveal_strlit("follow_up");
    reveal_strlit("note");
    reveal_strlit("stop_notice");
    assert("follow_up"@.len() != "note"@.len());
    assert("follow_up"@.len() != "stop_notice"@.len());
    assert("note"@.len() != "stop_notice"@.len());
    match x {
        IntentKind::FollowUp => {
            assert(IntentKind::from_name(x.name()) == Some(x));
        },
        IntentKind::Note => {
            assert(IntentKind::from_name(x.name()) == Some(x));
        },
        IntentKind::StopNotice => {
            assert(IntentKind::from_name(x.name()) == Some(x));
        },
    }
}

} // verus!
