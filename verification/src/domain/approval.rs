//! Confirmation holds for already-allowed mutations. Not a privilege grant.

use vstd::prelude::*;

use crate::domain::ids::ApprovalId;
use crate::domain::patch::ApplyPatchResult;
use crate::domain::process::ExecCommandResult;
use crate::text::{concat3, str_eq};

verus! {

/// The JSON argument object of a held tool call. The library carries it
/// through without looking inside.
#[verifier::external_type_specification]
#[verifier::external_body]
pub struct ExJsonValue(serde_json::Value);

/// Operator workspace setting. Not an MCP argument that grants rights.
#[derive(Debug, Clone, Copy, PartialEq, Eq, Structural)]
pub enum ApprovalsMode {
    /// Mutations run immediately after policy allows them.
    Off,
    /// Policy-allowed `apply_patch` / `exec_command` wait on a confirmation hold.
    Confirm,
}

impl Default for ApprovalsMode {
    fn default() -> (r: Self)
        ensures
            r == ApprovalsMode::Off,
    {
        ApprovalsMode::Off
    }
}

impl ApprovalsMode {
    /// Mutations wait on a hold only in `Confirm` mode.
    pub fn holds_mutations(self) -> (r: bool)
        ensures
            r == (self == ApprovalsMode::Confirm),
    {
        matches!(self, ApprovalsMode::Confirm)
    }
}

/// The tool a confirmation hold is for.
#[derive(Debug, Clone, Copy, PartialEq, Eq, Structural)]
pub enum ApprovalTargetTool {
    ApplyPatch,
    ExecCommand,
}

impl ApprovalTargetTool {
    pub open spec fn name(self) -> Seq<char> {
        match self {
            ApprovalTargetTool::ApplyPatch => "apply_patch"@,
            ApprovalTargetTool::ExecCommand => "exec_command"@,
        }
    }

    pub open spec fn from_name(raw: Seq<char>) -> Option<ApprovalTargetTool> {
        if raw == "apply_patch"@ {
            Some(ApprovalTargetTool::ApplyPatch)
        } else if raw == "exec_command"@ {
            Some(ApprovalTargetTool::ExecCommand)
        } else {
            None
        }
    }

    pub fn as_str(self) -> (r: &'static str)
        ensures
            r@ == self.name(),
    {
        match self {
            ApprovalTargetTool::ApplyPatch => "apply_patch",
            ApprovalTargetTool::ExecCommand => "exec_command",
        }
    }

    /// Parses a tool name; anything else is refused with a message naming it.
    pub fn parse(value: &str) -> (r: Result<Self, String>)
        ensures
            match r {
                Ok(t) => ApprovalTargetTool::from_name(value@) == Some(t),
                Err(e) => ApprovalTargetTool::from_name(value@) is None && e@
                    == "unsupported approval tool `"@ + value@ + "`"@,
            },
    {
        if str_eq(value, "apply_patch") {
            Ok(ApprovalTargetTool::ApplyPatch)
        } else if str_eq(value, "exec_command") {
            Ok(ApprovalTargetTool::ExecCommand)
        } else {
            Err(concat3("unsupported approval tool `", value, "`"))
        }
    }
}

/// Lifecycle of a confirmation hold.
#[derive(Debug, Clone, Copy, PartialEq, Eq, Structural)]
pub enum ApprovalState {
    Pending,
    Granted,
    /// Resume has been claimed. Execution may be in flight or interrupted.
    Resuming,
    Denied,
    Consumed,
}

impl ApprovalState {
    pub open spec fn name(self) -> Seq<char> {
        match self {
            ApprovalState::Pending => "pending"@,
            ApprovalState::Granted => "granted"@,
            ApprovalState::Resuming => "resuming"@,
            ApprovalState::Denied => "denied"@,
            ApprovalState::Consumed => "consumed"@,
        }
    }

    pub open spec fn from_name(raw: Seq<char>) -> Option<ApprovalState> {
        if raw == "pending"@ {
            Some(ApprovalState::Pending)
        } else if raw == "granted"@ {
            Some(ApprovalState::Granted)
        } else if raw == "resuming"@ {
            Some(ApprovalState::Resuming)
        } else if raw == "denied"@ {
            Some(ApprovalState::Denied)
        } else if raw == "consumed"@ {
            Some(ApprovalState::Consumed)
        } else {
            None
        }
    }

    pub fn as_str(self) -> (r: &'static str)
        ensures
            r@ == self.name(),
    {
        match self {
            ApprovalState::Pending => "pending",
            ApprovalState::Granted => "granted",
            ApprovalState::Resuming => "resuming",
            ApprovalState::Denied => "denied",
            ApprovalState::Consumed => "consumed",
        }
    }

    /// Parses a state name; anything else is refused with a message naming it.
    pub fn parse(value: &str) -> (r: Result<Self, String>)
        ensures
            match r {
                Ok(s) => ApprovalState::from_name(value@) == Some(s),
                Err(e) => ApprovalState::from_name(value@) is None && e@
                    == "unknown approval state `"@ + value@ + "`"@,
            },
    {
        if str_eq(value, "pending") {
            Ok(ApprovalState::Pending)
        } else if str_eq(value, "granted") {
            Ok(ApprovalState::Granted)
        } else if str_eq(value, "resuming") {
            Ok(ApprovalState::Resuming)
        } else if str_eq(value, "denied") {
            Ok(ApprovalState::Denied)
        } else if str_eq(value, "consumed") {
            Ok(ApprovalState::Consumed)
        } else {
            Err(concat3("unknown approval state `", value, "`"))
        }
    }
}

#[derive(Debug, Clone, Copy, PartialEq, Eq, Structural)]
pub enum ApprovalDecision {
    Grant,
    Deny,
}

#[derive(Debug)]
pub struct ApprovalCreateParams {
    pub tool: ApprovalTargetTool,
    /// Same argument object as the named tool.
    pub arguments: serde_json::Value,
}

#[derive(Debug, Clone, PartialEq, Eq)]
pub struct ApprovalCreateResult {
    pub approval_id: ApprovalId,
    pub state: ApprovalState,
}

#[derive(Debug, Clone)]
pub struct ApprovalResolveParams {
    pub approval_id: ApprovalId,
    pub decision: ApprovalDecision,
}

#[derive(Debug, Clone, PartialEq, Eq)]
pub struct ApprovalResolveResult {
    pub approval_id: ApprovalId,
    pub state: ApprovalState,
}

#[derive(Debug, Clone)]
pub struct OperationResumeParams {
    pub approval_id: ApprovalId,
}

#[derive(Debug, Clone, PartialEq, Eq)]
pub struct OperationResumeResult {
    pub approval_id: ApprovalId,
    pub state: ApprovalState,
    pub apply_patch: Option<ApplyPatchResult>,
    pub exec_command: Option<ExecCommandResult>,
}

/// Every approval target parses back from its name, and a name parses only to the target it names.
pub proof fn lemma_approval_target_names(x: ApprovalTargetTool, raw: Seq<char>)
    ensures
        ApprovalTargetTool::from_name(x.name()) == Some(x),
        ApprovalTargetTool::from_name(raw) matches Some(y) ==> y.name() == raw,
{
    reveal_strlit("apply_patch");
    reveal_strlit("exec_command");
    assert("apply_patch"@.len() != "exec_command"@.len());
    match x {
        ApprovalTargetTool::ApplyPatch => {
            assert(ApprovalTargetTool::from_name(x.name()) == Some(x));
        },
        ApprovalTargetTool::ExecCommand => {
            assert(ApprovalTargetTool::from_name(x.name()) == Some(x));
        },
    }
}

/// Every approval state parses back from its name, and a name parses only to the state it names.
pub proof fn lemma_approval_state_names(x: ApprovalState, raw: Seq<char>)
    ensures
        ApprovalState::from_name(x.name()) == Some(x),
        ApprovalState::from_name(raw) matches Some(y) ==> y.name() == raw,
{
    reveal_strlit("pending");
    reveal_strlit("granted");
    reveal_strlit("resuming");
    reveal_strlit("denied");
    reveal_strlit("consumed");
    assert("pending"@[0] != "granted"@[0]);
    assert("pending"@.len() != "resuming"@.len());
    assert("pending"@.len() != "denied"@.len());
    assert("pending"@.len() != "consumed"@.len());
    assert("granted"@.len() != "resuming"@.len());
    assert("granted"@.len() != "denied"@.len());
    assert("granted"@.len() != "consumed"@.len());
    assert("resuming"@.len() != "denied"@.len());
    assert("resuming"@[0] != "consumed"@[0]);
    assert("denied"@.len() != "consumed"@.len());
    match x {
        ApprovalState::Pending => {
            assert(ApprovalState::from_name(x.name()) == Some(x));
        },
        ApprovalState::Granted => {
            assert(ApprovalState::from_name(x.name()) == Some(x));
        },
        ApprovalState::Resuming => {
            assert(ApprovalState::from_name(x.name()) == Some(x));
        },
        ApprovalState::Denied => {
            assert(ApprovalState::from_name(x.name()) == Some(x));
        },
        ApprovalState::Consumed => {
            assert(ApprovalState::from_name(x.name()) == Some(x));
        },
    }
}

} // verus!
