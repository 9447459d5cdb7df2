//! The patch helper process's answer, turned into files and changes or a
//! refusal.

use vstd::prelude::*;

use crate::domain::error::{ErrorBody, ErrorCode};
use crate::domain::patch::FileChange;
use crate::runner::output::{decode_lossy, lossy_decode};
use crate::patch::plan::ApplyOutcome;
use crate::text::{concat2, str_eq};

verus! {

/// Largest stdout or stderr accepted from the helper, in bytes.
pub const HELPER_IO_LIMIT: usize = 1048576;

/// Environment variable that names the patch helper binary.
pub const PATCH_BIN_ENV: &'static str = "CODESPACE_PATCH_BIN";

/// The refusal when no patch helper can be found.
pub const PATCH_HELPER_MISSING: &'static str =
    "CODESPACE_PATCH_BIN is unset and codespace-patch was not found next to codespace-mcp";

/// The helper's JSON answer.
#[derive(Debug, Clone, PartialEq, Eq)]
pub struct HelperResponse {
    pub ok: bool,
    pub files: Option<Vec<String>>,
    pub changes: Option<Vec<FileChange>>,
    pub code: Option<ErrorCode>,
    pub message: Option<String>,
}

/// Files and changes the helper reports for a preflight or an apply.
#[derive(Debug, Clone, PartialEq, Eq)]
pub struct HelperSuccess {
    pub files: Vec<String>,
    pub changes: Vec<FileChange>,
}

/// How the helper's finished run is judged: oversized output first, then
/// a failed exit (its stderr, decoded lossily, is the message), then a
/// JSON answer that did not parse (`Err` holds the parser's message), then
/// the answer itself. `r` is the verdict.
pub open spec fn helper_verdict(
    stdout_len: nat,
    stderr: Seq<u8>,
    exit_success: bool,
    response: Result<HelperResponse, String>,
    r: Result<HelperSuccess, ErrorBody>,
) -> bool {
    &&& r matches Err(e) ==> e.operation_id is None
    &&& if stdout_len > HELPER_IO_LIMIT || stderr.len() > HELPER_IO_LIMIT {
        r matches Err(e) && e.code == ErrorCode::OutputLimit && e.message@
            == "patch helper output exceeded 1 MiB"@
    } else if !exit_success {
        r matches Err(e) && e.code == ErrorCode::InvalidPatch && e.message@ == lossy_decode(stderr)
    } else {
        match response {
            Err(m) => r matches Err(e) && e.code == ErrorCode::InvalidPatch && e.message@
                == "patch helper returned invalid JSON: "@ + m@,
            Ok(resp) => if resp.ok {
                r matches Ok(s) && s.files@ == (match resp.files {
                    Some(f) => f@,
                    None => Seq::empty(),
                }) && s.changes@ == (match resp.changes {
                    Some(c) => c@,
                    None => Seq::empty(),
                })
            } else {
                r matches Err(e) && e.code == (match resp.code {
                    Some(c) => c,
                    None => ErrorCode::InvalidPatch,
                }) && e.message@ == (match resp.message {
                    Some(m) => m@,
                    None => "patch helper failed"@,
                })
            },
        }
    }
}

/// The helper's finished run as files and changes, or a refusal (see
/// [`helper_verdict`]).
pub fn helper_outcome(
    stdout_len: usize,
    stderr: &[u8],
    exit_success: bool,
    response: Result<HelperResponse, String>,
) -> (r: Result<HelperSuccess, ErrorBody>)
    ensures
        helper_verdict(stdout_len as nat, stderr@, exit_success, response, r),
{
    if stdout_len > HELPER_IO_LIMIT || stderr.len() > HELPER_IO_LIMIT {
        return Err(ErrorBody::new(ErrorCode::OutputLimit, "patch helper output exceeded 1 MiB"));
    }
    if !exit_success {
        let text = decode_lossy(stderr);
        return Err(ErrorBody::new(ErrorCode::InvalidPatch, text.as_str()));
    }
    match response {
        Err(m) => {
            let text = concat2("patch helper returned invalid JSON: ", m.as_str());
            Err(ErrorBody::new(ErrorCode::InvalidPatch, text.as_str()))
        },
        Ok(resp) => {
            if resp.ok {
                let files = match resp.files {
                    Some(f) => f,
                    None => Vec::new(),
                };
                let changes = match resp.changes {
                    Some(c) => c,
                    None => Vec::new(),
                };
                Ok(HelperSuccess { files, changes })
            } else {
                let code = match resp.code {
                    Some(c) => c,
                    None => ErrorCode::InvalidPatch,
                };
                match resp.message {
                    Some(m) => Err(ErrorBody::new(code, m.as_str())),
                    None => Err(ErrorBody::new(code, "patch helper failed")),
                }
            }
        },
    }
}

/// The check-only flag a helper operation runs with: `preflight` always
/// only checks, `apply` does as asked, anything else is refused.
pub fn helper_op(op: &str, check_only: bool) -> (r: Result<bool, ErrorBody>)
    ensures
        op@ == "preflight"@ ==> r == Ok::<bool, ErrorBody>(true),
        op@ == "apply"@ ==> r == Ok::<bool, ErrorBody>(check_only),
        op@ != "preflight"@ && op@ != "apply"@ ==> (r matches Err(e) && e.code
            == ErrorCode::InvalidPatch && e.message@ == "unknown helper op "@ + op@
            && e.operation_id is None),
{
    proof {
        reveal_strlit("apply");
        reveal_strlit("preflight");
        assert("apply"@.len() != "preflight"@.len());
    }
    if str_eq(op, "preflight") {
        Ok(true)
    } else if str_eq(op, "apply") {
        Ok(check_only)
    } else {
        let m = concat2("unknown helper op ", op);
        Err(ErrorBody::new(ErrorCode::InvalidPatch, m.as_str()))
    }
}

/// What the helper answers for an outcome: files and changes on success,
/// the refusal's code and message otherwise.
pub open spec fn answers(outcome: Result<ApplyOutcome, ErrorBody>, r: HelperResponse) -> bool {
    match outcome {
        Ok(a) => r.ok && r.files == Some(a.files) && r.changes == Some(a.changes) && r.code is None
            && r.message is None,
        Err(e) => !r.ok && r.files is None && r.changes is None && r.code == Some(e.code)
            && r.message == Some(e.message),
    }
}

/// The helper's answer for an outcome (see [`answers`]).
pub fn helper_response(outcome: Result<ApplyOutcome, ErrorBody>) -> (r: HelperResponse)
    ensures
        answers(outcome, r),
{
    match outcome {
        Ok(a) => HelperResponse {
            ok: true,
            files: Some(a.files),
            changes: Some(a.changes),
            code: None,
            message: None,
        },
        Err(e) => HelperResponse {
            ok: false,
            files: None,
            changes: None,
            code: Some(e.code),
            message: Some(e.message),
        },
    }
}

/// What the helper answers, the runner reads back unchanged: a success
/// keeps its files and changes, a refusal its code and message, as long
/// as the helper exited cleanly within the output limit.
pub proof fn lemma_helper_answer_round_trip(
    outcome: Result<ApplyOutcome, ErrorBody>,
    resp: HelperResponse,
    stdout_len: nat,
    back: Result<HelperSuccess, ErrorBody>,
)
    requires
        answers(outcome, resp),
        stdout_len <= HELPER_IO_LIMIT,
        helper_verdict(stdout_len, Seq::empty(), true, Ok(resp), back),
    ensures
        match outcome {
            Ok(a) => back matches Ok(s) && s.files@ == a.files@ && s.changes@ == a.changes@,
            Err(e) => back matches Err(b) && b.code == e.code && b.message@ == e.message@,
        },
{
}

} // verus!
