//! The in-process sandbox adapter: the runner decides the filesystem and
//! network inputs, this builds the helper launch and its environment.

use vstd::prelude::*;

use crate::sandbox::helper::{is_forbidden_flag, PROXY_FLAG};
use crate::text::{concat3, str_eq, string_views};

verus! {

/// Environment variable that names the helper binary.
pub const HELPER_BIN_ENV: &'static str = "CODESPACE_LINUX_SANDBOX_BIN";

/// The helper's file name, looked up next to the current executable.
pub const HELPER_BIN_NAME: &'static str = "codespace-linux-sandbox";

/// `PATH` inside the sandbox. Host `HOME` and `~/.cargo/bin` are not
/// mounted for toolchain discovery.
pub const SANDBOX_PATH: &'static str = "/usr/local/bin:/usr/bin:/bin:/usr/local/sbin:/usr/sbin:/sbin";

/// The network setting this adapter supports: none at all.
#[derive(Debug, Clone, Copy, PartialEq, Eq, Structural)]
pub enum SandboxNetwork {
    Restricted,
}

/// Filesystem and network inputs the runner already decided.
#[derive(Debug, Clone, PartialEq, Eq)]
pub struct SandboxExecSpec {
    pub workspace_root: String,
    pub writable_workspace: bool,
    pub network: SandboxNetwork,
}

/// Helper program and argv: what is spawned in place of the user argv.
#[derive(Debug, Clone, PartialEq, Eq)]
pub struct SandboxLaunch {
    pub program: String,
    pub args: Vec<String>,
}

/// The environment applied after clearing the inherited one for a
/// sandboxed command, in key order: `HOME` stays the workspace root,
/// `LANG` is `C`, `PATH` is [`SANDBOX_PATH`] and `TMPDIR` is `/tmp`.
pub open spec fn sandbox_env_spec(home: Seq<char>) -> Seq<(Seq<char>, Seq<char>)> {
    seq![("HOME"@, home), ("LANG"@, "C"@), ("PATH"@, SANDBOX_PATH@), ("TMPDIR"@, "/tmp"@)]
}

/// The sandboxed command environment (see [`sandbox_env_spec`]).
pub fn sandbox_exec_env(home: &str) -> (r: Vec<(String, String)>)
    ensures
        r@.map_values(|p: (String, String)| (p.0@, p.1@)) == sandbox_env_spec(home@),
{
    let mut env: Vec<(String, String)> = Vec::new();
    env.push((String::from_str("HOME"), String::from_str(home)));
    env.push((String::from_str("LANG"), String::from_str("C")));
    env.push((String::from_str("PATH"), String::from_str(SANDBOX_PATH)));
    env.push((String::from_str("TMPDIR"), String::from_str("/tmp")));
    proof {
        assert(env@.map_values(|p: (String, String)| (p.0@, p.1@)) =~= sandbox_env_spec(home@));
    }
    env
}

/// The refusal when no helper binary can be found.
pub open spec fn helper_missing_message() -> Seq<char> {
    HELPER_BIN_ENV@ + " is unset and "@ + HELPER_BIN_NAME@
        + " was not found next to the executable"@
}

/// The message for a missing helper binary.
pub fn helper_missing() -> (r: String)
    ensures
        r@ == helper_missing_message(),
{
    let mut s = concat3(HELPER_BIN_ENV, " is unset and ", HELPER_BIN_NAME);
    s.append(" was not found next to the executable");
    s
}

/// A command must be a non-empty argv whose program is not empty.
pub fn check_command(command: &Vec<String>) -> (r: Result<(), String>)
    ensures
        r is Ok <==> command@.len() > 0 && command@[0]@.len() > 0,
        r matches Err(m) ==> m@ == "command must be a non-empty argv (no shell)"@,
{
    if command.len() == 0 || command[0].as_str().unicode_len() == 0 {
        Err(String::from_str("command must be a non-empty argv (no shell)"))
    } else {
        Ok(())
    }
}

/// A flag this adapter never passes: the forbidden helper flags and, with
/// only a restricted network, the proxy bridge too.
pub open spec fn is_refused_flag(a: Seq<char>) -> bool {
    is_forbidden_flag(a) || a == PROXY_FLAG@
}

/// Checks the sandbox builder's argv: none of the refused flags.
pub fn check_launch_args(args: &Vec<String>) -> (r: Result<(), String>)
    ensures
        r is Ok <==> forall|i: int| 0 <= i < args@.len() ==> !is_refused_flag(#[trigger] string_views(args@)[i]),
        r matches Err(m) ==> m@ == "linux sandbox argv included a forbidden helper flag"@,
{
    let mut i: usize = 0;
    while i < args.len()
        invariant
            i <= args@.len(),
            forall|k: int| 0 <= k < i ==> !is_refused_flag(#[trigger] string_views(args@)[k]),
        decreases args@.len() - i,
    {
        let a = args[i].as_str();
        proof {
            assert(string_views(args@)[i as int] == args@[i as int]@);
        }
        if str_eq(a, PROXY_FLAG) || str_eq(a, "--proxy-route-spec") || str_eq(
            a,
            "--not-a-security-boundary",
        ) || str_eq(a, "--use-legacy-landlock") {
            return Err(String::from_str("linux sandbox argv included a forbidden helper flag"));
        }
        i = i + 1;
    }
    Ok(())
}

/// The launch of `helper` with the checked sandbox argv.
pub fn launch(helper: &str, args: Vec<String>) -> (r: SandboxLaunch)
    ensures
        r.program@ == helper@,
        r.args@ == args@,
{
    SandboxLaunch { program: String::from_str(helper), args }
}

} // verus!
