//! What a host exec request turns into before any process is spawned.

use vstd::prelude::*;

use crate::domain::error::{ErrorBody, ErrorCode};
use crate::policy::environment::EnvironmentKind;
use crate::policy::workspace::Workspace;
use crate::runner::api::{runner_local_exec_env, RunnerExecRequest, FALLBACK_EXEC_PATH};
use crate::text::string_views;

verus! {

/// Everything needed to start one managed process. The request's own
/// environment overrides are applied after `defaults`.
#[derive(Debug)]
pub struct SpawnPlan {
    pub process_id: String,
    pub program: String,
    pub args: Vec<String>,
    pub cwd: String,
    pub defaults: Vec<(String, String)>,
    pub tty: bool,
    pub output_cap: usize,
    pub timeout_ms: u64,
}

/// Each pair of strings by its characters.
pub open spec fn pair_views(v: Seq<(String, String)>) -> Seq<(Seq<char>, Seq<char>)> {
    v.map_values(|p: (String, String)| (p.0@, p.1@))
}

/// The runner's own environment for a command in `home`: `HOME`, `LANG`,
/// `PATH`, and `TERM=xterm` for a terminal.
pub open spec fn default_env(path_var: Option<Seq<char>>, home: Seq<char>, tty: bool) -> Seq<
    (Seq<char>, Seq<char>),
> {
    let base = seq![
        ("HOME"@, home),
        ("LANG"@, "C"@),
        (
            "PATH"@,
            match path_var {
                Some(p) => p,
                None => FALLBACK_EXEC_PATH@,
            },
        ),
    ];
    if tty {
        base.push(("TERM"@, "xterm"@))
    } else {
        base
    }
}

/// The refusal for an empty command.
pub open spec fn is_empty_command_error(e: ErrorBody) -> bool {
    e.code == ErrorCode::InvalidPatch && e.message@ == "command must be a non-empty argv (no shell)"@
        && e.operation_id is None
}

/// Checks a host exec request and plans the process: only a host
/// environment runs commands, and the command must be a non-empty argv.
/// The output cap and time limit are at least one. `path_var` is the
/// runner's own `PATH`.
pub fn plan_spawn(ws: &Workspace, req: &RunnerExecRequest, path_var: Option<&str>) -> (r: Result<
    SpawnPlan,
    ErrorBody,
>)
    ensures
        ws.environment_kind != EnvironmentKind::Host ==> (r matches Err(e) && e.code
            == ErrorCode::Unauthorized),
        ws.environment_kind == EnvironmentKind::Host && (req.argv@.len() == 0
            || req.argv@[0]@.len() == 0) ==> (r matches Err(e) && is_empty_command_error(e)),
        r is Ok <==> ws.environment_kind == EnvironmentKind::Host && req.argv@.len() > 0
            && req.argv@[0]@.len() > 0,
        r matches Ok(p) ==> {
            &&& p.process_id@ == req.process_id.0@
            &&& p.program@ == req.argv@[0]@
            &&& string_views(p.args@) == string_views(req.argv@).subrange(1, req.argv@.len() as int)
            &&& p.cwd@ == ws.root@
            &&& pair_views(p.defaults@) == if req.env.use_runner_defaults {
                default_env(
                    match path_var {
                        Some(s) => Some(s@),
                        None => None,
                    },
                    ws.root@,
                    req.tty,
                )
            } else {
                Seq::empty()
            }
            &&& p.tty == req.tty
            &&& p.output_cap == (if req.output_bytes_cap == 0 {
                1
            } else {
                req.output_bytes_cap
            }) as usize
            &&& p.timeout_ms == if req.timeout_ms == 0 {
                1
            } else {
                req.timeout_ms
            }
        },
{
    ws.require_exec()?;
    if req.argv.len() == 0 || req.argv[0].as_str().unicode_len() == 0 {
        return Err(ErrorBody::new(ErrorCode::InvalidPatch, "command must be a non-empty argv (no shell)"));
    }
    let cap: u64 = if req.output_bytes_cap == 0 {
        1
    } else {
        req.output_bytes_cap
    };
    let timeout_ms: u64 = if req.timeout_ms == 0 {
        1
    } else {
        req.timeout_ms
    };
    let mut args: Vec<String> = Vec::new();
    let mut i: usize = 1;
    while i < req.argv.len()
        invariant
            1 <= i <= req.argv@.len(),
            string_views(args@) == string_views(req.argv@).subrange(1, i as int),
        decreases req.argv@.len() - i,
    {
        let ghost before = args@;
        args.push(req.argv[i].clone());
        proof {
            assert(string_views(args@) =~= string_views(before).push(req.argv@[i as int]@));
            assert(string_views(req.argv@).subrange(1, i + 1) =~= string_views(req.argv@).subrange(
                1,
                i as int,
            ).push(req.argv@[i as int]@));
        }
        i = i + 1;
    }
    let mut defaults: Vec<(String, String)> = Vec::new();
    if req.env.use_runner_defaults {
        defaults = runner_local_exec_env(path_var, ws.root.as_str());
        if req.tty {
            defaults.push((String::from_str("TERM"), String::from_str("xterm")));
        }
        proof {
            let pv = match path_var {
                Some(s) => Some(s@),
                None => None,
            };
            assert(pair_views(defaults@) =~= default_env(pv, ws.root@, req.tty));
        }
    } else {
        proof {
            assert(pair_views(defaults@) =~= Seq::<(Seq<char>, Seq<char>)>::empty());
        }
    }
    Ok(
        SpawnPlan {
            process_id: req.process_id.0.clone(),
            program: req.argv[0].clone(),
            args,
            cwd: ws.root.clone(),
            defaults,
            tty: req.tty,
            output_cap: cap as usize,
            timeout_ms,
        },
    )
}

} // verus!
