//! The path sandbox: which workspace a file operation may touch, and the
//! isolation fixtures a runner deployment must respect.

use vstd::prelude::*;

use crate::domain::error::{ErrorBody, ErrorCode};
use crate::domain::ids::WorkspaceId;
use crate::policy::path::{resolve_path, resolve_spec};
use crate::policy::workspace::Workspace;
use crate::text::{chars_of, contains_run, vec_contains_run};

verus! {

/// User id the runner container runs as.
pub const RUNNER_UID: u32 = 10001;

/// Where the workspace is mounted in the runner container.
pub const WORKSPACE_MOUNT: &'static str = "/workspace";

/// Bind-mounts and secrets that must never appear in a runner container
/// definition.
pub fn forbidden_mount_markers() -> (r: Vec<&'static str>)
    ensures
        r@.map_values(|m: &'static str| m@) == seq![
            "/var/run/docker.sock"@,
            "/run/host-services/ssh-auth.sock"@,
            "${HOME}"@,
            "$HOME"@,
            "~/.ssh"@,
            ".env"@,
            "CODESPACE_HTTP_TOKEN"@,
            "*.sqlite"@,
        ],
{
    let mut v: Vec<&'static str> = Vec::new();
    v.push("/var/run/docker.sock");
    v.push("/run/host-services/ssh-auth.sock");
    v.push("${HOME}");
    v.push("$HOME");
    v.push("~/.ssh");
    v.push(".env");
    v.push("CODESPACE_HTTP_TOKEN");
    v.push("*.sqlite");
    proof {
        assert(v@.map_values(|m: &'static str| m@) =~= seq![
            "/var/run/docker.sock"@,
            "/run/host-services/ssh-auth.sock"@,
            "${HOME}"@,
            "$HOME"@,
            "~/.ssh"@,
            ".env"@,
            "CODESPACE_HTTP_TOKEN"@,
            "*.sqlite"@,
        ]);
    }
    v
}

/// Whether a container definition mentions `marker` anywhere.
pub fn compose_allows_marker(compose: &str, marker: &str) -> (r: bool)
    ensures
        r == contains_run(compose@, marker@),
{
    let c = chars_of(compose);
    let m = chars_of(marker);
    vec_contains_run(&c, &m)
}

/// The logical workspace a file operation is authorized against. It is
/// not the I/O safety boundary: file calls never follow symlinks.
#[derive(Debug, Clone)]
pub struct PathSandbox {
    workspace: Workspace,
}

impl PathSandbox {
    pub closed spec fn workspace_spec(&self) -> Workspace {
        self.workspace
    }

    pub fn new(workspace: Workspace) -> (r: Self)
        ensures
            r.workspace_spec() == workspace,
    {
        PathSandbox { workspace }
    }

    /// The same workspace with its root replaced, such as by the root's
    /// canonical form.
    pub fn rooted_at(&self, root: String) -> (r: Self)
        ensures
            r.workspace_spec().root == root,
            r.workspace_spec().id == self.workspace_spec().id,
            r.workspace_spec().profile == self.workspace_spec().profile,
            r.workspace_spec().environment_id == self.workspace_spec().environment_id,
            r.workspace_spec().environment_kind == self.workspace_spec().environment_kind,
            r.workspace_spec().network == self.workspace_spec().network,
    {
        let w = &self.workspace;
        PathSandbox {
            workspace: Workspace {
                id: WorkspaceId(w.id.0.clone()),
                root,
                profile: w.profile,
                environment_id: w.environment_id.clone(),
                environment_kind: w.environment_kind,
                network: w.network,
            },
        }
    }

    /// The workspace root.
    pub fn root(&self) -> (r: &str)
        ensures
            r@ == self.workspace_spec().root@,
    {
        self.workspace.root.as_str()
    }

    /// The host path a workspace-relative path denotes, under the path
    /// policy; what is found there is checked separately.
    pub fn locate(&self, relative: &str) -> (r: Result<String, ErrorBody>)
        ensures
            match r {
                Ok(p) => resolve_spec(self.workspace_spec().root@, relative@) == Ok::<
                    Seq<char>,
                    Seq<char>,
                >(p@),
                Err(e) => e.code == ErrorCode::PathEscape && e.operation_id is None
                    && resolve_spec(self.workspace_spec().root@, relative@) == Err::<
                    Seq<char>,
                    Seq<char>,
                >(e.message@),
            },
    {
        resolve_path(&self.workspace, relative)
    }
}

} // verus!
