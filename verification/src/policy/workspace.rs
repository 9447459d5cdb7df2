//! A registered workspace and the coarse allow decision.

use vstd::prelude::*;

use crate::domain::error::{ErrorBody, ErrorCode};
use crate::domain::ids::WorkspaceId;
use crate::domain::profile::Profile;
use crate::policy::environment::{
    require_exec, require_file_read, require_file_write, EnvironmentDispatchError,
    EnvironmentKind, DEFAULT_ENVIRONMENT_ID,
};
use crate::policy::permission::{NetworkAxis, PermissionProfile};

verus! {

/// What a tool call wants to do in a workspace.
#[derive(Debug, Clone, Copy, PartialEq, Eq, Structural)]
pub enum Action {
    Read,
    Write,
    Exec,
}

/// Client-supplied authorization theatre. Always ignored.
#[derive(Debug, Clone)]
pub struct ClientClaims {
    pub approved: Option<bool>,
    pub user_id: Option<String>,
}

impl Default for ClientClaims {
    fn default() -> (r: Self)
        ensures
            r.approved is None,
            r.user_id is None,
    {
        ClientClaims { approved: None, user_id: None }
    }
}

/// An operator-registered workspace. `root` is an absolute host path.
#[derive(Debug, Clone)]
pub struct Workspace {
    pub id: WorkspaceId,
    pub root: String,
    pub profile: Profile,
    pub environment_id: String,
    pub environment_kind: EnvironmentKind,
    /// Operator JSON, like `environment`. Not an MCP tool field.
    pub network: NetworkAxis,
}

/// The refusal a dispatch check turns into, if any.
pub open spec fn dispatch_outcome(r: Result<(), EnvironmentDispatchError>) -> Option<
    EnvironmentDispatchError,
> {
    match r {
        Ok(_) => None,
        Err(e) => Some(e),
    }
}

impl Workspace {
    /// A host workspace with the local environment and restricted network.
    pub fn new(id: WorkspaceId, root: String, profile: Profile) -> (r: Self)
        ensures
            r.id == id,
            r.root == root,
            r.profile == profile,
            r.environment_id@ == DEFAULT_ENVIRONMENT_ID@,
            r.environment_kind == EnvironmentKind::Host,
            r.network == NetworkAxis::Restricted,
    {
        Workspace {
            id,
            root,
            profile,
            environment_id: String::from_str(DEFAULT_ENVIRONMENT_ID),
            environment_kind: EnvironmentKind::Host,
            network: NetworkAxis::Restricted,
        }
    }

    pub fn require_exec(&self) -> (r: Result<(), ErrorBody>)
        ensures
            r is Ok <==> self.environment_kind == EnvironmentKind::Host,
            r matches Err(e) ==> e.code == ErrorCode::Unauthorized && e.operation_id is None
                && e.message@ == (EnvironmentDispatchError::UnsupportedExec {
                kind: self.environment_kind,
            }).message(),
    {
        match require_exec(self.environment_kind) {
            Ok(()) => Ok(()),
            Err(e) => Err(e.into_error_body()),
        }
    }

    pub fn require_file_read(&self) -> (r: Result<(), ErrorBody>)
        ensures
            r is Ok <==> self.environment_kind == EnvironmentKind::Host,
            r matches Err(e) ==> e.code == ErrorCode::Unauthorized && e.operation_id is None
                && e.message@ == (EnvironmentDispatchError::UnsupportedFileRead {
                kind: self.environment_kind,
            }).message(),
    {
        match require_file_read(self.environment_kind) {
            Ok(()) => Ok(()),
            Err(e) => Err(e.into_error_body()),
        }
    }

    pub fn require_file_write(&self) -> (r: Result<(), ErrorBody>)
        ensures
            r is Ok <==> self.environment_kind == EnvironmentKind::Host,
            r matches Err(e) ==> e.code == ErrorCode::Unauthorized && e.operation_id is None
                && e.message@ == (EnvironmentDispatchError::UnsupportedFileWrite {
                kind: self.environment_kind,
            }).message(),
    {
        match require_file_write(self.environment_kind) {
            Ok(()) => Ok(()),
            Err(e) => Err(e.into_error_body()),
        }
    }
}

/// Reads are always allowed; writes and exec need the workspace-write profile.
pub open spec fn allowed(profile: Profile, action: Action) -> bool {
    action == Action::Read || profile == Profile::WorkspaceWrite
}

/// `approved` / `user_id` never grant rights. Profile does.
pub fn allow(workspace: &Workspace, action: Action, claims: &ClientClaims) -> (r: Result<
    (),
    ErrorBody,
>)
    ensures
        r is Ok <==> allowed(workspace.profile, action),
        r matches Err(e) ==> e.code == ErrorCode::Unauthorized && e.message@
            == "workspace profile is read-only"@ && e.operation_id is None,
{
    let _ = claims;
    match action {
        Action::Read => Ok(()),
        Action::Write | Action::Exec => {
            let profile = PermissionProfile::from_workspace_profile(workspace.profile);
            if profile.allows(action) {
                Ok(())
            } else {
                Err(ErrorBody::new(ErrorCode::Unauthorized, "workspace profile is read-only"))
            }
        },
    }
}

} // verus!
