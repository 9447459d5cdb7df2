//! `workspace_info`: what the server is and what it exposes.

use vstd::prelude::*;

use crate::domain::profile::Profile;
use crate::domain::tools::{
    live_tool_names, live_tools, SERVER_NAME, SERVER_VERSION, TRANSPORT_STDIO,
    TRANSPORT_STREAMABLE_HTTP,
};

verus! {

/// Optional selector. Not a credential.
#[derive(Debug, Clone, PartialEq, Eq)]
pub struct WorkspaceInfoParams {
    pub workspace_id: Option<String>,
}

impl Default for WorkspaceInfoParams {
    fn default() -> (r: Self)
        ensures
            r.workspace_id is None,
    {
        WorkspaceInfoParams { workspace_id: None }
    }
}

#[derive(Debug, Clone, PartialEq, Eq)]
pub struct WorkspaceInfo {
    pub server: String,
    pub version: String,
    pub internal_model_calls: bool,
    pub tools_exposed: Vec<String>,
    pub transports: Vec<String>,
    pub workspace_id: Option<String>,
    pub workspace_id_is_credential: bool,
    pub note: String,
    pub profile: Option<Profile>,
    pub root: Option<String>,
}

pub const WORKSPACE_INFO_NOTE: &'static str = "workspace_info, read, find, apply_patch, and operation_status are live. apply_patch records operations; the Codex engine lands in W06/W09. Exec is not exposed yet.";

/// Server description. The workspace id is echoed back as given; it is
/// never treated as a credential.
pub fn workspace_info(workspace_id: Option<String>) -> (r: WorkspaceInfo)
    ensures
        r.server@ == SERVER_NAME@,
        r.version@ == SERVER_VERSION@,
        !r.internal_model_calls,
        r.tools_exposed@.len() == live_tool_names().len(),
        forall|i: int|
            0 <= i < r.tools_exposed@.len() ==> #[trigger] r.tools_exposed@[i]@
                == live_tool_names()[i],
        r.transports@.len() == 2,
        r.transports@[0]@ == TRANSPORT_STDIO@,
        r.transports@[1]@ == TRANSPORT_STREAMABLE_HTTP@,
        r.workspace_id == workspace_id,
        !r.workspace_id_is_credential,
        r.note@ == WORKSPACE_INFO_NOTE@,
        r.profile is None,
        r.root is None,
{
    let names = live_tools();
    let mut tools: Vec<String> = Vec::new();
    let mut i: usize = 0;
    while i < names.len()
        invariant
            i <= names@.len(),
            names@.len() == live_tool_names().len(),
            forall|j: int| 0 <= j < names@.len() ==> #[trigger] names@[j]@ == live_tool_names()[j],
            tools@.len() == i,
            forall|j: int| 0 <= j < i ==> #[trigger] tools@[j]@ == live_tool_names()[j],
        decreases names@.len() - i,
    {
        tools.push(String::from_str(names[i]));
        i = i + 1;
    }
    WorkspaceInfo {
        server: String::from_str(SERVER_NAME),
        version: String::from_str(SERVER_VERSION),
        internal_model_calls: false,
        tools_exposed: tools,
        transports: vec![String::from_str(TRANSPORT_STDIO), String::from_str(TRANSPORT_STREAMABLE_HTTP)],
        workspace_id,
        workspace_id_is_credential: false,
        note: String::from_str(WORKSPACE_INFO_NOTE),
        profile: None,
        root: None,
    }
}

} // verus!
