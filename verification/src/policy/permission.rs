//! Gateway-owned permission domain. Path rules are expressed, not enforced.

use vstd::prelude::*;

use crate::domain::profile::Profile;
use crate::policy::workspace::Action;

verus! {

/// Read / Write / Deny on a path, glob, or special root.
#[derive(Debug, Clone, Copy, PartialEq, Eq, Structural)]
pub enum PathAccess {
    Read,
    Write,
    Deny,
}

/// Expressed path rule. Not consulted by live `apply_patch` authorization.
#[derive(Debug, Clone, PartialEq, Eq)]
pub struct PathRule {
    pub pattern: String,
    pub access: PathAccess,
}

/// Network axis is recorded only. It is not an allow engine.
#[derive(Debug, Clone, Copy, PartialEq, Eq, Structural)]
pub enum NetworkAxis {
    Restricted,
    Enabled,
}

impl Default for NetworkAxis {
    fn default() -> (r: Self)
        ensures
            r == NetworkAxis::Restricted,
    {
        NetworkAxis::Restricted
    }
}

/// Gateway-owned permission shape.
#[derive(Debug, Clone, PartialEq, Eq)]
pub struct PermissionProfile {
    pub paths: Vec<PathRule>,
    /// `Action::Exec` is this axis only. Write globs do not grant exec.
    pub process_exec: bool,
    pub network: NetworkAxis,
}

/// Some rule grants more than `Deny`.
pub open spec fn some_rule_reads(paths: Seq<PathRule>) -> bool {
    exists|i: int| 0 <= i < paths.len() && #[trigger] paths[i].access != PathAccess::Deny
}

/// Some rule grants `Write`.
pub open spec fn some_rule_writes(paths: Seq<PathRule>) -> bool {
    exists|i: int| 0 <= i < paths.len() && #[trigger] paths[i].access == PathAccess::Write
}

impl PermissionProfile {
    /// What the profile permits for `action`. The network axis never grants.
    pub open spec fn permits(&self, action: Action) -> bool {
        match action {
            Action::Read => some_rule_reads(self.paths@),
            Action::Write => some_rule_writes(self.paths@),
            Action::Exec => self.process_exec,
        }
    }

    /// Read-only: `**` readable, no exec. Workspace-write: `**` writable,
    /// exec allowed. Network stays restricted in both.
    pub fn from_workspace_profile(profile: Profile) -> (r: Self)
        ensures
            r.paths@.len() == 1,
            r.paths@[0].pattern@ == "**"@,
            r.paths@[0].access == (if profile == Profile::ReadOnly {
                PathAccess::Read
            } else {
                PathAccess::Write
            }),
            r.process_exec == (profile == Profile::WorkspaceWrite),
            r.network == NetworkAxis::Restricted,
    {
        match profile {
            Profile::ReadOnly => PermissionProfile {
                paths: vec![PathRule { pattern: String::from_str("**"), access: PathAccess::Read }],
                process_exec: false,
                network: NetworkAxis::Restricted,
            },
            Profile::WorkspaceWrite => PermissionProfile {
                paths: vec![PathRule { pattern: String::from_str("**"), access: PathAccess::Write }],
                process_exec: true,
                network: NetworkAxis::Restricted,
            },
        }
    }

    pub fn allows(&self, action: Action) -> (r: bool)
        ensures
            r == self.permits(action),
    {
        match action {
            Action::Read => {
                let mut i: usize = 0;
                while i < self.paths.len()
                    invariant
                        i <= self.paths@.len(),
                        action == Action::Read,
                        forall|j: int| 0 <= j < i ==> #[trigger] self.paths@[j].access == PathAccess::Deny,
                    decreases self.paths@.len() - i,
                {
                    if self.paths[i].access != PathAccess::Deny {
                        proof {
                            assert(self.paths@[i as int].access != PathAccess::Deny);
                        }
                        return true;
                    }
                    i = i + 1;
                }
                false
            },
            Action::Write => {
                let mut i: usize = 0;
                while i < self.paths.len()
                    invariant
                        i <= self.paths@.len(),
                        action == Action::Write,
                        forall|j: int| 0 <= j < i ==> #[trigger] self.paths@[j].access != PathAccess::Write,
                    decreases self.paths@.len() - i,
                {
                    if self.paths[i].access == PathAccess::Write {
                        proof {
                            assert(self.paths@[i as int].access == PathAccess::Write);
                        }
                        return true;
                    }
                    i = i + 1;
                }
                false
            },
            Action::Exec => self.process_exec,
        }
    }
}

} // verus!
