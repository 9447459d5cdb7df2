//! Coarse workspace profile registered by the operator.

use vstd::prelude::*;

verus! {

/// Operator-chosen workspace profile. Read-only unless stated otherwise.
#[derive(Debug, Clone, Copy, PartialEq, Eq, Structural)]
pub enum Profile {
    ReadOnly,
    WorkspaceWrite,
}

impl Default for Profile {
    fn default() -> (r: Self)
        ensures
            r == Profile::ReadOnly,
    {
        Profile::ReadOnly
    }
}

impl Profile {
    /// Only `WorkspaceWrite` may patch files or run commands.
    pub fn allows_mutation(self) -> (r: bool)
        ensures
            r == (self == Profile::WorkspaceWrite),
    {
        matches!(self, Profile::WorkspaceWrite)
    }
}

} // verus!
