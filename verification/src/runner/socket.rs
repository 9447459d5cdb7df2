//! Private Unix-socket rendezvous: where the runner socket lives and
//! which directories may never hold it.

use vstd::prelude::*;

use crate::pathname::{components, components_of, is_absolute};
use crate::policy::path::stack_view;
use crate::sandbox::helper::{child_path, join_child};
use crate::text::{chars_eq, concat3, string_views};

verus! {

/// File name of the runner socket inside its private directory.
pub const RUNNER_SOCKET_NAME: &'static str = "runner.sock";

/// The socket path inside a runner directory.
pub fn runner_socket_path(dir: &str) -> (r: String)
    ensures
        r@ == child_path(dir@, RUNNER_SOCKET_NAME@),
{
    join_child(dir, RUNNER_SOCKET_NAME)
}

/// Two paths name the same place component by component.
pub open spec fn same_path(a: Seq<char>, b: Seq<char>) -> bool {
    is_absolute(a) == is_absolute(b) && components(a) == components(b)
}

/// The directories a runner socket may never live in directly: `/`,
/// `/tmp`, `/var/tmp`, and the home directory when it is set.
pub open spec fn forbidden_bases_spec(home: Option<Seq<char>>) -> Seq<Seq<char>> {
    let fixed = seq!["/"@, "/tmp"@, "/var/tmp"@];
    match home {
        Some(h) => if h.len() > 0 {
            fixed.push(h)
        } else {
            fixed
        },
        None => fixed,
    }
}

/// The forbidden directories for a home directory setting.
pub fn forbidden_runner_bases(home: Option<&str>) -> (r: Vec<String>)
    ensures
        string_views(r@) == forbidden_bases_spec(
            match home {
                Some(h) => Some(h@),
                None => None,
            },
        ),
{
    let mut v: Vec<String> = Vec::new();
    v.push(String::from_str("/"));
    v.push(String::from_str("/tmp"));
    v.push(String::from_str("/var/tmp"));
    match home {
        Some(h) => if h.unicode_len() > 0 {
            v.push(String::from_str(h));
        },
        None => {},
    }
    proof {
        let hv = match home {
            Some(h) => Some(h@),
            None => None,
        };
        assert(string_views(v@) =~= forbidden_bases_spec(hv));
    }
    v
}

/// Whether two paths name the same place.
pub fn same_place(a: &str, b: &str) -> (r: bool)
    ensures
        r == same_path(a@, b@),
{
    let abs_a = a.unicode_len() > 0 && a.get_char(0) == '/';
    let abs_b = b.unicode_len() > 0 && b.get_char(0) == '/';
    if abs_a != abs_b {
        return false;
    }
    let ca = components_of(a);
    let cb = components_of(b);
    proof {
        assert(stack_view(ca@).len() == ca@.len());
        assert(stack_view(cb@).len() == cb@.len());
    }
    if ca.len() != cb.len() {
        return false;
    }
    let mut i: usize = 0;
    while i < ca.len()
        invariant
            ca@.len() == cb@.len(),
            i <= ca@.len(),
            stack_view(ca@) == components(a@),
            stack_view(cb@) == components(b@),
            forall|k: int| 0 <= k < i ==> stack_view(ca@)[k] == stack_view(cb@)[k],
        decreases ca@.len() - i,
    {
        if !chars_eq(&ca[i], &cb[i]) {
            proof {
                assert(stack_view(ca@)[i as int] != stack_view(cb@)[i as int]);
            }
            return false;
        }
        i = i + 1;
    }
    proof {
        assert(stack_view(ca@) =~= stack_view(cb@));
    }
    true
}

/// A requested runner directory is refused when it is one of the
/// forbidden bases itself; a directory below one is allowed. Both sides
/// are compared as the caller resolved them.
pub fn is_forbidden_runner_dir(requested: &str, bases: &Vec<String>) -> (r: bool)
    ensures
        r == exists|i: int| 0 <= i < bases@.len() && same_path(requested@, #[trigger] bases@[i]@),
{
    let mut i: usize = 0;
    while i < bases.len()
        invariant
            i <= bases@.len(),
            forall|k: int| 0 <= k < i ==> !same_path(requested@, #[trigger] bases@[k]@),
        decreases bases@.len() - i,
    {
        if same_place(requested, bases[i].as_str()) {
            return true;
        }
        i = i + 1;
    }
    false
}

/// The refusal for a forbidden runner directory.
pub fn forbidden_dir_message(base: &str) -> (r: String)
    ensures
        r@ == "runner dir must not be /, /tmp, /var/tmp, or $HOME (got "@ + base@ + ")"@,
{
    concat3("runner dir must not be /, /tmp, /var/tmp, or $HOME (got ", base, ")")
}

/// What connecting to an existing rendezvous path found.
#[derive(Debug, Clone, Copy, PartialEq, Eq, Structural)]
pub enum ConnectProbe {
    /// A live listener answered.
    Live,
    NotFound,
    /// Nothing listens: a leftover socket file.
    Refused,
    /// Some other failure.
    Failed,
}

/// The next step in reclaiming a rendezvous path.
#[derive(Debug, Clone, Copy, PartialEq, Eq, Structural)]
pub enum ReclaimStep {
    /// A live runner owns the path: never unlink it.
    InUse,
    /// Nothing to reclaim.
    Free,
    /// Unlink the leftover file (a missing file counts as done).
    Unlink,
    /// Free only when the path no longer exists; otherwise the failure stands.
    FreeIfGone,
}

/// Live listeners are never unlinked; leftover refused sockets are;
/// missing paths are fine.
pub fn reclaim_step(probe: ConnectProbe) -> (r: ReclaimStep)
    ensures
        r == match probe {
            ConnectProbe::Live => ReclaimStep::InUse,
            ConnectProbe::NotFound => ReclaimStep::Free,
            ConnectProbe::Refused => ReclaimStep::Unlink,
            ConnectProbe::Failed => ReclaimStep::FreeIfGone,
        },
{
    match probe {
        ConnectProbe::Live => ReclaimStep::InUse,
        ConnectProbe::NotFound => ReclaimStep::Free,
        ConnectProbe::Refused => ReclaimStep::Unlink,
        ConnectProbe::Failed => ReclaimStep::FreeIfGone,
    }
}

/// The refusal when a live runner already listens on the path.
pub fn socket_in_use_message(path: &str) -> (r: String)
    ensures
        r@ == "runner socket is already in use at "@ + path@,
{
    crate::text::concat2("runner socket is already in use at ", path)
}

} // verus!
