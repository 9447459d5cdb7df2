//! Workspace filesystem observation. Events are invalidation hints only:
//! missing, coalesced or restarted watches never weaken version checks.

use vstd::prelude::*;

use crate::pathname::{is_absolute, strip_prefix_spec};
use crate::policy::path::join_components;
use crate::sandbox::helper::{child_path, join_child};
use crate::text::{replace_char, str_eq, string_views};

verus! {

/// One observation from a live watcher. `seq` is that watcher's delivery
/// order within `epoch`, not a filesystem revision.
#[derive(Debug, Clone, PartialEq, Eq)]
pub struct FsWatchEvent {
    pub epoch: u64,
    pub seq: u64,
    pub kind: FsWatchKind,
}

/// What changed, by workspace-relative name.
#[derive(Debug, Clone, PartialEq, Eq)]
pub enum FsWatchKind {
    Create { path: String },
    Modify { path: String },
    Remove { path: String },
    Rename { from: String, to: String },
    /// Anything may have changed: drop what was cached.
    ResyncRequired,
}

/// The watcher is gone; the subscriber cannot recover from this stream.
#[derive(Debug, Clone, Copy, PartialEq, Eq, Structural)]
pub struct WatchClosed;

impl FsWatchKind {
    /// The names an event is about, in order.
    pub open spec fn path_views(&self) -> Seq<Seq<char>> {
        match self {
            FsWatchKind::Create { path } => seq![path@],
            FsWatchKind::Modify { path } => seq![path@],
            FsWatchKind::Remove { path } => seq![path@],
            FsWatchKind::Rename { from, to } => seq![from@, to@],
            FsWatchKind::ResyncRequired => Seq::empty(),
        }
    }

    /// The names this event is about: one, both sides of a rename, or none
    /// for a resync.
    pub fn paths(&self) -> (r: Vec<&str>)
        ensures
            r@.map_values(|s: &str| s@) == self.path_views(),
    {
        let mut v: Vec<&str> = Vec::new();
        match self {
            FsWatchKind::Create { path } => v.push(path.as_str()),
            FsWatchKind::Modify { path } => v.push(path.as_str()),
            FsWatchKind::Remove { path } => v.push(path.as_str()),
            FsWatchKind::Rename { from, to } => {
                v.push(from.as_str());
                v.push(to.as_str());
            },
            FsWatchKind::ResyncRequired => {},
        }
        proof {
            assert(v@.map_values(|s: &str| s@) =~= self.path_views());
        }
        v
    }

    /// Whether this event names `path`.
    pub fn touches(&self, path: &str) -> (r: bool)
        ensures
            r == self.path_views().contains(path@),
    {
        let ps = self.paths();
        let ghost views = ps@.map_values(|s: &str| s@);
        let mut i: usize = 0;
        while i < ps.len()
            invariant
                i <= ps@.len(),
                views == ps@.map_values(|s: &str| s@),
                views == self.path_views(),
                forall|k: int| 0 <= k < i ==> views[k] != path@,
            decreases ps@.len() - i,
        {
            if str_eq(ps[i], path) {
                proof {
                    assert(views[i as int] == path@);
                }
                return true;
            }
            i = i + 1;
        }
        false
    }
}

/// A rename seen from inside the workspace: both sides inside is a
/// rename, leaving is a removal of the source, entering is a creation of
/// the destination, and a rename entirely outside is nothing.
pub open spec fn rename_sides_spec(from: Option<Seq<char>>, to: Option<Seq<char>>) -> Option<
    (u8, Seq<char>, Seq<char>),
> {
    match (from, to) {
        (Some(f), Some(t)) => Some((3u8, f, t)),
        (Some(f), None) => Some((2u8, f, Seq::empty())),
        (None, Some(t)) => Some((0u8, t, Seq::empty())),
        (None, None) => None,
    }
}

/// An event kind by its plain values: a tag (create 0, modify 1, remove 2,
/// rename 3, resync 4) and its names.
pub open spec fn kind_view(k: FsWatchKind) -> (u8, Seq<char>, Seq<char>) {
    match k {
        FsWatchKind::Create { path } => (0u8, path@, Seq::empty()),
        FsWatchKind::Modify { path } => (1u8, path@, Seq::empty()),
        FsWatchKind::Remove { path } => (2u8, path@, Seq::empty()),
        FsWatchKind::Rename { from, to } => (3u8, from@, to@),
        FsWatchKind::ResyncRequired => (4u8, Seq::empty(), Seq::empty()),
    }
}

pub open spec fn opt_view(o: Option<String>) -> Option<Seq<char>> {
    match o {
        Some(s) => Some(s@),
        None => None,
    }
}

/// Each side of a rename is classified on its own (see
/// [`rename_sides_spec`]).
pub fn map_rename_sides(from: Option<String>, to: Option<String>) -> (r: Option<FsWatchKind>)
    ensures
        match r {
            Some(k) => rename_sides_spec(opt_view(from), opt_view(to)) == Some(kind_view(k)),
            None => rename_sides_spec(opt_view(from), opt_view(to)) is None,
        },
{
    match (from, to) {
        (Some(from), Some(to)) => Some(FsWatchKind::Rename { from, to }),
        (Some(from), None) => Some(FsWatchKind::Remove { path: from }),
        (None, Some(to)) => Some(FsWatchKind::Create { path: to }),
        (None, None) => None,
    }
}

/// A path's name under `root`: lexical only, never empty, never climbing
/// with `..`. File type and access policy are not consulted.
pub open spec fn strip_under_spec(root: Seq<char>, abs: Seq<char>) -> Option<Seq<char>> {
    match strip_prefix_spec(root, abs) {
        Some(rest) => if rest.len() == 0 || rest.contains(".."@) {
            None
        } else {
            Some(replace_char(join_components(rest), '\\', '/'))
        },
        None => None,
    }
}

/// A path's name under `root` (see [`strip_under_spec`]).
pub fn strip_under(root: &str, abs: &str) -> (r: Option<String>)
    ensures
        opt_view(r) == strip_under_spec(root@, abs@),
{
    let r = crate::pathname::components_of(root);
    let a = crate::pathname::components_of(abs);
    match crate::pathname::strip_prefix(root, abs) {
        None => None,
        Some(text) => {
            let ghost rest = match strip_prefix_spec(root@, abs@) {
                Some(x) => x,
                None => Seq::empty(),
            };
            let n = r.len();
            if a.len() <= n {
                proof {
                    assert(rest.len() == 0);
                }
                return None;
            }
            let mut k: usize = n;
            while k < a.len()
                invariant
                    n <= k <= a@.len(),
                    crate::policy::path::stack_view(a@) == crate::pathname::components(abs@),
                    crate::policy::path::stack_view(r@) == crate::pathname::components(root@),
                    n == r@.len(),
                    strip_prefix_spec(root@, abs@) == Some(rest),
                    rest == crate::policy::path::stack_view(a@).subrange(n as int, a@.len() as int),
                    forall|j: int| n <= j < k ==> crate::policy::path::stack_view(a@)[j] != ".."@,
                decreases a@.len() - k,
            {
                let is_dots = a[k].len() == 2 && a[k][0] == '.' && a[k][1] == '.';
                proof {
                    assert(crate::policy::path::stack_view(a@)[k as int] == a@[k as int]@);
                    if a@[k as int]@ == ".."@ {
                        reveal_strlit("..");
                        assert(a@[k as int]@.len() == 2);
                    }
                    if is_dots {
                        reveal_strlit("..");
                        assert(a@[k as int]@ =~= ".."@);
                        assert(rest[k - n] == ".."@);
                    }
                }
                if is_dots {
                    return None;
                }
                k = k + 1;
            }
            proof {
                if rest.contains(".."@) {
                    let j = choose|j: int| 0 <= j < rest.len() && rest[j] == ".."@;
                    assert(crate::policy::path::stack_view(a@)[j + n] == ".."@);
                }
            }
            Some(crate::runner::listing::normalize_rel(text.as_str()))
        },
    }
}

/// An event path as a workspace name: relative paths are taken under the
/// primary root; the first root (canonical or as registered) it lies
/// under names it.
pub open spec fn event_name_spec(roots: Seq<Seq<char>>, path: Seq<char>) -> Option<Seq<char>> {
    if roots.len() == 0 {
        None
    } else {
        let abs = if is_absolute(path) {
            path
        } else {
            child_path(roots[0], path)
        };
        first_under(roots, abs, 0)
    }
}

/// The name `abs` has under the first of `roots[i..]` it lies under.
pub open spec fn first_under(roots: Seq<Seq<char>>, abs: Seq<char>, i: int) -> Option<Seq<char>>
    decreases roots.len() - i,
{
    if i < 0 || i >= roots.len() {
        None
    } else {
        match strip_under_spec(roots[i], abs) {
            Some(n) => Some(n),
            None => first_under(roots, abs, i + 1),
        }
    }
}

/// An event path as a workspace name (see [`event_name_spec`]).
pub fn workspace_relative_event_path(roots: &Vec<String>, path: &str) -> (r: Option<String>)
    ensures
        opt_view(r) == event_name_spec(string_views(roots@), path@),
{
    if roots.len() == 0 {
        return None;
    }
    let abs = if path.unicode_len() > 0 && path.get_char(0) == '/' {
        String::from_str(path)
    } else {
        join_child(roots[0].as_str(), path)
    };
    let ghost views = string_views(roots@);
    proof {
        assert(views[0] == roots@[0]@);
    }
    let mut i: usize = 0;
    while i < roots.len()
        invariant
            i <= roots@.len(),
            views == string_views(roots@),
            views.len() > 0,
            event_name_spec(views, path@) == first_under(views, abs@, i as int),
        decreases roots@.len() - i,
    {
        proof {
            assert(views[i as int] == roots@[i as int]@);
        }
        match strip_under(roots[i].as_str(), abs.as_str()) {
            Some(n) => return Some(n),
            None => {},
        }
        i = i + 1;
    }
    None
}

/// How a rename was reported.
#[derive(Debug, Clone, Copy, PartialEq, Eq, Structural)]
pub enum RenameMode {
    /// Both sides in one event.
    Both,
    From,
    To,
    Any,
    Other,
}

/// The kinds of raw notifications the watcher distinguishes.
#[derive(Debug, Clone, Copy, PartialEq, Eq, Structural)]
pub enum NotifyKind {
    Access,
    Other,
    Any,
    Create,
    Remove,
    Rename(RenameMode),
    Modify,
}

/// One event per name, each made by `tag` (create 0, modify 1, remove 2).
pub open spec fn per_name(tag: u8, names: Seq<Option<Seq<char>>>) -> Seq<(u8, Seq<char>, Seq<char>)>
    decreases names.len(),
{
    if names.len() == 0 {
        Seq::empty()
    } else {
        let prev = per_name(tag, names.drop_last());
        match names.last() {
            Some(n) => prev.push((tag, n, Seq::empty())),
            None => prev,
        }
    }
}

pub open spec fn some_count(names: Seq<Option<Seq<char>>>) -> nat
    decreases names.len(),
{
    if names.len() == 0 {
        0
    } else {
        some_count(names.drop_last()) + if names.last() is Some {
            1nat
        } else {
            0nat
        }
    }
}

/// The events a raw notification becomes, given each reported path's
/// workspace name (`None` outside the workspace). A notification asking
/// for a rescan, an unknown one, and an unspecific one with no paths at
/// all are resyncs; access is nothing; renames map each side on its own.
pub open spec fn events_spec(kind: NotifyKind, need_rescan: bool, names: Seq<Option<Seq<char>>>) -> Seq<
    (u8, Seq<char>, Seq<char>),
> {
    let resync = seq![(4u8, Seq::<char>::empty(), Seq::<char>::empty())];
    if need_rescan {
        resync
    } else {
        match kind {
            NotifyKind::Access => Seq::empty(),
            NotifyKind::Other => resync,
            NotifyKind::Any => if some_count(names) == 0 {
                if names.len() == 0 {
                    resync
                } else {
                    Seq::empty()
                }
            } else {
                per_name(1u8, names)
            },
            NotifyKind::Create => per_name(0u8, names),
            NotifyKind::Remove => per_name(2u8, names),
            NotifyKind::Modify => per_name(1u8, names),
            NotifyKind::Rename(mode) => match mode {
                RenameMode::From => per_name(2u8, names),
                RenameMode::To => per_name(0u8, names),
                RenameMode::Both => if names.len() >= 2 {
                    match rename_sides_spec(names[0], names[1]) {
                        Some(k) => seq![k],
                        None => Seq::empty(),
                    }
                } else {
                    per_name(1u8, names)
                },
                _ => if names.len() >= 2 {
                    match rename_sides_spec(names[0], names[1]) {
                        Some(k) => seq![k],
                        None => Seq::empty(),
                    }
                } else {
                    per_name(1u8, names)
                },
            },
        }
    }
}

pub open spec fn kind_views(v: Seq<FsWatchKind>) -> Seq<(u8, Seq<char>, Seq<char>)> {
    v.map_values(|k: FsWatchKind| kind_view(k))
}

pub open spec fn name_views(v: Seq<Option<String>>) -> Seq<Option<Seq<char>>> {
    v.map_values(|o: Option<String>| opt_view(o))
}

fn make_kind(tag: u8, name: String) -> (r: FsWatchKind)
    requires
        tag <= 2,
    ensures
        kind_view(r) == (tag, name@, Seq::<char>::empty()),
{
    if tag == 0 {
        FsWatchKind::Create { path: name }
    } else if tag == 1 {
        FsWatchKind::Modify { path: name }
    } else {
        FsWatchKind::Remove { path: name }
    }
}

fn per_name_exec(tag: u8, names: &Vec<Option<String>>) -> (r: Vec<FsWatchKind>)
    requires
        tag <= 2,
    ensures
        kind_views(r@) == per_name(tag, name_views(names@)),
{
    let mut out: Vec<FsWatchKind> = Vec::new();
    let mut i: usize = 0;
    while i < names.len()
        invariant
            tag <= 2,
            i <= names@.len(),
            kind_views(out@) == per_name(tag, name_views(names@).subrange(0, i as int)),
        decreases names@.len() - i,
    {
        let ghost sub = name_views(names@).subrange(0, i + 1);
        proof {
            assert(sub.drop_last() =~= name_views(names@).subrange(0, i as int));
            assert(sub.last() == opt_view(names@[i as int]));
        }
        match &names[i] {
            Some(n) => {
                let ghost before = out@;
                out.push(make_kind(tag, n.clone()));
                proof {
                    assert(kind_views(out@) =~= kind_views(before).push(kind_view(out@[before.len() as int])));
                }
            },
            None => {},
        }
        i = i + 1;
    }
    proof {
        assert(name_views(names@).subrange(0, names@.len() as int) =~= name_views(names@));
    }
    out
}

fn count_named(names: &Vec<Option<String>>) -> (r: usize)
    ensures
        r == some_count(name_views(names@)),
{
    let mut c: usize = 0;
    let mut i: usize = 0;
    while i < names.len()
        invariant
            i <= names@.len(),
            c <= i,
            c == some_count(name_views(names@).subrange(0, i as int)),
        decreases names@.len() - i,
    {
        let ghost sub = name_views(names@).subrange(0, i + 1);
        proof {
            assert(sub.drop_last() =~= name_views(names@).subrange(0, i as int));
            assert(sub.last() == opt_view(names@[i as int]));
        }
        if names[i].is_some() {
            c = c + 1;
        }
        i = i + 1;
    }
    proof {
        assert(name_views(names@).subrange(0, names@.len() as int) =~= name_views(names@));
    }
    c
}

fn clone_name(o: &Option<String>) -> (r: Option<String>)
    ensures
        opt_view(r) == opt_view(*o),
{
    match o {
        Some(s) => Some(s.clone()),
        None => None,
    }
}

fn rename_of_first_two(names: &Vec<Option<String>>) -> (r: Vec<FsWatchKind>)
    requires
        names@.len() >= 2,
    ensures
        kind_views(r@) == match rename_sides_spec(opt_view(names@[0]), opt_view(names@[1])) {
            Some(k) => seq![k],
            None => Seq::empty(),
        },
{
    let mut out: Vec<FsWatchKind> = Vec::new();
    match map_rename_sides(clone_name(&names[0]), clone_name(&names[1])) {
        Some(k) => out.push(k),
        None => {},
    }
    proof {
        assert(kind_views(out@) =~= match rename_sides_spec(opt_view(names@[0]), opt_view(names@[1])) {
            Some(k) => seq![k],
            None => Seq::empty(),
        });
    }
    out
}

/// The events one raw notification becomes (see [`events_spec`]).
/// `names` holds each reported path's workspace name.
pub fn event_kinds(kind: NotifyKind, need_rescan: bool, names: &Vec<Option<String>>) -> (r: Vec<
    FsWatchKind,
>)
    ensures
        kind_views(r@) == events_spec(kind, need_rescan, name_views(names@)),
{
    let mut resync: Vec<FsWatchKind> = Vec::new();
    resync.push(FsWatchKind::ResyncRequired);
    proof {
        assert(kind_views(resync@) =~= seq![(4u8, Seq::<char>::empty(), Seq::<char>::empty())]);
    }
    if need_rescan {
        return resync;
    }
    match kind {
        NotifyKind::Access => {
            let v: Vec<FsWatchKind> = Vec::new();
            proof {
                assert(kind_views(v@) =~= Seq::<(u8, Seq<char>, Seq<char>)>::empty());
            }
            v
        },
        NotifyKind::Other => resync,
        NotifyKind::Any => {
            if count_named(names) == 0 {
                if names.len() == 0 {
                    resync
                } else {
                    let v: Vec<FsWatchKind> = Vec::new();
                    proof {
                        assert(kind_views(v@) =~= Seq::<(u8, Seq<char>, Seq<char>)>::empty());
                    }
                    v
                }
            } else {
                per_name_exec(1, names)
            }
        },
        NotifyKind::Create => per_name_exec(0, names),
        NotifyKind::Remove => per_name_exec(2, names),
        NotifyKind::Modify => per_name_exec(1, names),
        NotifyKind::Rename(mode) => match mode {
            RenameMode::From => per_name_exec(2, names),
            RenameMode::To => per_name_exec(0, names),
            _ => if names.len() >= 2 {
                rename_of_first_two(names)
            } else {
                per_name_exec(1, names)
            },
        },
    }
}

/// A watcher's delivery counters.
pub struct WatchState {
    epoch: u64,
    seq: u64,
}

impl WatchState {
    pub closed spec fn epoch_spec(&self) -> u64 {
        self.epoch
    }

    pub closed spec fn seq_spec(&self) -> u64 {
        self.seq
    }

    /// A watcher starts at epoch 1 with nothing delivered.
    pub fn new() -> (r: Self)
        ensures
            r.epoch_spec() == 1,
            r.seq_spec() == 0,
    {
        WatchState { epoch: 1, seq: 0 }
    }

    pub fn epoch(&self) -> (r: u64)
        ensures
            r == self.epoch_spec(),
    {
        self.epoch
    }

    pub fn seq(&self) -> (r: u64)
        ensures
            r == self.seq_spec(),
    {
        self.seq
    }

    /// Stamps the next event: current epoch, next sequence number.
    pub fn emit(&mut self, kind: FsWatchKind) -> (r: FsWatchEvent)
        requires
            old(self).seq_spec() < u64::MAX,
        ensures
            final(self).epoch_spec() == old(self).epoch_spec(),
            final(self).seq_spec() == old(self).seq_spec() + 1,
            r.epoch == old(self).epoch_spec(),
            r.seq == final(self).seq_spec(),
            r.kind == kind,
    {
        self.seq = self.seq + 1;
        FsWatchEvent { epoch: self.epoch, seq: self.seq, kind }
    }

    /// A resync request, stamped like any event.
    pub fn force_resync(&mut self) -> (r: FsWatchEvent)
        requires
            old(self).seq_spec() < u64::MAX,
        ensures
            final(self).epoch_spec() == old(self).epoch_spec(),
            final(self).seq_spec() == old(self).seq_spec() + 1,
            r.epoch == old(self).epoch_spec(),
            r.seq == final(self).seq_spec(),
            r.kind == FsWatchKind::ResyncRequired,
    {
        self.emit(FsWatchKind::ResyncRequired)
    }

    /// A replacement watcher started: a new epoch whose first event is a
    /// resync, numbered 1.
    pub fn restarted(&mut self) -> (r: FsWatchEvent)
        requires
            old(self).epoch_spec() < u64::MAX,
        ensures
            final(self).epoch_spec() == old(self).epoch_spec() + 1,
            final(self).seq_spec() == 1,
            r.epoch == final(self).epoch_spec(),
            r.seq == 1,
            r.kind == FsWatchKind::ResyncRequired,
    {
        self.epoch = self.epoch + 1;
        self.seq = 0;
        self.emit(FsWatchKind::ResyncRequired)
    }

    /// A replacement watcher failed to start: the old one stays, on its
    /// epoch, and subscribers are still told to resync.
    pub fn restart_failed(&mut self) -> (r: FsWatchEvent)
        requires
            old(self).seq_spec() < u64::MAX,
        ensures
            final(self).epoch_spec() == old(self).epoch_spec(),
            final(self).seq_spec() == old(self).seq_spec() + 1,
            r.epoch == old(self).epoch_spec(),
            r.kind == FsWatchKind::ResyncRequired,
    {
        self.emit(FsWatchKind::ResyncRequired)
    }
}

/// What a subscriber that fell behind receives in place of the events it
/// missed: a resync on the watcher's current epoch, numbered 0.
pub fn lagged(epoch: u64) -> (r: FsWatchEvent)
    ensures
        r.epoch == epoch,
        r.seq == 0,
        r.kind == FsWatchKind::ResyncRequired,
{
    FsWatchEvent { epoch, seq: 0, kind: FsWatchKind::ResyncRequired }
}


/// `per_name` makes one event per reported workspace name, each carrying
/// `tag` and that name, and nothing more.
proof fn lemma_per_name_events(tag: u8, names: Seq<Option<Seq<char>>>)
    ensures
        forall|i: int|
            #![trigger per_name(tag, names)[i]]
            0 <= i < per_name(tag, names).len() ==> per_name(tag, names)[i].0 == tag
                && per_name(tag, names)[i].2 == Seq::<char>::empty() && names.contains(
                Some(per_name(tag, names)[i].1),
            ),
        forall|j: int|
            #![trigger names[j]]
            0 <= j < names.len() && names[j] is Some ==> per_name(tag, names).contains(
                (tag, names[j]->0, Seq::<char>::empty()),
            ),
    decreases names.len(),
{
    if names.len() > 0 {
        let init = names.drop_last();
        lemma_per_name_events(tag, init);
        let prev = per_name(tag, init);
        let cur = per_name(tag, names);
        assert forall|i: int| 0 <= i < cur.len() implies cur[i].0 == tag && cur[i].2 == Seq::<
            char,
        >::empty() && names.contains(Some(cur[i].1)) by {
            if i < prev.len() {
                assert(cur[i] == prev[i]);
                let k = choose|k: int| 0 <= k < init.len() && init[k] == Some(prev[i].1);
                assert(names[k] == init[k]);
            } else {
                assert(names[names.len() - 1] == names.last());
            }
        }
        assert forall|j: int| 0 <= j < names.len() && names[j] is Some implies cur.contains(
            (tag, names[j]->0, Seq::<char>::empty()),
        ) by {
            if j < init.len() {
                assert(init[j] == names[j]);
                let k = choose|k: int| 0 <= k < prev.len() && prev[k] == (tag, names[j]->0, Seq::<char>::empty());
                assert(cur[k] == prev[k]);
            } else {
                assert(cur[cur.len() - 1] == (tag, names[j]->0, Seq::<char>::empty()));
            }
        }
    }
}

/// Events whose views carry `tag` and the reported names, one per name.
proof fn lemma_tagged_events(tag: u8, names: Seq<Option<Seq<char>>>, events: Seq<FsWatchKind>)
    requires
        kind_views(events) == per_name(tag, names),
    ensures
        forall|i: int|
            0 <= i < events.len() ==> kind_view(#[trigger] events[i]).0 == tag && names.contains(
                Some(kind_view(events[i]).1),
            ),
        forall|j: int|
            0 <= j < names.len() && #[trigger] names[j] is Some ==> exists|i: int|
                0 <= i < events.len() && kind_view(#[trigger] events[i]) == (
                    tag,
                    names[j]->0,
                    Seq::<char>::empty(),
                ),
{
    lemma_per_name_events(tag, names);
    assert forall|i: int| 0 <= i < events.len() implies kind_view(#[trigger] events[i]).0 == tag
        && names.contains(Some(kind_view(events[i]).1)) by {
        assert(kind_views(events)[i] == kind_view(events[i]));
        assert(per_name(tag, names)[i] == kind_view(events[i]));
    }
    assert forall|j: int| 0 <= j < names.len() && #[trigger] names[j] is Some implies exists|i: int|
        0 <= i < events.len() && kind_view(#[trigger] events[i]) == (
            tag,
            names[j]->0,
            Seq::<char>::empty(),
        ) by {
        let p = per_name(tag, names);
        let k = choose|k: int| 0 <= k < p.len() && p[k] == (tag, names[j]->0, Seq::<char>::empty());
        assert(kind_views(events)[k] == kind_view(events[k]));
    }
}

/// A create notification (no rescan asked) yields only `Create` events,
/// each for a workspace name it reported, and a `Create` for every such
/// name; a remove notification likewise only `Remove` events, and a
/// modify notification only `Modify` events.
pub proof fn lemma_notifications_keep_their_kind(
    kind: NotifyKind,
    names: Seq<Option<Seq<char>>>,
    events: Seq<FsWatchKind>,
)
    requires
        kind is Create || kind is Remove || kind is Modify,
        kind_views(events) == events_spec(kind, false, names),
    ensures
        forall|i: int|
            0 <= i < events.len() ==> match #[trigger] events[i] {
                FsWatchKind::Create { path } => kind is Create && names.contains(Some(path@)),
                FsWatchKind::Remove { path } => kind is Remove && names.contains(Some(path@)),
                FsWatchKind::Modify { path } => kind is Modify && names.contains(Some(path@)),
                _ => false,
            },
        forall|j: int|
            0 <= j < names.len() && #[trigger] names[j] is Some ==> exists|i: int|
                0 <= i < events.len() && match #[trigger] events[i] {
                    FsWatchKind::Create { path } => kind is Create && path@ == names[j]->0,
                    FsWatchKind::Remove { path } => kind is Remove && path@ == names[j]->0,
                    FsWatchKind::Modify { path } => kind is Modify && path@ == names[j]->0,
                    _ => false,
                },
{
    let tag: u8 = match kind {
        NotifyKind::Create => 0u8,
        NotifyKind::Remove => 2u8,
        _ => 1u8,
    };
    assert(events_spec(kind, false, names) == per_name(tag, names));
    lemma_tagged_events(tag, names, events);
    assert forall|j: int| 0 <= j < names.len() && #[trigger] names[j] is Some implies exists|i: int|
        0 <= i < events.len() && match #[trigger] events[i] {
            FsWatchKind::Create { path } => kind is Create && path@ == names[j]->0,
            FsWatchKind::Remove { path } => kind is Remove && path@ == names[j]->0,
            FsWatchKind::Modify { path } => kind is Modify && path@ == names[j]->0,
            _ => false,
        } by {
        let i = choose|i: int|
            0 <= i < events.len() && kind_view(#[trigger] events[i]) == (
                tag,
                names[j]->0,
                Seq::<char>::empty(),
            );
        assert(kind_view(events[i]) == (tag, names[j]->0, Seq::<char>::empty()));
    }
}


/// A notification asking for a rescan is one `ResyncRequired`, whatever
/// its kind; an access is no event at all.
pub proof fn lemma_rescan_and_access_notifications(
    kind: NotifyKind,
    need_rescan: bool,
    names: Seq<Option<Seq<char>>>,
    events: Seq<FsWatchKind>,
)
    requires
        kind_views(events) == events_spec(kind, need_rescan, names),
    ensures
        need_rescan ==> events.len() == 1 && events[0] is ResyncRequired,
        !need_rescan && kind is Access ==> events.len() == 0,
{
    assert(kind_views(events).len() == events.len());
    if need_rescan {
        assert(kind_views(events)[0] == kind_view(events[0]));
    }
}

/// The source side of a rename is a `Remove` of each reported name and
/// the destination side a `Create`; a rename reported with both names is
/// one `Rename` from the first to the second, and with only one of them
/// in the workspace, the `Remove` or `Create` of that one.
pub proof fn lemma_rename_notifications(
    mode: RenameMode,
    names: Seq<Option<Seq<char>>>,
    events: Seq<FsWatchKind>,
)
    requires
        kind_views(events) == events_spec(NotifyKind::Rename(mode), false, names),
    ensures
        mode is From ==> forall|i: int|
            0 <= i < events.len() ==> (#[trigger] events[i] matches FsWatchKind::Remove { path }
                && names.contains(Some(path@))),
        mode is To ==> forall|i: int|
            0 <= i < events.len() ==> (#[trigger] events[i] matches FsWatchKind::Create { path }
                && names.contains(Some(path@))),
        mode is Both && names.len() >= 2 ==> match (names[0], names[1]) {
            (Some(f), Some(t)) => events.len() == 1 && (events[0] matches FsWatchKind::Rename {
                from,
                to,
            } && from@ == f && to@ == t),
            (Some(f), None) => events.len() == 1 && (events[0] matches FsWatchKind::Remove { path }
                && path@ == f),
            (None, Some(t)) => events.len() == 1 && (events[0] matches FsWatchKind::Create { path }
                && path@ == t),
            (None, None) => events.len() == 0,
        },
{
    match mode {
        RenameMode::From => {
            lemma_tagged_events(2u8, names, events);
            assert forall|i: int| 0 <= i < events.len() implies (#[trigger] events[i] matches FsWatchKind::Remove { path }
                && names.contains(Some(path@))) by {
                assert(kind_view(events[i]).0 == 2u8);
            }
        },
        RenameMode::To => {
            lemma_tagged_events(0u8, names, events);
            assert forall|i: int| 0 <= i < events.len() implies (#[trigger] events[i] matches FsWatchKind::Create { path }
                && names.contains(Some(path@))) by {
                assert(kind_view(events[i]).0 == 0u8);
            }
        },
        RenameMode::Both => {
            assert(kind_views(events).len() == events.len());
            if names.len() >= 2 && events.len() > 0 {
                assert(kind_views(events)[0] == kind_view(events[0]));
            }
        },
        _ => {},
    }
}

} // verus!
