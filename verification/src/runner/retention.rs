//! The runner's table of managed processes: which handles it keeps, how
//! completed ones are evicted, and when a new process may start.
//!
//! Time is a monotonic millisecond clock read by the caller.

use vstd::prelude::*;

use crate::decimal::{parse_u64, parse_u64_spec};
use crate::domain::error::{ErrorBody, ErrorCode};
use crate::domain::ids::ProcessId;
use crate::runner::api::RunnerReadResult;
use crate::runner::output::{read_reply, OutputBuffer, OutputView};
use crate::text::{concat3, str_eq, string_views};

verus! {

broadcast use vstd::seq_lib::group_filter_ensures;

/// Live processes allowed at once when the operator sets no limit.
pub const DEFAULT_MAX_PROCESSES: usize = 8;

/// How long a completed handle stays readable, in milliseconds.
pub const DEFAULT_COMPLETED_TTL_MS: u64 = 900000;

/// How many completed handles are kept at most.
pub const DEFAULT_MAX_COMPLETED: usize = 64;

/// How long completed process handles are kept.
#[derive(Debug, Clone, Copy, PartialEq, Eq, Structural)]
pub struct RetentionPolicy {
    pub ttl_ms: u64,
    pub max_completed: usize,
}

impl Default for RetentionPolicy {
    fn default() -> (r: Self)
        ensures
            r.ttl_ms == DEFAULT_COMPLETED_TTL_MS,
            r.max_completed == DEFAULT_MAX_COMPLETED,
    {
        RetentionPolicy { ttl_ms: DEFAULT_COMPLETED_TTL_MS, max_completed: DEFAULT_MAX_COMPLETED }
    }
}

/// The live-process limit for an operator setting: a positive decimal
/// that fits a `usize`, otherwise [`DEFAULT_MAX_PROCESSES`].
pub open spec fn max_processes_spec(raw: Option<Seq<char>>) -> usize {
    match raw {
        Some(s) => match parse_u64_spec(s) {
            Some(n) => if 0 < n && n <= usize::MAX {
                n as usize
            } else {
                DEFAULT_MAX_PROCESSES
            },
            None => DEFAULT_MAX_PROCESSES,
        },
        None => DEFAULT_MAX_PROCESSES,
    }
}

/// The live-process limit from the raw operator setting
/// (`CODESPACE_MAX_PROCESSES`), read by the caller.
pub fn max_processes(raw: Option<&str>) -> (r: usize)
    ensures
        r == max_processes_spec(
            match raw {
                Some(s) => Some(s@),
                None => None,
            },
        ),
        r > 0,
{
    match raw {
        Some(s) => match parse_u64(s) {
            Some(n) => if 0 < n && n <= usize::MAX as u64 {
                n as usize
            } else {
                DEFAULT_MAX_PROCESSES
            },
            None => DEFAULT_MAX_PROCESSES,
        },
        None => DEFAULT_MAX_PROCESSES,
    }
}

/// One handle as the table sees it.
pub struct SlotView {
    pub id: Seq<char>,
    pub workspace: Seq<char>,
    pub completed_at: Option<u64>,
    pub output: OutputView,
}

/// The handle's process has finished and its output is complete.
pub open spec fn completed_pred() -> spec_fn(SlotView) -> bool {
    |s: SlotView| s.completed_at is Some
}

/// When the handle completed (meaningful for completed handles).
pub open spec fn completed_time(s: SlotView) -> u64 {
    match s.completed_at {
        Some(at) => at,
        None => 0,
    }
}

/// A completed handle older than `ttl` at time `now`. A completion time in
/// the future counts as age zero.
pub open spec fn is_expired(s: SlotView, now: u64, ttl: u64) -> bool {
    match s.completed_at {
        Some(at) => now > at && now - at > ttl,
        None => false,
    }
}

/// Handles that survive the age limit.
pub open spec fn fresh_pred(now: u64, ttl: u64) -> spec_fn(SlotView) -> bool {
    |s: SlotView| !is_expired(s, now, ttl)
}

/// Handles whose output has not ended: the process still runs.
pub open spec fn live_pred() -> spec_fn(SlotView) -> bool {
    |s: SlotView| !s.output.eof
}

pub open spec fn completed_count(s: Seq<SlotView>) -> nat {
    s.filter(completed_pred()).len()
}

pub open spec fn live_count(s: Seq<SlotView>) -> nat {
    s.filter(live_pred()).len()
}

/// No two handles share a process id.
pub open spec fn ids_unique(s: Seq<SlotView>) -> bool {
    forall|i: int, j: int| 0 <= i < s.len() && 0 <= j < s.len() && i != j ==> s[i].id != s[j].id
}

/// Some handle has this process id.
pub open spec fn has_id(s: Seq<SlotView>, id: Seq<char>) -> bool {
    exists|i: int| 0 <= i < s.len() && s[i].id == id
}

/// `after` keeps every handle of `before` that has not completed, and of
/// the completed ones at most `max`, dropping the oldest first.
pub open spec fn keeps_newest_completed(before: Seq<SlotView>, after: Seq<SlotView>, max: nat) -> bool {
    &&& forall|i: int| 0 <= i < after.len() ==> before.contains(#[trigger] after[i])
    &&& forall|i: int|
        0 <= i < before.len() && (#[trigger] before[i]).completed_at is None ==> after.contains(
            before[i],
        )
    &&& completed_count(after) == if completed_count(before) <= max {
        completed_count(before)
    } else {
        max
    }
    &&& forall|i: int, j: int|
        0 <= i < before.len() && 0 <= j < after.len() && (#[trigger] before[i]).completed_at is Some
            && !after.contains(before[i]) && (#[trigger] after[j]).completed_at is Some
            ==> completed_time(before[i]) <= completed_time(after[j])
    &&& ids_unique(after)
}

/// The table after eviction at `now`: expired handles are gone, and of the
/// other completed ones only the newest `max_completed` remain.
pub open spec fn evicted(before: Seq<SlotView>, after: Seq<SlotView>, now: u64, policy: RetentionPolicy) -> bool {
    keeps_newest_completed(
        before.filter(fresh_pred(now, policy.ttl_ms)),
        after,
        policy.max_completed as nat,
    )
}

/// The handle a new process starts with.
pub open spec fn fresh_slot(id: Seq<char>, workspace: Seq<char>) -> SlotView {
    SlotView {
        id,
        workspace,
        completed_at: None,
        output: OutputView { stream: Seq::empty(), dropped: 0, eof: false, timed_out: false },
    }
}

/// `s` with `v` stored under its id: replacing a handle with the same id,
/// or added at the end.
pub open spec fn put_slot(s: Seq<SlotView>, v: SlotView) -> Seq<SlotView> {
    if has_id(s, v.id) {
        s.update(choose|i: int| 0 <= i < s.len() && s[i].id == v.id, v)
    } else {
        s.push(v)
    }
}

/// Position of the handle with this id (meaningful when there is one).
pub open spec fn index_of(s: Seq<SlotView>, id: Seq<char>) -> int {
    choose|i: int| 0 <= i < s.len() && s[i].id == id
}

/// The handles of one workspace.
pub open spec fn in_workspace_pred(workspace: Seq<char>) -> spec_fn(SlotView) -> bool {
    |s: SlotView| s.workspace == workspace
}

/// `s` with its output replaced by `o`.
pub open spec fn with_output(s: SlotView, o: OutputView) -> SlotView {
    SlotView { output: o, ..s }
}

/// The process id of each handle.
pub open spec fn slot_ids(s: Seq<SlotView>) -> Seq<Seq<char>> {
    s.map_values(|v: SlotView| v.id)
}

/// The refusal for a process id the table does not hold.
pub open spec fn missing_message(id: Seq<char>) -> Seq<char> {
    "unknown process_id `"@ + id + "`"@
}

/// The refusal for an unknown process id.
pub fn missing(process_id: &str) -> (r: ErrorBody)
    ensures
        r.code == ErrorCode::ProcessNotFound,
        r.message@ == missing_message(process_id@),
        r.operation_id is None,
{
    let text = concat3("unknown process_id `", process_id, "`");
    ErrorBody::new(ErrorCode::ProcessNotFound, text.as_str())
}

/// The refusal when the live-process limit is reached.
pub open spec fn is_busy(e: ErrorBody) -> bool {
    e.code == ErrorCode::WorkspaceBusy && e.message@ == "live process limit reached"@
        && e.operation_id is None
}

proof fn lemma_filter_push(s: Seq<SlotView>, p: spec_fn(SlotView) -> bool, x: SlotView)
    ensures
        s.push(x).filter(p) == if p(x) {
            s.filter(p).push(x)
        } else {
            s.filter(p)
        },
{
    reveal(Seq::filter);
    assert(s.push(x).drop_last() =~= s);
}

proof fn lemma_filter_ids_unique(s: Seq<SlotView>, p: spec_fn(SlotView) -> bool)
    requires
        ids_unique(s),
    ensures
        ids_unique(s.filter(p)),
    decreases s.len(),
{
    reveal(Seq::filter);
    if s.len() > 0 {
        let rest = s.drop_last();
        assert(ids_unique(rest));
        lemma_filter_ids_unique(rest, p);
        if p(s.last()) {
            let sub = rest.filter(p);
            assert forall|k: int| 0 <= k < sub.len() implies sub[k].id != s.last().id by {
                rest.lemma_filter_contains_rev(p, sub[k]);
                let m = choose|m: int| 0 <= m < rest.len() && rest[m] == sub[k];
                assert(s[m] == rest[m]);
            }
        }
    }
}

proof fn lemma_filter_remove_len(s: Seq<SlotView>, p: spec_fn(SlotView) -> bool, i: int)
    requires
        0 <= i < s.len(),
    ensures
        s.remove(i).filter(p).len() == s.filter(p).len() - (if p(s[i]) {
            1int
        } else {
            0int
        }),
{
    let a = s.subrange(0, i);
    let b = s.subrange(i + 1, s.len() as int);
    let x = s[i];
    assert(s =~= (a + seq![x]) + b);
    assert(s.remove(i) =~= a + b);
    Seq::filter_distributes_over_add(a + seq![x], b, p);
    Seq::filter_distributes_over_add(a, seq![x], p);
    Seq::filter_distributes_over_add(a, b, p);
    lemma_filter_push(Seq::<SlotView>::empty(), p, x);
    assert(Seq::<SlotView>::empty().push(x) =~= seq![x]);
    reveal(Seq::filter);
    assert(Seq::<SlotView>::empty().filter(p) =~= Seq::<SlotView>::empty());
}

proof fn lemma_filter_nonempty(s: Seq<SlotView>, p: spec_fn(SlotView) -> bool)
    requires
        s.filter(p).len() > 0,
    ensures
        exists|i: int| 0 <= i < s.len() && p(s[i]),
{
    broadcast use vstd::seq_lib::group_seq_lib_default;

    let x = s.filter(p)[0];
    assert(p(x));
    assert(s.filter(p).contains(x));
    s.lemma_filter_contains_rev(p, x);
}

proof fn lemma_filter_update_len(s: Seq<SlotView>, p: spec_fn(SlotView) -> bool, i: int, v: SlotView)
    requires
        0 <= i < s.len(),
    ensures
        s.update(i, v).filter(p).len() <= s.filter(p).len() + 1,
{
    let u = s.update(i, v);
    lemma_filter_remove_len(s, p, i);
    lemma_filter_remove_len(u, p, i);
    assert(u.remove(i) =~= s.remove(i));
}

/// Eviction never drops a handle whose process has not completed, leaves
/// no handle past its age limit, and keeps at most `max_completed`
/// completed handles.
pub proof fn lemma_eviction_bounds(before: Seq<SlotView>, after: Seq<SlotView>, now: u64, policy: RetentionPolicy)
    requires
        evicted(before, after, now, policy),
    ensures
        forall|i: int|
            0 <= i < before.len() && (#[trigger] before[i]).completed_at is None ==> after.contains(
                before[i],
            ),
        forall|i: int| 0 <= i < after.len() ==> !is_expired(#[trigger] after[i], now, policy.ttl_ms),
        forall|i: int| 0 <= i < after.len() ==> before.contains(#[trigger] after[i]),
        completed_count(after) <= policy.max_completed,
        ids_unique(after),
{
    let mid = before.filter(fresh_pred(now, policy.ttl_ms));
    assert forall|i: int|
        0 <= i < before.len() && (#[trigger] before[i]).completed_at is None implies after.contains(
        before[i]) by {
        assert(fresh_pred(now, policy.ttl_ms)(before[i]));
        before.lemma_filter_contains(fresh_pred(now, policy.ttl_ms), i);
        let k = choose|k: int| 0 <= k < mid.len() && mid[k] == before[i];
        assert(mid[k].completed_at is None);
    }
    assert forall|i: int| 0 <= i < after.len() implies !is_expired(#[trigger] after[i], now, policy.ttl_ms)
        && before.contains(after[i]) by {
        assert(mid.contains(after[i]));
        let k = choose|k: int| 0 <= k < mid.len() && mid[k] == after[i];
        assert(fresh_pred(now, policy.ttl_ms)(mid[k]));
        before.lemma_filter_contains_rev(fresh_pred(now, policy.ttl_ms), after[i]);
    }
}

/// One process handle: ids, retained output and completion time.
pub struct ProcessSlot {
    process_id: String,
    workspace_id: String,
    output: OutputBuffer,
    completed_at: Option<u64>,
}

impl View for ProcessSlot {
    type V = SlotView;

    closed spec fn view(&self) -> SlotView {
        SlotView {
            id: self.process_id@,
            workspace: self.workspace_id@,
            completed_at: self.completed_at,
            output: self.output@,
        }
    }
}

pub open spec fn slot_views(v: Seq<ProcessSlot>) -> Seq<SlotView> {
    v.map_values(|s: ProcessSlot| s@)
}

pub closed spec fn slots_wf(v: Seq<ProcessSlot>) -> bool {
    forall|i: int| 0 <= i < v.len() ==> (#[trigger] v[i]).output.wf()
}

/// The runner's managed-process handles, keyed by process id.
pub struct ProcessTable {
    slots: Vec<ProcessSlot>,
}

impl View for ProcessTable {
    type V = Seq<SlotView>;

    closed spec fn view(&self) -> Seq<SlotView> {
        slot_views(self.slots@)
    }
}

impl ProcessTable {
    /// Every handle's output is consistent and ids are unique.
    pub closed spec fn wf(&self) -> bool {
        &&& slots_wf(self.slots@)
        &&& ids_unique(self@)
    }

    /// No handles.
    pub fn new() -> (r: Self)
        ensures
            r.wf(),
            r@ == Seq::<SlotView>::empty(),
    {
        let r = ProcessTable { slots: Vec::new() };
        proof {
            assert(r@ =~= Seq::<SlotView>::empty());
        }
        r
    }

    /// Number of handles.
    pub fn len(&self) -> (r: usize)
        ensures
            r == self@.len(),
    {
        self.slots.len()
    }

    /// Index of the handle with this process id.
    pub fn find(&self, process_id: &str) -> (r: Option<usize>)
        requires
            self.wf(),
        ensures
            match r {
                Some(i) => i < self@.len() && self@[i as int].id == process_id@,
                None => !has_id(self@, process_id@),
            },
    {
        let mut i: usize = 0;
        while i < self.slots.len()
            invariant
                i <= self.slots@.len(),
                self@ == slot_views(self.slots@),
                forall|k: int| 0 <= k < i ==> self@[k].id != process_id@,
            decreases self.slots@.len() - i,
        {
            if str_eq(self.slots[i].process_id.as_str(), process_id) {
                return Some(i);
            }
            i = i + 1;
        }
        None
    }

    /// How many handles have completed.
    pub fn completed(&self) -> (r: usize)
        ensures
            r == completed_count(self@),
    {
        let mut n: usize = 0;
        let mut i: usize = 0;
        while i < self.slots.len()
            invariant
                i <= self.slots@.len(),
                self@ == slot_views(self.slots@),
                n == completed_count(self@.subrange(0, i as int)),
                n <= i,
            decreases self.slots@.len() - i,
        {
            proof {
                assert(self@.subrange(0, i + 1) =~= self@.subrange(0, i as int).push(self@[i as int]));
                lemma_filter_push(self@.subrange(0, i as int), completed_pred(), self@[i as int]);
            }
            if self.slots[i].completed_at.is_some() {
                n = n + 1;
            }
            i = i + 1;
        }
        proof {
            assert(self@.subrange(0, self@.len() as int) =~= self@);
        }
        n
    }

    /// How many handles belong to running processes.
    pub fn live(&self) -> (r: usize)
        requires
            self.wf(),
        ensures
            r == live_count(self@),
    {
        let mut n: usize = 0;
        let mut i: usize = 0;
        while i < self.slots.len()
            invariant
                i <= self.slots@.len(),
                self@ == slot_views(self.slots@),
                slots_wf(self.slots@),
                n == live_count(self@.subrange(0, i as int)),
                n <= i,
            decreases self.slots@.len() - i,
        {
            proof {
                assert(self@.subrange(0, i + 1) =~= self@.subrange(0, i as int).push(self@[i as int]));
                lemma_filter_push(self@.subrange(0, i as int), live_pred(), self@[i as int]);
            }
            if !self.slots[i].output.eof() {
                n = n + 1;
            }
            i = i + 1;
        }
        proof {
            assert(self@.subrange(0, self@.len() as int) =~= self@);
        }
        n
    }

    /// Drops the handles that completed more than `ttl_ms` before `now`.
    pub fn evict_expired(&mut self, now: u64, ttl_ms: u64)
        requires
            old(self).wf(),
        ensures
            final(self).wf(),
            final(self)@ == old(self)@.filter(fresh_pred(now, ttl_ms)),
    {
        let ghost before = self@;
        let mut rest: Vec<ProcessSlot> = Vec::new();
        std::mem::swap(&mut rest, &mut self.slots);
        let mut kept: Vec<ProcessSlot> = Vec::new();
        let ghost mut j: int = 0;
        proof {
            assert(slot_views(rest@) == before);
            assert(before.subrange(0, 0) =~= Seq::<SlotView>::empty());
            reveal(Seq::filter);
            assert(slot_views(kept@) =~= before.subrange(0, 0).filter(fresh_pred(now, ttl_ms)));
            assert(before.subrange(0, before.len() as int) =~= before);
        }
        while rest.len() > 0
            invariant
                0 <= j <= before.len(),
                slot_views(rest@) == before.subrange(j, before.len() as int),
                slot_views(kept@) == before.subrange(0, j).filter(fresh_pred(now, ttl_ms)),
                slots_wf(rest@),
                slots_wf(kept@),
            decreases rest@.len(),
        {
            let ghost rest_before = rest@;
            proof {
                assert(slot_views(rest_before).len() == rest_before.len());
                assert(slot_views(rest_before)[0] == rest_before[0]@);
                assert(j < before.len());
            }
            let slot = rest.remove(0);
            proof {
                assert(slot@ == before[j]);
                assert forall|k: int| 0 <= k < rest@.len() implies #[trigger] slot_views(rest@)[k]
                    == before[j + 1 + k] by {
                    assert(rest@[k] == rest_before[k + 1]);
                    assert(slot_views(rest_before)[k + 1] == rest_before[k + 1]@);
                }
                assert(slot_views(rest@) =~= before.subrange(j + 1, before.len() as int));
                assert(slots_wf(rest@)) by {
                    assert forall|i: int| 0 <= i < rest@.len() implies (#[trigger] rest@[i]).output.wf() by {
                        assert(rest@[i] == rest_before[i + 1]);
                    }
                }
                assert(slot.output.wf());
                assert(before.subrange(0, j + 1) =~= before.subrange(0, j).push(before[j]));
                lemma_filter_push(before.subrange(0, j), fresh_pred(now, ttl_ms), before[j]);
            }
            let expired = match slot.completed_at {
                Some(at) => now > at && now - at > ttl_ms,
                None => false,
            };
            if !expired {
                let ghost kept_before = kept@;
                kept.push(slot);
                proof {
                    assert(slot_views(kept@) =~= slot_views(kept_before).push(slot@));
                    assert forall|i: int| 0 <= i < kept@.len() implies (#[trigger] kept@[i]).output.wf() by {
                        if i < kept_before.len() {
                            assert(kept@[i] == kept_before[i]);
                        }
                    }
                }
            }
            proof {
                j = j + 1;
            }
        }
        proof {
            assert(j == before.len());
            assert(before.subrange(0, j) =~= before);
        }
        self.slots = kept;
        proof {
            lemma_filter_ids_unique(before, fresh_pred(now, ttl_ms));
        }
    }

    /// Index of a completed handle with the earliest completion time.
    fn oldest_completed(&self) -> (r: usize)
        requires
            completed_count(self@) > 0,
        ensures
            r < self@.len(),
            self@[r as int].completed_at is Some,
            forall|k: int|
                0 <= k < self@.len() && (#[trigger] self@[k]).completed_at is Some
                    ==> completed_time(self@[r as int]) <= completed_time(self@[k]),
    {
        proof {
            lemma_filter_nonempty(self@, completed_pred());
        }
        let mut best: usize = 0;
        let mut found = false;
        let mut i: usize = 0;
        while i < self.slots.len()
            invariant
                i <= self.slots@.len(),
                self@ == slot_views(self.slots@),
                found ==> best < i && self@[best as int].completed_at is Some,
                !found ==> forall|k: int| 0 <= k < i ==> (#[trigger] self@[k]).completed_at is None,
                found ==> forall|k: int|
                    0 <= k < i && (#[trigger] self@[k]).completed_at is Some ==> completed_time(
                        self@[best as int],
                    ) <= completed_time(self@[k]),
            decreases self.slots@.len() - i,
        {
            match self.slots[i].completed_at {
                Some(at) => {
                    if !found {
                        best = i;
                        found = true;
                    } else {
                        match self.slots[best].completed_at {
                            Some(b) => {
                                if at < b {
                                    best = i;
                                }
                            },
                            None => {},
                        }
                    }
                },
                None => {},
            }
            i = i + 1;
        }
        best
    }

    /// Drops completed handles, oldest first, until at most `max` remain.
    pub fn evict_excess(&mut self, max: usize)
        requires
            old(self).wf(),
        ensures
            final(self).wf(),
            keeps_newest_completed(old(self)@, final(self)@, max as nat),
    {
        let ghost before = self@;
        let ghost mut removed: Seq<SlotView> = Seq::empty();
        let mut count = self.completed();
        while count > max
            invariant
                self.wf(),
                count == completed_count(self@),
                completed_count(self@) <= completed_count(before),
                completed_count(self@) >= max || completed_count(self@) == completed_count(before),
                forall|i: int| 0 <= i < self@.len() ==> before.contains(#[trigger] self@[i]),
                forall|i: int|
                    0 <= i < before.len() && (#[trigger] before[i]).completed_at is None
                        ==> self@.contains(before[i]),
                forall|i: int|
                    0 <= i < before.len() ==> self@.contains(#[trigger] before[i])
                        || removed.contains(before[i]),
                forall|r: int| 0 <= r < removed.len() ==> (#[trigger] removed[r]).completed_at is Some,
                forall|r: int, k: int|
                    0 <= r < removed.len() && 0 <= k < self@.len() && (#[trigger] self@[k]).completed_at is Some
                        ==> completed_time(#[trigger] removed[r]) <= completed_time(self@[k]),
            decreases count,
        {
            let idx = self.oldest_completed();
            let ghost cur = self@;
            let ghost m = cur[idx as int];
            let ghost old_slots = self.slots@;
            let _gone = self.slots.remove(idx);
            proof {
                assert(self@ =~= cur.remove(idx as int)) by {
                    assert(self.slots@ =~= old_slots.remove(idx as int));
                }
                cur.remove_ensures(idx as int);
                lemma_filter_remove_len(cur, completed_pred(), idx as int);
                assert(slots_wf(self.slots@)) by {
                    assert forall|i: int| 0 <= i < self.slots@.len() implies (#[trigger] self.slots@[i]).output.wf() by {
                        if i < idx {
                            assert(self.slots@[i] == old_slots[i]);
                        } else {
                            assert(self.slots@[i] == old_slots[i + 1]);
                        }
                    }
                }
                assert forall|i: int| 0 <= i < self@.len() implies before.contains(#[trigger] self@[i]) by {
                    if i < idx {
                        assert(self@[i] == cur[i]);
                    } else {
                        assert(self@[i] == cur[i + 1]);
                    }
                }
                assert(ids_unique(self@)) by {
                    assert forall|a: int, b: int|
                        0 <= a < self@.len() && 0 <= b < self@.len() && a != b implies self@[a].id
                        != self@[b].id by {
                        let a2 = if a < idx { a } else { a + 1 };
                        let b2 = if b < idx { b } else { b + 1 };
                        assert(self@[a] == cur[a2]);
                        assert(self@[b] == cur[b2]);
                    }
                }
                let removed2 = removed.push(m);
                assert forall|i: int| 0 <= i < before.len() implies self@.contains(#[trigger] before[i])
                    || removed2.contains(before[i]) by {
                    if cur.contains(before[i]) {
                        let k = choose|k: int| 0 <= k < cur.len() && cur[k] == before[i];
                        if k == idx {
                            assert(removed2[removed.len() as int] == before[i]);
                        } else if k < idx {
                            assert(self@[k] == before[i]);
                        } else {
                            assert(self@[k - 1] == before[i]);
                        }
                    } else {
                        let r = choose|r: int| 0 <= r < removed.len() && removed[r] == before[i];
                        assert(removed2[r] == before[i]);
                    }
                }
                assert forall|i: int|
                    0 <= i < before.len() && (#[trigger] before[i]).completed_at is None implies self@.contains(
                    before[i]) by {
                    let k = choose|k: int| 0 <= k < cur.len() && cur[k] == before[i];
                    if k < idx {
                        assert(self@[k] == before[i]);
                    } else {
                        assert(k != idx);
                        assert(self@[k - 1] == before[i]);
                    }
                }
                assert forall|r: int, k: int|
                    0 <= r < removed2.len() && 0 <= k < self@.len() && (#[trigger] self@[k]).completed_at is Some
                        implies completed_time(#[trigger] removed2[r]) <= completed_time(self@[k]) by {
                    let k2 = if k < idx { k } else { k + 1 };
                    assert(self@[k] == cur[k2]);
                    if r < removed.len() {
                        assert(removed2[r] == removed[r]);
                    } else {
                        assert(removed2[r] == m);
                    }
                }
                assert forall|r: int| 0 <= r < removed2.len() implies (#[trigger] removed2[r]).completed_at is Some by {
                    if r < removed.len() {
                        assert(removed2[r] == removed[r]);
                    }
                }
                removed = removed2;
            }
            count = count - 1;
        }
        proof {
            let after = self@;
            assert forall|i: int, j: int|
                0 <= i < before.len() && 0 <= j < after.len() && (#[trigger] before[i]).completed_at is Some
                    && !after.contains(before[i]) && (#[trigger] after[j]).completed_at is Some
                    implies completed_time(before[i]) <= completed_time(after[j]) by {
                assert(removed.contains(before[i]));
                let r = choose|r: int| 0 <= r < removed.len() && removed[r] == before[i];
                assert(completed_time(removed[r]) <= completed_time(after[j]));
            }
        }
    }

    /// Eviction at `now`: expired handles first, then the oldest completed
    /// ones beyond the policy's count.
    pub fn evict(&mut self, now: u64, policy: RetentionPolicy)
        requires
            old(self).wf(),
        ensures
            final(self).wf(),
            evicted(old(self)@, final(self)@, now, policy),
    {
        self.evict_expired(now, policy.ttl_ms);
        self.evict_excess(policy.max_completed);
    }

    /// Stores a new handle under `process_id`, replacing any handle with
    /// that id.
    pub fn put(&mut self, process_id: &str, workspace_id: &str)
        requires
            old(self).wf(),
        ensures
            final(self).wf(),
            final(self)@ == put_slot(old(self)@, fresh_slot(process_id@, workspace_id@)),
    {
        let slot = ProcessSlot {
            process_id: String::from_str(process_id),
            workspace_id: String::from_str(workspace_id),
            output: OutputBuffer::new(),
            completed_at: None,
        };
        let ghost v = fresh_slot(process_id@, workspace_id@);
        let ghost before = self@;
        let ghost old_slots = self.slots@;
        assert(slot@ == v);
        match self.find(process_id) {
            Some(i) => {
                self.slots.set(i, slot);
                proof {
                    assert(has_id(before, process_id@));
                    let c = index_of(before, process_id@);
                    assert(c == i as int) by {
                        if c != i as int {
                            assert(before[c].id == before[i as int].id);
                        }
                    }
                    assert(self.slots@ =~= old_slots.update(i as int, slot));
                    assert(self@ =~= before.update(i as int, v));
                    assert forall|k: int| 0 <= k < self.slots@.len() implies (#[trigger] self.slots@[k]).output.wf() by {
                        if k != i {
                            assert(self.slots@[k] == old_slots[k]);
                        }
                    }
                }
            },
            None => {
                self.slots.push(slot);
                proof {
                    assert(self.slots@ =~= old_slots.push(slot));
                    assert(self@ =~= before.push(v));
                    assert forall|k: int| 0 <= k < self.slots@.len() implies (#[trigger] self.slots@[k]).output.wf() by {
                        if k < old_slots.len() {
                            assert(self.slots@[k] == old_slots[k]);
                        }
                    }
                    assert forall|a: int, b: int|
                        0 <= a < self@.len() && 0 <= b < self@.len() && a != b implies self@[a].id
                        != self@[b].id by {
                        if a < before.len() && b < before.len() {
                            assert(self@[a] == before[a]);
                            assert(self@[b] == before[b]);
                        } else if a < before.len() {
                            assert(self@[a] == before[a]);
                        } else if b < before.len() {
                            assert(self@[b] == before[b]);
                        }
                    }
                }
            },
        }
    }

    /// Registers a new process after eviction at `now`: refused with
    /// `WorkspaceBusy` when `max_live` processes already run, otherwise its
    /// handle is stored.
    pub fn register(
        &mut self,
        process_id: &str,
        workspace_id: &str,
        now: u64,
        policy: RetentionPolicy,
        max_live: usize,
    ) -> (r: Result<(), ErrorBody>)
        requires
            old(self).wf(),
        ensures
            final(self).wf(),
            exists|mid: Seq<SlotView>|
                #[trigger] evicted(old(self)@, mid, now, policy) && if live_count(mid) >= max_live {
                    r matches Err(e) && is_busy(e) && final(self)@ == mid
                } else {
                    r is Ok && final(self)@ == put_slot(mid, fresh_slot(process_id@, workspace_id@))
                },
            r is Ok ==> live_count(final(self)@) <= max_live,
    {
        self.evict(now, policy);
        let ghost mid = self@;
        let live = self.live();
        if live >= max_live {
            let e = ErrorBody::new(ErrorCode::WorkspaceBusy, "live process limit reached");
            assert(evicted(old(self)@, mid, now, policy));
            return Err(e);
        }
        self.put(process_id, workspace_id);
        proof {
            let v = fresh_slot(process_id@, workspace_id@);
            assert(evicted(old(self)@, mid, now, policy));
            if has_id(mid, v.id) {
                let c = choose|i: int| 0 <= i < mid.len() && mid[i].id == v.id;
                lemma_filter_update_len(mid, live_pred(), c, v);
            } else {
                lemma_filter_push(mid, live_pred(), v);
            }
        }
        Ok(())
    }

    /// Reads a process's output after eviction at `now`. An unknown id is
    /// `ProcessNotFound`.
    pub fn read(&mut self, process_id: &str, cursor: u64, now: u64, policy: RetentionPolicy) -> (r:
        Result<RunnerReadResult, ErrorBody>)
        requires
            old(self).wf(),
        ensures
            final(self).wf(),
            evicted(old(self)@, final(self)@, now, policy),
            if has_id(final(self)@, process_id@) {
                read_reply(
                    final(self)@[index_of(final(self)@, process_id@)].output,
                    process_id@,
                    cursor,
                    r,
                )
            } else {
                r matches Err(e) && e.code == ErrorCode::ProcessNotFound && e.message@
                    == missing_message(process_id@) && e.operation_id is None
            },
    {
        self.evict(now, policy);
        match self.find(process_id) {
            None => Err(missing(process_id)),
            Some(i) => {
                proof {
                    let c = index_of(self@, process_id@);
                    assert(has_id(self@, process_id@));
                    assert(c == i as int) by {
                        if c != i as int {
                            assert(self@[c].id == self@[i as int].id);
                        }
                    }
                    assert(self@[i as int] == self.slots@[i as int]@);
                    assert(self.slots@[i as int].output.wf());
                }
                self.slots[i].output.read(ProcessId(String::from_str(process_id)), cursor)
            },
        }
    }

    /// Whether the table holds `process_id` after eviction at `now`; an
    /// unknown id is `ProcessNotFound`.
    pub fn require(&mut self, process_id: &str, now: u64, policy: RetentionPolicy) -> (r: Result<(), ErrorBody>)
        requires
            old(self).wf(),
        ensures
            final(self).wf(),
            evicted(old(self)@, final(self)@, now, policy),
            match r {
                Ok(()) => has_id(final(self)@, process_id@),
                Err(e) => !has_id(final(self)@, process_id@) && e.code == ErrorCode::ProcessNotFound
                    && e.message@ == missing_message(process_id@) && e.operation_id is None,
            },
    {
        self.evict(now, policy);
        match self.find(process_id) {
            None => Err(missing(process_id)),
            Some(_) => Ok(()),
        }
    }

    /// The workspace of a process after eviction at `now`.
    pub fn workspace_of(&mut self, process_id: &str, now: u64, policy: RetentionPolicy) -> (r: Option<String>)
        requires
            old(self).wf(),
        ensures
            final(self).wf(),
            evicted(old(self)@, final(self)@, now, policy),
            match r {
                Some(w) => has_id(final(self)@, process_id@) && w@ == final(self)@[index_of(
                    final(self)@,
                    process_id@,
                )].workspace,
                None => !has_id(final(self)@, process_id@),
            },
    {
        self.evict(now, policy);
        match self.find(process_id) {
            None => None,
            Some(i) => {
                proof {
                    let c = index_of(self@, process_id@);
                    assert(has_id(self@, process_id@));
                    assert(c == i as int) by {
                        if c != i as int {
                            assert(self@[c].id == self@[i as int].id);
                        }
                    }
                    assert(self@[i as int] == self.slots@[i as int]@);
                }
                Some(self.slots[i].workspace_id.clone())
            },
        }
    }

    /// The process ids of one workspace, after eviction at `now`, in table
    /// order.
    pub fn ids_in_workspace(&mut self, workspace_id: &str, now: u64, policy: RetentionPolicy) -> (r: Vec<
        String,
    >)
        requires
            old(self).wf(),
        ensures
            final(self).wf(),
            evicted(old(self)@, final(self)@, now, policy),
            string_views(r@) == slot_ids(final(self)@.filter(in_workspace_pred(workspace_id@))),
    {
        self.evict(now, policy);
        let mut out: Vec<String> = Vec::new();
        let mut i: usize = 0;
        while i < self.slots.len()
            invariant
                i <= self.slots@.len(),
                self@ == slot_views(self.slots@),
                string_views(out@) == slot_ids(
                    self@.subrange(0, i as int).filter(in_workspace_pred(workspace_id@)),
                ),
            decreases self.slots@.len() - i,
        {
            let ghost before_out = out@;
            proof {
                assert(self@.subrange(0, i + 1) =~= self@.subrange(0, i as int).push(self@[i as int]));
                lemma_filter_push(self@.subrange(0, i as int), in_workspace_pred(workspace_id@), self@[i as int]);
                assert(self@[i as int] == self.slots@[i as int]@);
            }
            if str_eq(self.slots[i].workspace_id.as_str(), workspace_id) {
                out.push(self.slots[i].process_id.clone());
                proof {
                    let sub = self@.subrange(0, i as int).filter(in_workspace_pred(workspace_id@));
                    assert(string_views(out@) =~= string_views(before_out).push(self@[i as int].id));
                    assert(slot_ids(sub.push(self@[i as int])) =~= slot_ids(sub).push(self@[i as int].id));
                }
            }
            i = i + 1;
        }
        proof {
            assert(self@.subrange(0, self@.len() as int) =~= self@);
        }
        out
    }

    /// Total output bytes of a process, if the table holds it.
    pub fn output_total(&self, process_id: &str) -> (r: Option<u64>)
        requires
            self.wf(),
        ensures
            match r {
                Some(t) => has_id(self@, process_id@) && t == self@[index_of(
                    self@,
                    process_id@,
                )].output.total(),
                None => !has_id(self@, process_id@),
            },
    {
        match self.find(process_id) {
            None => None,
            Some(i) => {
                proof {
                    let c = index_of(self@, process_id@);
                    assert(has_id(self@, process_id@));
                    assert(c == i as int) by {
                        if c != i as int {
                            assert(self@[c].id == self@[i as int].id);
                        }
                    }
                    assert(self@[i as int] == self.slots@[i as int]@);
                    assert(self.slots@[i as int].output.wf());
                }
                Some(self.slots[i].output.total())
            },
        }
    }

    /// Appends a chunk to a process's output, keeping at most `cap` bytes;
    /// false when the table does not hold the process.
    pub fn append_output(&mut self, process_id: &str, chunk: &[u8], cap: usize) -> (found: bool)
        requires
            old(self).wf(),
            has_id(old(self)@, process_id@) ==> old(self)@[index_of(
                old(self)@,
                process_id@,
            )].output.total() + chunk@.len() <= u64::MAX,
        ensures
            final(self).wf(),
            found == has_id(old(self)@, process_id@),
            found ==> final(self)@ == old(self)@.update(
                index_of(old(self)@, process_id@),
                with_output(
                    old(self)@[index_of(old(self)@, process_id@)],
                    old(self)@[index_of(old(self)@, process_id@)].output.after_append(
                        chunk@,
                        cap as nat,
                    ),
                ),
            ),
            !found ==> final(self)@ == old(self)@,
    {
        match self.find(process_id) {
            None => false,
            Some(i) => {
                let ghost before = self@;
                let ghost old_slots = self.slots@;
                proof {
                    self.lemma_index_of(process_id@, i as int);
                    assert(before[i as int] == old_slots[i as int]@);
                    assert(old_slots[i as int].output.wf());
                }
                let mut slot = self.slots.remove(i);
                slot.output.append(chunk, cap);
                self.slots.insert(i, slot);
                proof {
                    self.lemma_after_replace(old_slots, i as int, slot);
                }
                true
            },
        }
    }

    /// The process ended and all its output has been read from it: its
    /// output is complete and the handle completed at `now`.
    pub fn finish(&mut self, process_id: &str, now: u64) -> (found: bool)
        requires
            old(self).wf(),
        ensures
            final(self).wf(),
            found == has_id(old(self)@, process_id@),
            found ==> final(self)@ == old(self)@.update(
                index_of(old(self)@, process_id@),
                SlotView {
                    completed_at: Some(now),
                    output: OutputView {
                        eof: true,
                        ..old(self)@[index_of(old(self)@, process_id@)].output
                    },
                    ..old(self)@[index_of(old(self)@, process_id@)]
                },
            ),
            !found ==> final(self)@ == old(self)@,
    {
        match self.find(process_id) {
            None => false,
            Some(i) => {
                let ghost old_slots = self.slots@;
                proof {
                    self.lemma_index_of(process_id@, i as int);
                    assert(old_slots[i as int].output.wf());
                }
                let mut slot = self.slots.remove(i);
                slot.output.mark_eof();
                slot.completed_at = Some(now);
                self.slots.insert(i, slot);
                proof {
                    self.lemma_after_replace(old_slots, i as int, slot);
                }
                true
            },
        }
    }

    /// The process was killed for exceeding its time limit.
    pub fn mark_timed_out(&mut self, process_id: &str) -> (found: bool)
        requires
            old(self).wf(),
        ensures
            final(self).wf(),
            found == has_id(old(self)@, process_id@),
            found ==> final(self)@ == old(self)@.update(
                index_of(old(self)@, process_id@),
                with_output(
                    old(self)@[index_of(old(self)@, process_id@)],
                    OutputView {
                        timed_out: true,
                        ..old(self)@[index_of(old(self)@, process_id@)].output
                    },
                ),
            ),
            !found ==> final(self)@ == old(self)@,
    {
        match self.find(process_id) {
            None => false,
            Some(i) => {
                let ghost old_slots = self.slots@;
                proof {
                    self.lemma_index_of(process_id@, i as int);
                    assert(old_slots[i as int].output.wf());
                }
                let mut slot = self.slots.remove(i);
                slot.output.mark_timed_out();
                self.slots.insert(i, slot);
                proof {
                    self.lemma_after_replace(old_slots, i as int, slot);
                }
                true
            },
        }
    }

    proof fn lemma_index_of(&self, id: Seq<char>, i: int)
        requires
            self.wf(),
            0 <= i < self@.len(),
            self@[i].id == id,
        ensures
            has_id(self@, id),
            index_of(self@, id) == i,
            self@[i] == self.slots@[i]@,
            self.slots@[i].output.wf(),
    {
        let c = index_of(self@, id);
        assert(has_id(self@, id));
        if c != i {
            assert(self@[c].id == self@[i].id);
        }
    }

    proof fn lemma_after_replace(&self, old_slots: Seq<ProcessSlot>, i: int, slot: ProcessSlot)
        requires
            0 <= i < old_slots.len(),
            self.slots@ == old_slots.remove(i).insert(i, slot),
            slots_wf(old_slots),
            ids_unique(slot_views(old_slots)),
            slot.output.wf(),
            slot@.id == old_slots[i]@.id,
        ensures
            self.wf(),
            self@ == slot_views(old_slots).update(i, slot@),
    {
        assert(self.slots@ =~= old_slots.update(i, slot));
        assert(self@ =~= slot_views(old_slots).update(i, slot@));
        assert forall|k: int| 0 <= k < self.slots@.len() implies (#[trigger] self.slots@[k]).output.wf() by {
            if k != i {
                assert(self.slots@[k] == old_slots[k]);
            }
        }
        let v = slot_views(old_slots);
        assert forall|a: int, b: int|
            0 <= a < self@.len() && 0 <= b < self@.len() && a != b implies self@[a].id != self@[b].id by {
            assert(self@[a].id == v[a].id);
            assert(self@[b].id == v[b].id);
        }
    }
}

} // verus!
