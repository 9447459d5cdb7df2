//! Bounded retention of one managed process's combined output.

use vstd::prelude::*;

use crate::domain::error::{ErrorBody, ErrorCode};
use crate::domain::ids::ProcessId;
use crate::runner::api::RunnerReadResult;

verus! {

/// What a lossy UTF-8 decoding of `bytes` yields: the decoded text when
/// the bytes are valid UTF-8, replacement characters otherwise.
pub uninterp spec fn lossy_decode(bytes: Seq<u8>) -> Seq<char>;

/// `String::from_utf8_lossy` from std, turned into an owned string.
#[verifier::external_body]
pub(crate) fn decode_lossy(bytes: &[u8]) -> (r: String)
    ensures
        r@ == lossy_decode(bytes@),
        vstd::utf8::valid_utf8(bytes@) ==> r@ == vstd::utf8::decode_utf8(bytes@),
{
    String::from_utf8_lossy(bytes).into_owned()
}

/// `std::str::from_utf8(bytes).is_ok()`: whether `bytes` is valid UTF-8.
#[verifier::external_body]
pub(crate) fn is_valid_utf8(bytes: &[u8]) -> (r: bool)
    ensures
        r == vstd::utf8::valid_utf8(bytes@),
{
    std::str::from_utf8(bytes).is_ok()
}

/// Everything a process has written so far, how much of the front has
/// been dropped to honor the cap, and whether the stream ended or timed out.
pub struct OutputView {
    pub stream: Seq<u8>,
    pub dropped: nat,
    pub eof: bool,
    pub timed_out: bool,
}

impl OutputView {
    /// Bytes produced so far.
    pub open spec fn total(self) -> nat {
        self.stream.len()
    }

    /// The bytes still held: everything after the dropped prefix.
    pub open spec fn retained(self) -> Seq<u8> {
        self.stream.subrange(self.dropped as int, self.stream.len() as int)
    }

    /// The state after `chunk` arrives with at most `cap` bytes retained:
    /// the oldest bytes are dropped first.
    pub open spec fn after_append(self, chunk: Seq<u8>, cap: nat) -> OutputView {
        let kept = self.retained().len() + chunk.len();
        OutputView {
            stream: self.stream + chunk,
            dropped: if kept > cap {
                (self.dropped + (kept - cap)) as nat
            } else {
                self.dropped
            },
            eof: self.eof,
            timed_out: self.timed_out,
        }
    }

    /// Where a read at `cursor` starts: never inside the dropped prefix.
    pub open spec fn read_start(self, cursor: nat) -> nat {
        if cursor < self.dropped {
            self.dropped
        } else {
            cursor
        }
    }

    /// The bytes a read at `cursor` returns: the stream from its start to the end.
    pub open spec fn read_chunk(self, cursor: nat) -> Seq<u8> {
        let start = self.read_start(cursor);
        if start < self.total() {
            self.stream.subrange(start as int, self.total() as int)
        } else {
            Seq::empty()
        }
    }
}

/// What a read of `v` at `cursor` for `process_id` answers. Once a
/// timed-out process has been read to its end the answer is `Timeout`;
/// otherwise the chunk from the read start to the end, decoded lossily,
/// with the cursor after it and whether output was lost.
pub open spec fn read_reply(
    v: OutputView,
    process_id: Seq<char>,
    cursor: u64,
    r: Result<RunnerReadResult, ErrorBody>,
) -> bool {
    match r {
        Err(e) => v.timed_out && cursor >= v.total() && e.code == ErrorCode::Timeout && e.message@
            == "managed process exceeded time limit"@ && e.operation_id is None,
        Ok(res) => !(v.timed_out && cursor >= v.total()) && res.process_id.0@ == process_id
            && res.cursor == v.read_start(cursor as nat) + v.read_chunk(cursor as nat).len()
            && res.chunk@ == lossy_decode(v.read_chunk(cursor as nat)) && res.eof == (v.eof
            && res.cursor >= v.total()) && res.output_lost == (v.dropped > 0) && res.retained_from
            == v.dropped,
    }
}

/// The retained output of one managed process.
pub struct OutputBuffer {
    dropped: u64,
    total: u64,
    bytes: Vec<u8>,
    eof: bool,
    timed_out: bool,
    stream: Ghost<Seq<u8>>,
}

impl View for OutputBuffer {
    type V = OutputView;

    closed spec fn view(&self) -> OutputView {
        OutputView {
            stream: self.stream@,
            dropped: self.dropped as nat,
            eof: self.eof,
            timed_out: self.timed_out,
        }
    }
}

impl OutputBuffer {
    /// The counters agree with the stream and the retained bytes are its tail.
    pub closed spec fn wf(&self) -> bool {
        &&& self.total as nat == self.stream@.len()
        &&& self.dropped <= self.total
        &&& self.bytes@ == self.stream@.subrange(self.dropped as int, self.total as int)
    }

    /// Nothing written yet.
    pub fn new() -> (r: Self)
        ensures
            r.wf(),
            r@.stream == Seq::<u8>::empty(),
            r@.dropped == 0,
            !r@.eof,
            !r@.timed_out,
    {
        let r = OutputBuffer {
            dropped: 0,
            total: 0,
            bytes: Vec::new(),
            eof: false,
            timed_out: false,
            stream: Ghost(Seq::empty()),
        };
        proof {
            assert(r.bytes@ =~= r.stream@.subrange(0, 0));
        }
        r
    }

    /// Bytes produced so far.
    pub fn total(&self) -> (r: u64)
        requires
            self.wf(),
        ensures
            r == self@.total(),
    {
        self.total
    }

    /// First retained offset.
    pub fn dropped(&self) -> (r: u64)
        requires
            self.wf(),
        ensures
            r == self@.dropped,
    {
        self.dropped
    }

    /// The stream has ended.
    pub fn eof(&self) -> (r: bool)
        ensures
            r == self@.eof,
    {
        self.eof
    }

    /// Appends a chunk, then drops the oldest bytes beyond `cap`.
    pub fn append(&mut self, chunk: &[u8], cap: usize)
        requires
            old(self).wf(),
            old(self)@.total() + chunk@.len() <= u64::MAX,
        ensures
            final(self).wf(),
            final(self)@ == old(self)@.after_append(chunk@, cap as nat),
    {
        let ghost old_view = self@;
        let mut combined: Vec<u8> = Vec::new();
        std::mem::swap(&mut combined, &mut self.bytes);
        let mut i: usize = 0;
        while i < chunk.len()
            invariant
                i <= chunk@.len(),
                combined@ == old_view.retained() + chunk@.subrange(0, i as int),
            decreases chunk@.len() - i,
        {
            combined.push(chunk[i]);
            i = i + 1;
            proof {
                assert(combined@ =~= old_view.retained() + chunk@.subrange(0, i as int));
            }
        }
        proof {
            assert(chunk@.subrange(0, chunk@.len() as int) =~= chunk@);
        }
        self.total = self.total + chunk.len() as u64;
        self.stream = Ghost(self.stream@ + chunk@);
        if combined.len() > cap {
            let extra = combined.len() - cap;
            let mut kept: Vec<u8> = Vec::new();
            let mut k = extra;
            while k < combined.len()
                invariant
                    extra <= k <= combined@.len(),
                    kept@ == combined@.subrange(extra as int, k as int),
                decreases combined@.len() - k,
            {
                kept.push(combined[k]);
                k = k + 1;
                proof {
                    assert(kept@ =~= combined@.subrange(extra as int, k as int));
                }
            }
            self.bytes = kept;
            self.dropped = self.dropped + extra as u64;
        } else {
            self.bytes = combined;
        }
        proof {
            let s = self.stream@;
            assert(self.bytes@ =~= s.subrange(self.dropped as int, self.total as int));
        }
    }

    /// No more output will arrive.
    pub fn mark_eof(&mut self)
        requires
            old(self).wf(),
        ensures
            final(self).wf(),
            final(self)@ == (OutputView { eof: true, ..old(self)@ }),
    {
        self.eof = true;
    }

    /// The process was killed for exceeding its time limit.
    pub fn mark_timed_out(&mut self)
        requires
            old(self).wf(),
        ensures
            final(self).wf(),
            final(self)@ == (OutputView { timed_out: true, ..old(self)@ }),
    {
        self.timed_out = true;
    }

    /// Output from `cursor` on. A cursor inside the dropped prefix starts at
    /// the first retained byte. Once a timed-out process has been read to
    /// its end, reading reports the timeout.
    pub fn read(&self, process_id: ProcessId, cursor: u64) -> (r: Result<RunnerReadResult, ErrorBody>)
        requires
            self.wf(),
        ensures
            read_reply(self@, process_id.0@, cursor, r),
    {
        if self.timed_out && cursor >= self.total {
            return Err(ErrorBody::new(ErrorCode::Timeout, "managed process exceeded time limit"));
        }
        let start = if cursor < self.dropped {
            self.dropped
        } else {
            cursor
        };
        let skip = start - self.dropped;
        let mut chunk: Vec<u8> = Vec::new();
        if skip < self.bytes.len() as u64 {
            let mut k = skip as usize;
            while k < self.bytes.len()
                invariant
                    skip <= k <= self.bytes@.len(),
                    chunk@ == self.bytes@.subrange(skip as int, k as int),
                decreases self.bytes@.len() - k,
            {
                chunk.push(self.bytes[k]);
                k = k + 1;
                proof {
                    assert(chunk@ =~= self.bytes@.subrange(skip as int, k as int));
                }
            }
        }
        proof {
            let v = self@;
            if skip < self.bytes@.len() {
                assert(chunk@ =~= v.read_chunk(cursor as nat));
            } else {
                assert(chunk@ =~= v.read_chunk(cursor as nat));
            }
        }
        let next = start + chunk.len() as u64;
        let text = decode_lossy(chunk.as_slice());
        Ok(RunnerReadResult {
            process_id,
            cursor: next,
            chunk: text,
            eof: self.eof && next >= self.total,
            output_lost: self.dropped > 0,
            retained_from: self.dropped,
        })
    }
}

/// Appending keeps the counters consistent and holds at most `cap` bytes,
/// always the newest: the retained bytes are the tail of everything
/// written, and nothing is dropped while it all fits.
pub proof fn lemma_append_keeps_newest(v: OutputView, chunk: Seq<u8>, cap: nat)
    requires
        v.dropped <= v.total(),
    ensures
        ({
            let w = v.after_append(chunk, cap);
            &&& w.total() == v.total() + chunk.len()
            &&& w.dropped <= w.total()
            &&& w.dropped >= v.dropped
            &&& w.retained().len() == if v.retained().len() + chunk.len() <= cap {
                v.retained().len() + chunk.len()
            } else {
                cap
            }
            &&& v.retained().len() + chunk.len() <= cap ==> w.retained() == v.retained() + chunk
            &&& w.retained() == w.stream.subrange(w.total() - w.retained().len(), w.total() as int)
        }),
{
    let w = v.after_append(chunk, cap);
    if v.retained().len() + chunk.len() <= cap {
        assert(w.retained() =~= v.retained() + chunk);
    }
}

/// A read starting where the last one ended returns exactly what was
/// written since, when none of it had to be dropped.
pub proof fn lemma_read_returns_new_output(v: OutputView, chunk: Seq<u8>, cap: nat)
    requires
        v.dropped <= v.total(),
        v.retained().len() + chunk.len() <= cap,
    ensures
        v.after_append(chunk, cap).read_chunk(v.total()) == chunk,
        v.after_append(chunk, cap).read_start(v.total()) + chunk.len() == v.after_append(
            chunk,
            cap,
        ).total(),
{
    let w = v.after_append(chunk, cap);
    if chunk.len() > 0 {
        assert(w.stream.subrange(v.total() as int, w.total() as int) =~= chunk);
    } else {
        assert(w.read_chunk(v.total()) =~= chunk);
    }
}

/// A read always catches up: the next cursor is the end of the output, or
/// the cursor itself when it was already past the end; it never points
/// into the dropped prefix.
pub proof fn lemma_read_catches_up(v: OutputView, cursor: nat)
    requires
        v.dropped <= v.total(),
    ensures
        v.read_start(cursor) + v.read_chunk(cursor).len() == if v.read_start(cursor) < v.total() {
            v.total() as int
        } else {
            v.read_start(cursor) as int
        },
        v.read_start(cursor) >= v.dropped,
{
}


/// A timed-out process still hands out what it wrote: a read fails, with
/// `Timeout`, exactly when the process timed out and the cursor has
/// reached the end of its output; a read from a retained position returns
/// everything from there to the end and moves the cursor to the end.
pub proof fn lemma_timeout_only_after_output_is_read(
    v: OutputView,
    process_id: Seq<char>,
    cursor: u64,
    r: Result<RunnerReadResult, ErrorBody>,
)
    requires
        v.dropped <= v.total(),
        read_reply(v, process_id, cursor, r),
    ensures
        r is Err <==> (v.timed_out && cursor >= v.total()),
        r matches Err(e) ==> e.code == ErrorCode::Timeout,
        r matches Ok(res) ==> (v.dropped <= cursor <= v.total() ==> res.chunk@ == lossy_decode(
            v.stream.subrange(cursor as int, v.total() as int),
        ) && res.cursor == v.total()),
{
    if let Ok(res) = r {
        if v.dropped <= cursor && cursor < v.total() {
        } else if cursor == v.total() {
            assert(v.stream.subrange(cursor as int, v.total() as int) =~= Seq::<u8>::empty());
            assert(v.read_chunk(cursor as nat) =~= Seq::<u8>::empty());
        }
    }
}

} // verus!
