//! Outcomes of one runner RPC over a Unix socket: what a failed write, a
//! decoded response, a lost reply or a handshake reply mean for the
//! caller, and whether the connection must be closed.

use vstd::prelude::*;

use crate::decimal::{decimal, u64_decimal};
use crate::domain::error::{ErrorBody, ErrorCode};
use crate::runner::api::RunnerError;
use crate::text::concat2;

verus! {

/// Transport deadline for one RPC, in milliseconds: longer than the
/// default exec limit so a patch is not cut short, short enough that a
/// hung peer fails.
pub const RUNNER_CALL_DEADLINE_MS: u64 = 120000;

/// The error is a transport failure whose request may have run.
pub open spec fn is_ambiguous(e: RunnerError) -> bool {
    e is TransportAmbiguous
}

/// A failed frame write: before any byte reached the socket (encoding
/// failed, or the first write never started) the request never left;
/// after that it may have.
pub fn write_failure(message: &str, started: bool) -> (r: RunnerError)
    ensures
        started ==> (r matches RunnerError::TransportAmbiguous { message: m } && m@ == message@),
        !started ==> (r matches RunnerError::TransportBeforeDispatch { message: m } && m@ == message@),
{
    if started {
        RunnerError::ambiguous(message)
    } else {
        RunnerError::before_dispatch(message)
    }
}

/// A call on a connection already known dead never dispatches.
pub fn call_gate(alive: bool) -> (r: Result<(), RunnerError>)
    ensures
        alive <==> r is Ok,
        r matches Err(RunnerError::TransportBeforeDispatch { message: m }) ==> m@
            == "runner socket closed"@,
        r matches Err(e) ==> e is TransportBeforeDispatch,
{
    if alive {
        Ok(())
    } else {
        Err(RunnerError::before_dispatch("runner socket closed"))
    }
}

/// After a failed write the connection is closed only when the request
/// may have run.
pub fn close_after_write_failure(err: &RunnerError) -> (r: bool)
    ensures
        r == is_ambiguous(*err),
{
    matches!(err, RunnerError::TransportAmbiguous { .. })
}

/// A response envelope's outcome: `ok` with a result is that result; `ok`
/// without one, or a failure without an error body, is an execution
/// error of its own.
pub open spec fn decoded<T>(
    ok: Option<bool>,
    result: Option<T>,
    error: Option<ErrorBody>,
    r: Result<T, RunnerError>,
) -> bool {
    &&& ok == Some(true) ==> match result {
        Some(v) => r == Ok::<T, RunnerError>(v),
        None => r matches Err(RunnerError::Execution(b)) && b.code == ErrorCode::InvalidPatch
            && b.message@ == "runner rpc missing result"@,
    }
    &&& ok != Some(true) ==> match error {
        Some(b) => r == Err::<T, RunnerError>(RunnerError::Execution(b)),
        None => r matches Err(RunnerError::Execution(b)) && b.code == ErrorCode::InvalidPatch
            && b.message@ == "runner rpc failed"@,
    }
}

/// Decodes a response envelope; see [`decoded`].
pub fn decode_response<T>(ok: Option<bool>, result: Option<T>, error: Option<ErrorBody>) -> (r: Result<
    T,
    RunnerError,
>)
    ensures
        decoded(ok, result, error, r),
{
    let is_ok = match ok {
        Some(b) => b,
        None => false,
    };
    if is_ok {
        match result {
            Some(v) => Ok(v),
            None => Err(
                RunnerError::execution(ErrorBody::new(ErrorCode::InvalidPatch, "runner rpc missing result")),
            ),
        }
    } else {
        match error {
            Some(b) => Err(RunnerError::execution(b)),
            None => Err(RunnerError::execution(ErrorBody::new(ErrorCode::InvalidPatch, "runner rpc failed"))),
        }
    }
}

/// What waiting for a reply produced.
pub enum ReplyWait<T> {
    /// A response arrived with these fields.
    Response { ok: Option<bool>, result: Option<T>, error: Option<ErrorBody> },
    /// The reader failed every pending call with this error.
    Failed(RunnerError),
    /// The reply channel was dropped.
    Dropped,
    /// The call deadline passed.
    DeadlineExceeded,
}

/// The call's result after waiting, and whether to close the connection:
/// only a passed deadline closes it; a lost reply is ambiguous.
pub fn settle_reply<T>(wait: ReplyWait<T>) -> (r: (Result<T, RunnerError>, bool))
    ensures
        r.1 <==> wait is DeadlineExceeded,
        match wait {
            ReplyWait::Failed(e) => r.0 == Err::<T, RunnerError>(e),
            ReplyWait::Dropped => r.0 matches Err(RunnerError::TransportAmbiguous { message: m })
                && m@ == "runner socket closed"@,
            ReplyWait::DeadlineExceeded => r.0 matches Err(
                RunnerError::TransportAmbiguous { message: m },
            ) && m@ == "runner call deadline exceeded"@,
            ReplyWait::Response { ok, result, error } => decoded(ok, result, error, r.0),
        },
{
    match wait {
        ReplyWait::Response { ok, result, error } => (decode_response(ok, result, error), false),
        ReplyWait::Failed(e) => (Err(e), false),
        ReplyWait::Dropped => (Err(RunnerError::ambiguous("runner socket closed")), false),
        ReplyWait::DeadlineExceeded => (
            Err(RunnerError::ambiguous("runner call deadline exceeded")),
            true,
        ),
    }
}

/// A peer's answer to `hello`.
pub enum HelloReply {
    /// The peer speaks this wire protocol version.
    Hello { protocol: u32 },
    /// Some other result, as text.
    Other { description: String },
}

/// The handshake's outcome and whether to close the connection. Only a
/// hello with the expected protocol succeeds. Every failure is reported
/// as before-dispatch, since nothing was requested yet; the connection is
/// closed unless the call never left.
pub fn hello_outcome(expected: u32, reply: Result<HelloReply, RunnerError>) -> (r: (
    Result<(), RunnerError>,
    bool,
))
    ensures
        r.0 is Ok <==> (reply matches Ok(HelloReply::Hello { protocol }) && protocol == expected),
        r.0 matches Err(e) ==> e is TransportBeforeDispatch,
        r.1 <==> (r.0 is Err && !(reply matches Err(RunnerError::TransportBeforeDispatch { .. }))),
        reply matches Ok(HelloReply::Other { description }) ==> r.0 matches Err(
            RunnerError::TransportBeforeDispatch { message },
        ) && message@ == "unexpected runner hello result: "@ + description@,
        reply matches Err(RunnerError::Execution(b)) ==> r.0 matches Err(
            RunnerError::TransportBeforeDispatch { message },
        ) && message@ == b.message@,
        reply matches Ok(HelloReply::Hello { protocol }) ==> (protocol != expected ==> (r.0 matches Err(
            RunnerError::TransportBeforeDispatch { message },
        ) && message@ == "unexpected runner hello result: Hello { protocol: "@ + decimal(
            protocol as nat,
        ) + " }"@)),
        reply matches Err(RunnerError::TransportBeforeDispatch { message: m }) ==> r.0 matches Err(
            RunnerError::TransportBeforeDispatch { message },
        ) && message@ == m@,
        reply matches Err(RunnerError::TransportAmbiguous { message: m }) ==> r.0 matches Err(
            RunnerError::TransportBeforeDispatch { message },
        ) && message@ == m@,
{
    match reply {
        Ok(HelloReply::Hello { protocol }) => {
            if protocol == expected {
                (Ok(()), false)
            } else {
                let n = u64_decimal(protocol as u64);
                let m = concat2("unexpected runner hello result: Hello { protocol: ", n.as_str());
                let m2 = concat2(m.as_str(), " }");
                (Err(RunnerError::before_dispatch(m2.as_str())), true)
            }
        },
        Ok(HelloReply::Other { description }) => {
            let m = concat2("unexpected runner hello result: ", description.as_str());
            (Err(RunnerError::before_dispatch(m.as_str())), true)
        },
        Err(RunnerError::TransportBeforeDispatch { message }) => (
            Err(RunnerError::before_dispatch(message.as_str())),
            false,
        ),
        Err(RunnerError::TransportAmbiguous { message }) => (
            Err(RunnerError::before_dispatch(message.as_str())),
            true,
        ),
        Err(RunnerError::Execution(body)) => (
            Err(RunnerError::before_dispatch(body.message.as_str())),
            true,
        ),
    }
}

/// The id of the `n`th request on a connection.
pub fn request_id(n: u64) -> (r: String)
    ensures
        r@ == "rrpc-"@ + decimal(n as nat),
{
    let d = u64_decimal(n);
    concat2("rrpc-", d.as_str())
}

/// A reply of the wrong kind for its request.
pub fn unexpected(description: &str) -> (r: RunnerError)
    ensures
        r matches RunnerError::Execution(b) && b.code == ErrorCode::InvalidPatch && b.message@
            == "unexpected runner rpc result: "@ + description@,
{
    let m = concat2("unexpected runner rpc result: ", description);
    RunnerError::execution(ErrorBody::new(ErrorCode::InvalidPatch, m.as_str()))
}

/// One frame read from the runner socket.
pub enum Frame {
    /// A process-exit event for this process id.
    ProcessExited { process_id: String },
    /// Another event.
    OtherEvent,
    /// A response, with its request id if it carried one.
    Response { request_id: Option<String> },
    /// A request: the gateway serves none.
    Request,
    /// The frame did not decode; the parser's message.
    Invalid { error: String },
    /// The socket closed or reading failed.
    Closed,
}

/// What the socket reader does with a frame.
pub enum ReaderStep {
    /// Report the process exit to the gateway.
    Notify(String),
    /// Hand the response to the call waiting on this id.
    Deliver(String),
    /// Nothing to do.
    Ignore,
    /// Fail every pending call with this error and stop reading.
    FailAll(RunnerError),
}

/// The reader's step for a frame: events and responses are routed, a bad
/// frame or a closed socket fails every pending call as ambiguous, since
/// their requests may have run.
pub fn reader_step(frame: Frame) -> (r: ReaderStep)
    ensures
        match frame {
            Frame::ProcessExited { process_id } => r matches ReaderStep::Notify(p) && p == process_id,
            Frame::OtherEvent => r is Ignore,
            Frame::Response { request_id } => match request_id {
                Some(id) => r matches ReaderStep::Deliver(d) && d == id,
                None => r is Ignore,
            },
            Frame::Request => r is Ignore,
            Frame::Invalid { error } => r matches ReaderStep::FailAll(
                RunnerError::TransportAmbiguous { message },
            ) && message@ == "invalid runner rpc: "@ + error@,
            Frame::Closed => r matches ReaderStep::FailAll(RunnerError::TransportAmbiguous { message })
                && message@ == "runner socket closed"@,
        },
{
    match frame {
        Frame::ProcessExited { process_id } => ReaderStep::Notify(process_id),
        Frame::OtherEvent => ReaderStep::Ignore,
        Frame::Response { request_id } => match request_id {
            Some(id) => ReaderStep::Deliver(id),
            None => ReaderStep::Ignore,
        },
        Frame::Request => ReaderStep::Ignore,
        Frame::Invalid { error } => {
            let m = concat2("invalid runner rpc: ", error.as_str());
            ReaderStep::FailAll(RunnerError::ambiguous(m.as_str()))
        },
        Frame::Closed => ReaderStep::FailAll(RunnerError::ambiguous("runner socket closed")),
    }
}

} // verus!
