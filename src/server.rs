use vstd::prelude::*;
use crate::channel::{final_reply_posted, send_envelope, shutdown, Outbox};
use crate::clock::{deadline_after, is_due, rearmed, timeout_due};
use crate::message::{stop_outcome, ActorError, HandleResult, InitResult, Message, StopReason};

verus! {

/// The callbacks of an actor. The run loop calls them one at a time, in the
/// order in which envelopes arrive, each with exclusive access to the state.
pub trait GenServer: Sized + Send + 'static {
    /// The payload of every envelope.
    type T: Send + 'static;
    /// The actor's state, owned by its run loop.
    type S: Send + 'static;
    /// The error that `init` may fail with.
    type E;

    /// Runs once before the run loop starts; gives an optional first timeout
    /// in milliseconds, or fails the start.
    fn init(&self, state: &mut Self::S) -> InitResult<Self::E>;

    /// Answers a request. By default a request is not expected: the actor
    /// stops abnormally.
    fn handle_call(
        &self,
        _message: Self::T,
        _sender: &std::sync::mpsc::Sender<Message<Self::T>>,
        _state: &mut Self::S,
    ) -> HandleResult<Self::T> {
        unimplemented_call_answer()
    }

    /// Handles a notification. By default a notification is not expected:
    /// the actor stops abnormally.
    fn handle_cast(&self, _message: Self::T, _state: &mut Self::S) -> HandleResult<Self::T> {
        unimplemented_cast_answer()
    }

    /// Handles a signal; by default it is ignored.
    fn handle_info(&self, _message: Self::T, _state: &mut Self::S) -> HandleResult<Self::T> {
        unchanged_answer()
    }

    /// Runs when the armed deadline is reached; by default nothing changes.
    fn handle_timeout(&self, _state: &mut Self::S) -> HandleResult<Self::T> {
        unchanged_answer()
    }
}

/// The answer of a handler that is not implemented: an abnormal stop whose
/// description names the callback, with no final reply.
pub open spec fn is_unimplemented_answer<T>(r: HandleResult<T>, text: Seq<char>) -> bool {
    r matches HandleResult::Stop(StopReason::Other(d), None) && d@ == text
}

/// The default answer of `handle_call`.
pub fn unimplemented_call_answer<T>() -> (r: HandleResult<T>)
    ensures
        is_unimplemented_answer(r, "handle_call callback not implemented"@),
{
    HandleResult::Stop(StopReason::Other("handle_call callback not implemented".to_owned()), None)
}

/// The default answer of `handle_cast`.
pub fn unimplemented_cast_answer<T>() -> (r: HandleResult<T>)
    ensures
        is_unimplemented_answer(r, "handle_cast callback not implemented"@),
{
    HandleResult::Stop(StopReason::Other("handle_cast callback not implemented".to_owned()), None)
}

/// The default answer of `handle_info` and `handle_timeout`: go on, and
/// leave the deadline as it is.
pub fn unchanged_answer<T>() -> (r: HandleResult<T>)
    ensures
        r == HandleResult::<T>::NoReply(None),
{
    HandleResult::NoReply(None)
}

/// The callback whose answer broke the protocol.
#[derive(Debug, Clone, Copy, PartialEq, Eq)]
pub enum Callback {
    Timeout,
    Cast,
    Info,
}

/// A breach of the mailbox protocol; the run loop cannot go on.
#[derive(Debug, Clone, Copy, PartialEq, Eq)]
pub enum Fault {
    /// A callback answered with a variant it may not use.
    UnexpectedResult(Callback),
    /// A `Reply` envelope was sent to the actor.
    ReplyToActor,
}

/// The text an aborting run loop reports for a fault.
pub open spec fn fault_text(f: Fault) -> Seq<char> {
    match f {
        Fault::UnexpectedResult(Callback::Timeout) => "unexpected `HandleResult` returned from handle_timeout"@,
        Fault::UnexpectedResult(Callback::Cast) => "unexpected `HandleResult` returned from handle_cast"@,
        Fault::UnexpectedResult(Callback::Info) => "unexpected `HandleResult` returned from handle_info"@,
        Fault::ReplyToActor => "received unexpected message type: REPLY"@,
    }
}

impl Fault {
    pub fn describe(&self) -> (r: String)
        ensures
            r@ == fault_text(*self),
    {
        match self {
            Fault::UnexpectedResult(Callback::Timeout) => "unexpected `HandleResult` returned from handle_timeout".to_owned(),
            Fault::UnexpectedResult(Callback::Cast) => "unexpected `HandleResult` returned from handle_cast".to_owned(),
            Fault::UnexpectedResult(Callback::Info) => "unexpected `HandleResult` returned from handle_info".to_owned(),
            Fault::ReplyToActor => "received unexpected message type: REPLY".to_owned(),
        }
    }
}

/// What the run loop does with a handler's answer.
#[derive(Debug)]
pub enum Decision<T> {
    /// Go on, with no reply.
    Continue,
    /// Send this reply to the caller and go on.
    Reply(T),
    /// Run the shutdown sequence.
    Stop(StopReason, Option<T>),
    /// The answer is not allowed for this callback.
    Violation(Fault),
}

/// Where the run loop stands after one step.
#[derive(Debug)]
pub enum Flow<T> {
    Running,
    /// The loop has ended with this terminal result.
    Finished(Result<(), ActorError<T>>),
    /// The loop must abort.
    Fatal(Fault),
}

/// What a non-blocking poll of the mailbox gave.
#[derive(Debug)]
pub enum Poll<T> {
    Received(Message<T>),
    Empty,
    Disconnected,
}

/// The timeout a handler's answer asks for.
pub open spec fn requested_wait<T>(hr: HandleResult<T>) -> Option<u64> {
    match hr {
        HandleResult::Reply(_, w) => w,
        HandleResult::NoReply(w) => w,
        HandleResult::Stop(_, _) => None,
    }
}

/// `handle_timeout` may go on or stop without a final reply.
pub open spec fn timeout_decision<T>(hr: HandleResult<T>) -> Decision<T> {
    match hr {
        HandleResult::NoReply(_) => Decision::Continue,
        HandleResult::Stop(reason, None) => Decision::Stop(reason, None),
        _ => Decision::Violation(Fault::UnexpectedResult(Callback::Timeout)),
    }
}

/// `handle_call` may answer with any variant.
pub open spec fn call_decision<T>(hr: HandleResult<T>) -> Decision<T> {
    match hr {
        HandleResult::Reply(t, _) => Decision::Reply(t),
        HandleResult::NoReply(_) => Decision::Continue,
        HandleResult::Stop(reason, reply) => Decision::Stop(reason, reply),
    }
}

/// `handle_cast` and `handle_info` may go on or stop, never reply.
pub open spec fn notice_decision<T>(hr: HandleResult<T>, cb: Callback) -> Decision<T> {
    match hr {
        HandleResult::NoReply(_) => Decision::Continue,
        HandleResult::Stop(reason, reply) => Decision::Stop(reason, reply),
        HandleResult::Reply(_, _) => Decision::Violation(Fault::UnexpectedResult(cb)),
    }
}

/// The deadline after a handler answered `hr`, taken as `d`.
pub open spec fn next_deadline<T>(
    hr: HandleResult<T>,
    d: Decision<T>,
    current: Option<u64>,
    now: u64,
) -> Option<u64> {
    match d {
        Decision::Continue | Decision::Reply(_) => rearmed(current, requested_wait(hr), now),
        _ => current,
    }
}

/// The step that carrying out `d` may end in. A reply that cannot be
/// delivered ends the loop with the undelivered envelope.
pub open spec fn flow_of<T>(d: Decision<T>, r: Flow<T>) -> bool {
    match d {
        Decision::Continue => r is Running,
        Decision::Reply(t) => r is Running || r == Flow::<T>::Finished(
            Err(ActorError::SendError(Message::Reply(t))),
        ),
        Decision::Stop(reason, _) => r == Flow::<T>::Finished(stop_outcome(reason)),
        Decision::Violation(f) => r == Flow::<T>::Fatal(f),
    }
}

/// What carrying out `d` posts, given where it ended: the reply once when
/// it was delivered, the final reply of a stop unless its send failed, and
/// nothing else.
pub open spec fn posts_of<T>(d: Decision<T>, r: Flow<T>, before: Seq<Message<T>>, after: Seq<Message<T>>) -> bool {
    match d {
        Decision::Reply(t) => if r is Running {
            after == before.push(Message::Reply(t))
        } else {
            after == before
        },
        Decision::Stop(_, reply) => final_reply_posted(reply, before, after),
        _ => after == before,
    }
}

fn rearm(wait: Option<u64>, now: u64, deadline: &mut Option<u64>)
    ensures
        *final(deadline) == rearmed(*old(deadline), wait, now),
{
    if let Some(ms) = wait {
        *deadline = Some(deadline_after(now, ms));
    }
}

/// Interprets the answer of `handle_timeout` and rearms the deadline.
pub fn decide_timeout<T>(hr: HandleResult<T>, now: u64, deadline: &mut Option<u64>) -> (d: Decision<T>)
    ensures
        d == timeout_decision(hr),
        *final(deadline) == next_deadline(hr, d, *old(deadline), now),
{
    match hr {
        HandleResult::NoReply(wait) => {
            rearm(wait, now, deadline);
            Decision::Continue
        },
        HandleResult::Stop(reason, None) => Decision::Stop(reason, None),
        _ => Decision::Violation(Fault::UnexpectedResult(Callback::Timeout)),
    }
}

/// Interprets the answer of `handle_call` and rearms the deadline.
pub fn decide_call<T>(hr: HandleResult<T>, now: u64, deadline: &mut Option<u64>) -> (d: Decision<T>)
    ensures
        d == call_decision(hr),
        *final(deadline) == next_deadline(hr, d, *old(deadline), now),
{
    match hr {
        HandleResult::Reply(t, wait) => {
            rearm(wait, now, deadline);
            Decision::Reply(t)
        },
        HandleResult::NoReply(wait) => {
            rearm(wait, now, deadline);
            Decision::Continue
        },
        HandleResult::Stop(reason, reply) => Decision::Stop(reason, reply),
    }
}

/// Interprets the answer of `handle_cast` or `handle_info` and rearms the
/// deadline.
pub fn decide_notice<T>(hr: HandleResult<T>, cb: Callback, now: u64, deadline: &mut Option<u64>) -> (d:
    Decision<T>)
    ensures
        d == notice_decision(hr, cb),
        *final(deadline) == next_deadline(hr, d, *old(deadline), now),
{
    match hr {
        HandleResult::NoReply(wait) => {
            rearm(wait, now, deadline);
            Decision::Continue
        },
        HandleResult::Stop(reason, reply) => Decision::Stop(reason, reply),
        HandleResult::Reply(_, _) => Decision::Violation(Fault::UnexpectedResult(cb)),
    }
}

/// Carries out a decision: sends the reply, or runs the shutdown sequence.
pub fn carry_out<T>(d: Decision<T>, out: &mut Outbox<T>) -> (r: Flow<T>)
    ensures
        flow_of(d, r),
        posts_of(d, r, old(out)@, final(out)@),
{
    match d {
        Decision::Continue => Flow::Running,
        Decision::Reply(t) => match send_envelope(out, Message::Reply(t)) {
            Ok(()) => Flow::Running,
            Err(e) => Flow::Finished(Err(e)),
        },
        Decision::Stop(reason, reply) => Flow::Finished(shutdown(reason, reply, out)),
        Decision::Violation(f) => Flow::Fatal(f),
    }
}

} // verus!
