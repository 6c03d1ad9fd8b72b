use vstd::prelude::*;

verus! {

/// What `init` gives: an optional first timeout in milliseconds, or an error.
pub type InitResult<E> = Result<Option<u64>, E>;

/// A result whose error is an `ActorError` over payloads of type `X`.
pub type ActorResult<T, X> = Result<T, ActorError<X>>;

/// Why an actor stops: gracefully, or abnormally with a description.
#[derive(Debug)]
pub enum StopReason {
    Normal,
    Other(String),
}

/// What a handler answers: a reply with an optional new timeout, no reply
/// with an optional new timeout, or a stop with an optional final reply.
#[derive(Debug)]
pub enum HandleResult<T> {
    Reply(T, Option<u64>),
    NoReply(Option<u64>),
    Stop(StopReason, Option<T>),
}

/// The envelope that travels between a caller and an actor.
#[derive(Debug)]
pub enum Message<T> {
    /// A request that expects exactly one `Reply`.
    Call(T),
    /// A fire-and-forget notification.
    Cast(T),
    /// An out-of-band signal.
    Info(T),
    /// The answer to a `Call`, sent by the actor.
    Reply(T),
}

/// Failures seen by a caller or carried by an actor's terminal result.
#[derive(Debug)]
pub enum ActorError<T> {
    InitFailure(String),
    AbnormalShutdown(String),
    /// The peer was gone; the undelivered message is handed back.
    SendError(Message<T>),
    RecvError,
}

/// The payload of a `Reply` envelope, if it is one.
pub open spec fn reply_of<T>(m: Message<T>) -> Option<T> {
    match m {
        Message::Reply(t) => Some(t),
        _ => None,
    }
}

/// The terminal result of a run loop that stopped for `reason`.
pub open spec fn stop_outcome<T>(reason: StopReason) -> Result<(), ActorError<T>> {
    match reason {
        StopReason::Normal => Ok(()),
        StopReason::Other(d) => Err(ActorError::AbnormalShutdown(d)),
    }
}

impl<T> Message<T> {
    /// Takes the payload out of a `Reply`; any other envelope gives `None`.
    pub fn into_reply(self) -> (r: Option<T>)
        ensures
            r == reply_of(self),
    {
        match self {
            Message::Reply(t) => Some(t),
            _ => None,
        }
    }
}

} // verus!
