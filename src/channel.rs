use vstd::prelude::*;
use crate::message::{stop_outcome, ActorError, Message, StopReason};

verus! {

#[verifier::external_type_specification]
#[verifier::external_body]
#[verifier::reject_recursive_types(T)]
pub struct ExSender<T>(std::sync::mpsc::Sender<T>);

#[verifier::external_type_specification]
#[verifier::external_body]
#[verifier::reject_recursive_types(T)]
pub struct ExReceiver<T>(std::sync::mpsc::Receiver<T>);

/// The sending end of a channel of envelopes, with a log of every envelope
/// that was handed to the channel through it.
#[verifier::reject_recursive_types(T)]
pub struct Outbox<T> {
    sender: std::sync::mpsc::Sender<Message<T>>,
    sent: Ghost<Seq<Message<T>>>,
}

impl<T> View for Outbox<T> {
    /// The envelopes posted through this outbox, oldest first.
    type V = Seq<Message<T>>;

    closed spec fn view(&self) -> Seq<Message<T>> {
        self.sent@
    }
}

impl<T> Outbox<T> {
    pub fn new(sender: std::sync::mpsc::Sender<Message<T>>) -> (r: Outbox<T>)
        ensures
            r@ == Seq::<Message<T>>::empty(),
    {
        Outbox { sender: sender, sent: Ghost(Seq::empty()) }
    }

    /// The channel end itself, as handed to request handlers.
    pub fn sender(&self) -> &std::sync::mpsc::Sender<Message<T>> {
        &self.sender
    }

    /// Relies on std's Sender::send: it fails only when the receiving end is
    /// gone, and its error hands back the value that was to be sent; on
    /// success the value is in the channel.
    #[verifier::external_body]
    fn post(&mut self, message: Message<T>) -> (r: Result<(), Message<T>>)
        ensures
            r is Ok ==> final(self)@ == old(self)@.push(message),
            r matches Err(m) ==> m == message && final(self)@ == old(self)@,
    {
        match self.sender.send(message) {
            Ok(()) => Ok(()),
            Err(e) => Err(e.0),
        }
    }
}

/// Relies on std's Receiver::recv: blocks until a value arrives, or gives
/// `None` once every sender is gone.
#[verifier::external_body]
fn receive_message<T>(receiver: &std::sync::mpsc::Receiver<Message<T>>) -> (r: Option<Message<T>>) {
    receiver.recv().ok()
}

/// A send of `message` either posted it and succeeded, or posted nothing and
/// failed with the envelope handed back.
pub open spec fn sent_or_handed_back<T>(
    message: Message<T>,
    r: Result<(), ActorError<T>>,
    before: Seq<Message<T>>,
    after: Seq<Message<T>>,
) -> bool {
    ||| r is Ok && after == before.push(message)
    ||| r == Err::<(), ActorError<T>>(ActorError::SendError(message)) && after == before
}

/// Sends `message`; on failure the error carries it back.
pub fn send_envelope<T>(out: &mut Outbox<T>, message: Message<T>) -> (r: Result<(), ActorError<T>>)
    ensures
        sent_or_handed_back(message, r, old(out)@, final(out)@),
{
    match out.post(message) {
        Ok(()) => Ok(()),
        Err(m) => Err(ActorError::SendError(m)),
    }
}

/// Sends a fire-and-forget notification of `msg`.
pub fn notify<T>(out: &mut Outbox<T>, msg: T) -> (r: Result<(), ActorError<T>>)
    ensures
        sent_or_handed_back(Message::Cast(msg), r, old(out)@, final(out)@),
{
    send_envelope(out, Message::Cast(msg))
}

/// Sends an out-of-band signal of `msg`.
pub fn signal<T>(out: &mut Outbox<T>, msg: T) -> (r: Result<(), ActorError<T>>)
    ensures
        sent_or_handed_back(Message::Info(msg), r, old(out)@, final(out)@),
{
    send_envelope(out, Message::Info(msg))
}

/// Sends a request of `msg` (the reply is awaited with `await_reply`).
pub fn send_request<T>(out: &mut Outbox<T>, msg: T) -> (r: Result<(), ActorError<T>>)
    ensures
        sent_or_handed_back(Message::Call(msg), r, old(out)@, final(out)@),
{
    send_envelope(out, Message::Call(msg))
}

/// Blocks for the actor's next envelope; `RecvError` once the actor is gone.
pub fn await_reply<T>(receiver: &std::sync::mpsc::Receiver<Message<T>>) -> (r: Result<
    Message<T>,
    ActorError<T>,
>)
    ensures
        r is Err ==> r == Err::<Message<T>, ActorError<T>>(ActorError::RecvError),
{
    match receive_message(receiver) {
        Some(m) => Ok(m),
        None => Err(ActorError::RecvError),
    }
}

/// What the shutdown sequence may post: the final reply, unless its send
/// failed; nothing when there is none.
pub open spec fn final_reply_posted<T>(
    reply: Option<T>,
    before: Seq<Message<T>>,
    after: Seq<Message<T>>,
) -> bool {
    match reply {
        Some(m) => after == before.push(Message::Reply(m)) || after == before,
        None => after == before,
    }
}

/// Ends a run loop: sends the final reply, if any, on a best-effort basis,
/// and gives the loop's terminal result for `reason`.
pub fn shutdown<T>(reason: StopReason, reply: Option<T>, out: &mut Outbox<T>) -> (r: Result<
    (),
    ActorError<T>,
>)
    ensures
        r == stop_outcome::<T>(reason),
        final_reply_posted(reply, old(out)@, final(out)@),
{
    if let Some(msg) = reply {
        let _sent = out.post(Message::Reply(msg));
    }
    match reason {
        StopReason::Normal => Ok(()),
        StopReason::Other(e) => Err(ActorError::AbnormalShutdown(e)),
    }
}

} // verus!
