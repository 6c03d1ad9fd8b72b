use vstd::prelude::*;
use crate::clock::is_due;
use crate::message::{reply_of, ActorError, HandleResult, Message, StopReason};
use crate::server::{
    call_decision, flow_of, next_deadline, notice_decision, posts_of, timeout_decision, Callback,
    Decision, Flow,
};

verus! {

/// A request answered with `Reply(t, _)` can only hand `t` back: the loop
/// goes on after posting `Reply(t)` exactly once, or, if the caller is gone,
/// posts nothing and ends carrying that very envelope; the caller takes `t`
/// out of it.
pub proof fn reply_carries_handler_payload<T>(
    t: T,
    wait: Option<u64>,
    r: Flow<T>,
    before: Seq<Message<T>>,
    after: Seq<Message<T>>,
)
    requires
        flow_of(call_decision(HandleResult::Reply(t, wait)), r),
        posts_of(call_decision(HandleResult::Reply(t, wait)), r, before, after),
    ensures
        call_decision(HandleResult::Reply(t, wait)) == Decision::Reply(t),
        r is Running && after == before.push(Message::Reply(t)) || r == Flow::<T>::Finished(
            Err(ActorError::SendError(Message::Reply(t))),
        ) && after == before,
        reply_of(Message::Reply(t)) == Some(t),
{
}

/// A request answered with a stop ends the loop after posting at most its
/// final reply: nothing when there is none, so the caller's wait ends with
/// the channel closed, and else `Reply(v)` unless that send failed.
pub proof fn stop_posts_only_final_reply<T>(
    reason: StopReason,
    reply: Option<T>,
    r: Flow<T>,
    before: Seq<Message<T>>,
    after: Seq<Message<T>>,
)
    requires
        flow_of(call_decision(HandleResult::Stop(reason, reply)), r),
        posts_of(call_decision(HandleResult::Stop(reason, reply)), r, before, after),
    ensures
        r is Finished,
        reply is None ==> after == before,
        reply matches Some(v) ==> after == before.push(Message::Reply(v)) || after == before,
{
}

/// A normal stop from any handler ends the run loop with success.
pub proof fn normal_stop_ends_loop<T>(reply: Option<T>, cb: Callback, r1: Flow<T>, r2: Flow<T>, r3: Flow<T>)
    requires
        flow_of(call_decision(HandleResult::Stop(StopReason::Normal, reply)), r1),
        flow_of(notice_decision(HandleResult::Stop(StopReason::Normal, reply), cb), r2),
        flow_of(timeout_decision(HandleResult::<T>::Stop(StopReason::Normal, None)), r3),
    ensures
        r1 == Flow::<T>::Finished(Ok(())),
        r2 == Flow::<T>::Finished(Ok(())),
        r3 == Flow::<T>::Finished(Ok(())),
{
}

/// An abnormal stop from any handler ends the run loop with
/// `AbnormalShutdown` carrying the stop's description.
pub proof fn abnormal_stop_carries_description<T>(
    desc: String,
    reply: Option<T>,
    cb: Callback,
    r1: Flow<T>,
    r2: Flow<T>,
    r3: Flow<T>,
)
    requires
        flow_of(call_decision(HandleResult::Stop(StopReason::Other(desc), reply)), r1),
        flow_of(notice_decision(HandleResult::Stop(StopReason::Other(desc), reply), cb), r2),
        flow_of(timeout_decision(HandleResult::<T>::Stop(StopReason::Other(desc), None)), r3),
    ensures
        r1 == Flow::<T>::Finished(Err(ActorError::AbnormalShutdown(desc))),
        r2 == Flow::<T>::Finished(Err(ActorError::AbnormalShutdown(desc))),
        r3 == Flow::<T>::Finished(Err(ActorError::AbnormalShutdown(desc))),
{
}

/// A timeout handler that answers `NoReply(Some(0))` at `now` lets the loop
/// go on and leaves the deadline due at every later instant, so the handler
/// runs again on the next iteration without waiting for any message.
pub proof fn zero_wait_fires_again<T>(deadline: Option<u64>, now: u64, later: u64)
    requires
        now <= later,
    ensures
        timeout_decision(HandleResult::<T>::NoReply(Some(0))) is Continue,
        is_due(
            next_deadline(
                HandleResult::<T>::NoReply(Some(0)),
                timeout_decision(HandleResult::<T>::NoReply(Some(0))),
                deadline,
                now,
            ),
            later,
        ),
{
}

} // verus!
