use vstd::prelude::*;
use crate::clock::{deadline_after, is_due, deadline_spec, timeout_due};
use crate::channel::Outbox;
use crate::message::{ActorError, InitResult, Message};
use crate::server::{
    call_decision, carry_out, decide_call, decide_notice, decide_timeout, flow_of, next_deadline, posts_of,
    notice_decision, timeout_decision, Callback, Fault, Flow, GenServer, Poll,
};

verus! {

/// Binds a behavior and an optional name for the actor's thread.
pub struct Builder<A: GenServer> {
    pub name: Option<String>,
    pub spec: A,
}

/// The deadline armed at startup from what `init` gave.
pub open spec fn initial_deadline(wait: Option<u64>, now: u64) -> Option<u64> {
    match wait {
        Some(ms) => Some(deadline_spec(now, ms)),
        None => None,
    }
}

/// The name a thread gets when none was given.
pub open spec fn thread_name_spec(name: Option<String>) -> Seq<char> {
    match name {
        Some(n) => n@,
        None => "GenServer"@,
    }
}

impl<A: GenServer> Builder<A> {
    pub fn new(spec: A) -> (r: Builder<A>)
        ensures
            r.name is None,
            r.spec == spec,
    {
        Builder { name: None, spec: spec }
    }

    pub fn name(self, name: String) -> (r: Builder<A>)
        ensures
            r.name == Some(name),
            r.spec == self.spec,
    {
        Builder { name: Some(name), spec: self.spec }
    }

    /// The name of the actor's thread: the one given, else "GenServer".
    pub fn thread_name(&self) -> (r: String)
        ensures
            r@ == thread_name_spec(self.name),
    {
        match &self.name {
            Some(n) => n.clone(),
            None => "GenServer".to_owned(),
        }
    }

    /// Runs `init` on `state` at `now`, then starts from its answer as
    /// `started` does.
    pub fn prepare(self, state: A::S, now: u64) -> (r: Result<Server<A>, A::E>)
        ensures
            exists|st: A::S, answer: InitResult<A::E>|
                #[trigger] started_as(self.spec, st, answer, now, r),
    {
        let mut state = state;
        let answer = self.spec.init(&mut state);
        started(self.spec, state, answer, now)
    }
}

/// The run-loop state that `init`'s answer leads to: on `Ok(w)` the
/// behavior and the state as `init` left them, with the first deadline `w`
/// after `now` when `w` is `Some`, else none; on `Err(e)` that error.
pub open spec fn started_as<A: GenServer>(
    spec: A,
    state: A::S,
    answer: InitResult<A::E>,
    now: u64,
    r: Result<Server<A>, A::E>,
) -> bool {
    match answer {
        Ok(w) => r matches Ok(s) && s.spec == spec && s.state == state && s.deadline
            == initial_deadline(w, now),
        Err(e) => r == Err::<Server<A>, A::E>(e),
    }
}

/// Starts a run loop from `init`'s answer.
pub fn started<A: GenServer>(spec: A, state: A::S, answer: InitResult<A::E>, now: u64) -> (r: Result<
    Server<A>,
    A::E,
>)
    ensures
        started_as(spec, state, answer, now, r),
{
    match answer {
        Ok(wait) => {
            let deadline = match wait {
                Some(ms) => Some(deadline_after(now, ms)),
                None => None,
            };
            Ok(Server { spec: spec, state: state, deadline: deadline })
        },
        Err(e) => Err(e),
    }
}

/// What a run loop owns: the behavior, the state, and the armed deadline
/// in milliseconds on the loop's clock.
pub struct Server<A: GenServer> {
    pub spec: A,
    pub state: A::S,
    pub deadline: Option<u64>,
}

impl<A: GenServer> Server<A> {
    /// The first half of a loop iteration: runs `handle_timeout` if the
    /// deadline has been reached at `now`, and carries out its answer.
    pub fn check_timeout(&mut self, now: u64, out: &mut Outbox<A::T>) -> (r:
        Flow<A::T>)
        ensures
            final(self).spec == old(self).spec,
            !is_due(old(self).deadline, now) ==> r is Running && *final(self) == *old(self)
                && final(out)@ == old(out)@,
            is_due(old(self).deadline, now) ==> exists|hr: crate::message::HandleResult<A::T>|
                {
                    let d = #[trigger] timeout_decision(hr);
                    flow_of(d, r) && posts_of(d, r, old(out)@, final(out)@) && final(self).deadline == next_deadline(
                        hr,
                        d,
                        old(self).deadline,
                        now,
                    )
                },
    {
        if !timeout_due(self.deadline, now) {
            return Flow::Running;
        }
        let hr = self.spec.handle_timeout(&mut self.state);
        let d = decide_timeout(hr, now, &mut self.deadline);
        let r = carry_out(d, out);
        r
    }

    /// The second half of a loop iteration: handles what the mailbox poll
    /// gave. A closed mailbox ends the loop normally; a `Reply` sent to the
    /// actor breaks the protocol.
    pub fn handle_poll(
        &mut self,
        polled: Poll<A::T>,
        now: u64,
        out: &mut Outbox<A::T>,
    ) -> (r: Flow<A::T>)
        ensures
            final(self).spec == old(self).spec,
            polled is Empty ==> r is Running && *final(self) == *old(self) && final(out)@
                == old(out)@,
            polled is Disconnected ==> r == Flow::<A::T>::Finished(Ok(())) && *final(self) == *old(
                self)
                && final(out)@ == old(out)@,
            polled matches Poll::Received(Message::Reply(_)) ==> r == Flow::<A::T>::Fatal(
                Fault::ReplyToActor,
            ) && *final(self) == *old(self) && final(out)@ == old(out)@,
            polled matches Poll::Received(Message::Call(_)) ==> exists|
                hr: crate::message::HandleResult<A::T>,
            |
                {
                    let d = #[trigger] call_decision(hr);
                    flow_of(d, r) && posts_of(d, r, old(out)@, final(out)@) && final(self).deadline == next_deadline(
                        hr,
                        d,
                        old(self).deadline,
                        now,
                    )
                },
            polled matches Poll::Received(Message::Cast(_)) ==> exists|
                hr: crate::message::HandleResult<A::T>,
            |
                {
                    let d = #[trigger] notice_decision(hr, Callback::Cast);
                    flow_of(d, r) && posts_of(d, r, old(out)@, final(out)@) && final(self).deadline == next_deadline(
                        hr,
                        d,
                        old(self).deadline,
                        now,
                    )
                },
            polled matches Poll::Received(Message::Info(_)) ==> exists|
                hr: crate::message::HandleResult<A::T>,
            |
                {
                    let d = #[trigger] notice_decision(hr, Callback::Info);
                    flow_of(d, r) && posts_of(d, r, old(out)@, final(out)@) && final(self).deadline == next_deadline(
                        hr,
                        d,
                        old(self).deadline,
                        now,
                    )
                },
    {
        match polled {
            Poll::Empty => Flow::Running,
            Poll::Disconnected => Flow::Finished(Ok(())),
            Poll::Received(Message::Reply(_)) => Flow::Fatal(Fault::ReplyToActor),
            Poll::Received(Message::Call(msg)) => {
                let hr = self.spec.handle_call(msg, out.sender(), &mut self.state);
                let d = decide_call(hr, now, &mut self.deadline);
                let r = carry_out(d, out);
                r
            },
            Poll::Received(Message::Cast(msg)) => {
                let hr = self.spec.handle_cast(msg, &mut self.state);
                let d = decide_notice(hr, Callback::Cast, now, &mut self.deadline);
                let r = carry_out(d, out);
                r
            },
            Poll::Received(Message::Info(msg)) => {
                let hr = self.spec.handle_info(msg, &mut self.state);
                let d = decide_notice(hr, Callback::Info, now, &mut self.deadline);
                let r = carry_out(d, out);
                r
            },
        }
    }
}

} // verus!
