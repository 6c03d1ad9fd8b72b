//! A single-threaded actor ("generic server"): a behavior, an owned state, and a
//! run loop that dispatches requests, notifications, signals and timeouts.
//!
//! Each step of the run loop is verified here, and so is each send through an
//! `Outbox`, which logs what it posts. Spawning the thread and looping over
//! the steps is left to the caller.
mod message;
mod clock;
mod channel;
mod server;
mod actor;
mod laws;

pub use message::{ActorError, ActorResult, HandleResult, InitResult, Message, StopReason};
pub use clock::{SteadyClock, deadline_after, set_timeout, timeout_due, wait_before};
pub use channel::{await_reply, notify, send_envelope, send_request, shutdown, signal, Outbox};
pub use server::{GenServer, Callback, Fault, Decision, Flow, Poll, decide_timeout, decide_call, decide_notice, carry_out, unimplemented_call_answer, unimplemented_cast_answer, unchanged_answer};
pub use actor::{Builder, Server, started};
pub use laws::{reply_carries_handler_payload, normal_stop_ends_loop, abnormal_stop_carries_description, zero_wait_fires_again, stop_posts_only_final_reply};
