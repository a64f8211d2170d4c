//! The poller: the detection path that asks the sentinels for the master on
//! a fixed interval.
//!
//! It connects, asks, sleeps for the interval and starts over. It sleeps
//! after every answer, good or bad, and not after a connection that failed.
//! It never stops by itself.

use crate::error::Error;
use crate::query::{on_query_outcome, outcome_handled};
use crate::report::Report;
use crate::stream::UpdateStream;
use redis::RedisError;
use vstd::prelude::*;

verus! {

/// Where the poller stands.
#[derive(Clone, Copy, Debug, PartialEq, Eq, Structural)]
pub enum PollerState {
    /// It has no connection and is about to make one.
    Connecting,
    /// It is connected and is about to ask for the master.
    Querying,
    /// It has asked and is about to sleep for the poll interval.
    Sleeping,
}

/// What can happen to the poller.
#[derive(Debug)]
pub enum PollerEvent {
    /// The connection was made.
    Connected,
    /// The connection could not be made.
    ConnectFailed(RedisError),
    /// The address query ended: with the reply, or with the failure of the
    /// request.
    Answered(Result<Vec<String>, RedisError>),
    /// The poll interval has passed.
    Woke,
}

/// The state in which a new poller starts.
pub fn poller_start() -> (state: PollerState)
    ensures
        state == PollerState::Connecting,
{
    PollerState::Connecting
}

/// One step of the poller.
///
/// While connecting, a connection leads on to the query and a failure is
/// reported and leads to the next attempt, at once. The outcome of the query
/// is handled and leads to sleeping, whatever it is. After the sleep the
/// poller connects anew. An event that the state does not wait for changes
/// nothing. Only the outcome of a query can change the stream.
pub fn poller_step(state: PollerState, event: PollerEvent, stream: &mut UpdateStream) -> (step: (
    PollerState,
    Report,
))
    ensures
        match (state, event) {
            (PollerState::Connecting, PollerEvent::Connected) => {
                &&& step.0 == PollerState::Querying
                &&& step.1 is Quiet
                &&& final(stream)@ == old(stream)@
            },
            (PollerState::Connecting, PollerEvent::ConnectFailed(failure)) => {
                &&& step.0 == PollerState::Connecting
                &&& step.1 == Report::Failed(Error::Transport(failure))
                &&& final(stream)@ == old(stream)@
            },
            (PollerState::Querying, PollerEvent::Answered(outcome)) => {
                &&& step.0 == PollerState::Sleeping
                &&& outcome_handled(outcome, old(stream)@, final(stream)@, step.1)
            },
            (PollerState::Sleeping, PollerEvent::Woke) => {
                &&& step.0 == PollerState::Connecting
                &&& step.1 is Quiet
                &&& final(stream)@ == old(stream)@
            },
            _ => {
                &&& step.0 == state
                &&& step.1 is Quiet
                &&& final(stream)@ == old(stream)@
            },
        },
{
    match (state, event) {
        (PollerState::Connecting, PollerEvent::Connected) => (PollerState::Querying, Report::Quiet),
        (PollerState::Connecting, PollerEvent::ConnectFailed(failure)) => (
            PollerState::Connecting,
            Report::Failed(Error::Transport(failure)),
        ),
        (PollerState::Querying, PollerEvent::Answered(outcome)) => {
            let report = on_query_outcome(outcome, stream);
            (PollerState::Sleeping, report)
        },
        (PollerState::Sleeping, PollerEvent::Woke) => (PollerState::Connecting, Report::Quiet),
        _ => (state, Report::Quiet),
    }
}

} // verus!
