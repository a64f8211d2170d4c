//! The event subscriber: the detection path that listens to the failover
//! notifications of the sentinels.
//!
//! It connects and subscribes, handles every notification that arrives, and
//! connects again when the subscription breaks. It never stops by itself.

use crate::error::{Error, NotificationFault};
use crate::notification::{notification_handled, on_notification};
use crate::report::Report;
use crate::stream::UpdateStream;
use redis::{Msg, RedisError};
use vstd::prelude::*;

verus! {

/// A message of the `redis` crate, as a subscription delivers it.
#[verifier::external_type_specification]
#[verifier::external_body]
pub struct ExMsg(Msg);

/// The payload that `message` holds, as the text that the `redis` crate
/// reads in it, and `None` where it reads no text there. Which text that
/// is depends on the message alone and is left to that crate: a payload of
/// bytes that are UTF-8 is one case of several.
pub uninterp spec fn payload_text_of(message: Msg) -> Option<Seq<char>>;


/// Where the subscriber stands.
#[derive(Clone, Copy, Debug, PartialEq, Eq, Structural)]
pub enum SubscriberState {
    /// It has no connection and is about to make one.
    Connecting,
    /// It is subscribed and waits for notifications.
    Subscribed,
}

/// What can happen to the subscriber.
#[derive(Debug)]
pub enum SubscriberEvent {
    /// The connection was made.
    Connected,
    /// The connection could not be made.
    ConnectFailed(RedisError),
    /// A notification arrived; this is its payload.
    Message(String),
    /// A notification arrived whose payload is no text.
    Unreadable,
    /// The subscription could not be made, or it broke.
    SubscriptionFailed(RedisError),
}

/// The state in which a new subscriber starts.
pub fn subscriber_start() -> (state: SubscriberState)
    ensures
        state == SubscriberState::Connecting,
{
    SubscriberState::Connecting
}

/// The event that the arrival of `message` is: the notification with the
/// payload of the message, or an unreadable one where the payload is no
/// text.
pub fn message_event(message: &Msg) -> (event: SubscriberEvent)
    ensures
        match payload_text_of(*message) {
            Some(payload) => event matches SubscriberEvent::Message(text) && text@ == payload,
            None => event is Unreadable,
        },
{
    payload_event(payload_text(message))
}

/// What a conversion of a payload to text gave: the text, or nothing where
/// the conversion failed.
pub open spec fn text_read(text: Result<String, RedisError>) -> Option<Seq<char>> {
    match text {
        Ok(payload) => Some(payload@),
        Err(_) => None,
    }
}

/// `redis::Msg::get_payload` for a `String`: the payload of the message as
/// text, or the error of the conversion. What is claimed is that the text,
/// and whether there is one, depends on the message alone.
#[verifier::external_body]
fn payload_text(message: &Msg) -> (text: Result<String, RedisError>)
    ensures
        text_read(text) == payload_text_of(*message),
{
    message.get_payload::<String>()
}

/// The event that a payload stands for, given what its conversion to text
/// gave: a notification with that text, or an unreadable one where the
/// conversion failed.
pub fn payload_event(text: Result<String, RedisError>) -> (event: SubscriberEvent)
    ensures
        match text {
            Ok(payload) => event == SubscriberEvent::Message(payload),
            Err(_) => event is Unreadable,
        },
{
    match text {
        Ok(payload) => SubscriberEvent::Message(payload),
        Err(_) => SubscriberEvent::Unreadable,
    }
}

/// One step of the subscriber that tracks `group`.
///
/// While connecting, a connection leads on to the subscription and a
/// failure is reported and leads to the next attempt, at once. While
/// subscribed, a notification is handled and leaves the subscriber
/// subscribed, whatever it holds; an unreadable one is reported as
/// malformed; a failure of the subscription is reported and leads back to
/// connecting. An event that the state does not wait for changes nothing.
/// Only a notification can change the stream.
pub fn subscriber_step(
    state: SubscriberState,
    event: SubscriberEvent,
    group: &str,
    stream: &mut UpdateStream,
) -> (step: (SubscriberState, Report))
    ensures
        match (state, event) {
            (SubscriberState::Connecting, SubscriberEvent::Connected) => {
                &&& step.0 == SubscriberState::Subscribed
                &&& step.1 is Quiet
                &&& final(stream)@ == old(stream)@
            },
            (SubscriberState::Connecting, SubscriberEvent::ConnectFailed(failure)) => {
                &&& step.0 == SubscriberState::Connecting
                &&& step.1 == Report::Failed(Error::Transport(failure))
                &&& final(stream)@ == old(stream)@
            },
            (SubscriberState::Subscribed, SubscriberEvent::Message(payload)) => {
                &&& step.0 == SubscriberState::Subscribed
                &&& notification_handled(payload@, group@, old(stream)@, final(stream)@, step.1)
            },
            (SubscriberState::Subscribed, SubscriberEvent::Unreadable) => {
                &&& step.0 == SubscriberState::Subscribed
                &&& step.1 == Report::Failed(
                    Error::MalformedNotification(NotificationFault::NotText),
                )
                &&& final(stream)@ == old(stream)@
            },
            (SubscriberState::Subscribed, SubscriberEvent::SubscriptionFailed(failure)) => {
                &&& step.0 == SubscriberState::Connecting
                &&& step.1 == Report::Failed(Error::Transport(failure))
                &&& final(stream)@ == old(stream)@
            },
            _ => {
                &&& step.0 == state
                &&& step.1 is Quiet
                &&& final(stream)@ == old(stream)@
            },
        },
{
    match (state, event) {
        (SubscriberState::Connecting, SubscriberEvent::Connected) => (
            SubscriberState::Subscribed,
            Report::Quiet,
        ),
        (SubscriberState::Connecting, SubscriberEvent::ConnectFailed(failure)) => (
            SubscriberState::Connecting,
            Report::Failed(Error::Transport(failure)),
        ),
        (SubscriberState::Subscribed, SubscriberEvent::Message(payload)) => {
            let report = on_notification(payload.as_str(), group, stream);
            (SubscriberState::Subscribed, report)
        },
        (SubscriberState::Subscribed, SubscriberEvent::Unreadable) => (
            SubscriberState::Subscribed,
            Report::Failed(Error::MalformedNotification(NotificationFault::NotText)),
        ),
        (SubscriberState::Subscribed, SubscriberEvent::SubscriptionFailed(failure)) => (
            SubscriberState::Connecting,
            Report::Failed(Error::Transport(failure)),
        ),
        _ => (state, Report::Quiet),
    }
}

} // verus!
