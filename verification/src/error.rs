//! What can go wrong while the master is tracked.

use crate::number::NumberError;
use redis::RedisError;
use vstd::prelude::*;
use vstd::string::StringExecFns;

verus! {

/// The error type of the `redis` crate. Its values are carried, never
/// inspected.
#[verifier::external_type_specification]
#[verifier::external_body]
pub struct ExRedisError(RedisError);

/// Why a reply to the address query is rejected.
#[derive(Clone, Copy, Debug, PartialEq, Eq, Structural)]
pub enum ReplyFault {
    /// The reply has `found` elements, not two.
    Arity { found: usize },
    /// The second element is no port.
    Port(NumberError),
}

/// Why a failover notification is rejected.
#[derive(Clone, Copy, Debug, PartialEq, Eq, Structural)]
pub enum NotificationFault {
    /// The payload of the notification is no text.
    NotText,
    /// The notification has `found` words, fewer than five.
    TooShort { found: usize },
    /// The fifth word is no port.
    Port(NumberError),
}

/// A failure of one of the two detection paths.
#[derive(Debug)]
pub enum Error {
    /// The request to the sentinels failed.
    Transport(RedisError),
    /// The sentinels answered the address query with something else than a
    /// host and a port.
    InvalidResponse(ReplyFault),
    /// A failover notification cannot be read.
    MalformedNotification(NotificationFault),
}

impl ReplyFault {
    /// What is wrong with the reply, in words.
    pub open spec fn reason(self) -> Seq<char> {
        match self {
            ReplyFault::Arity { .. } => "Response did not have exactly 2 elements!"@,
            ReplyFault::Port(error) => "Port is invalid: "@ + error.reason(),
        }
    }

    /// What is wrong with the reply, in words.
    pub fn message(&self) -> (text: String)
        ensures
            text@ == self.reason(),
    {
        match self {
            ReplyFault::Arity { .. } => String::from_str(
                "Response did not have exactly 2 elements!",
            ),
            ReplyFault::Port(error) => String::from_str("Port is invalid: ").concat(
                error.message(),
            ),
        }
    }
}

impl NotificationFault {
    /// What is wrong with the notification, in words.
    pub open spec fn reason(self) -> Seq<char> {
        match self {
            NotificationFault::NotText => "Notification is no text"@,
            NotificationFault::TooShort { .. } => "Notification has fewer than 5 words"@,
            NotificationFault::Port(error) => "Port is invalid: "@ + error.reason(),
        }
    }

    /// What is wrong with the notification, in words.
    pub fn message(&self) -> (text: String)
        ensures
            text@ == self.reason(),
    {
        match self {
            NotificationFault::NotText => String::from_str("Notification is no text"),
            NotificationFault::TooShort { .. } => String::from_str(
                "Notification has fewer than 5 words",
            ),
            NotificationFault::Port(error) => String::from_str("Port is invalid: ").concat(
                error.message(),
            ),
        }
    }
}

impl Error {
    /// The line that describes the error, given the text of what it holds:
    /// the name of the kind, and the text in round brackets.
    pub open spec fn rendered(self, detail: Seq<char>) -> Seq<char> {
        match self {
            Error::Transport(_) => "RedisError("@ + detail + ")"@,
            Error::InvalidResponse(_) => "InvalidResponse("@ + detail + ")"@,
            Error::MalformedNotification(_) => "MalformedNotification("@ + detail + ")"@,
        }
    }

    /// Describes the error in one line. For a fault of a reply or of a
    /// notification the text in the brackets is its reason; for a transport
    /// error it is what the error prints of itself.
    pub fn message(&self) -> (text: String)
        ensures
            self matches Error::InvalidResponse(fault) ==> text@ == self.rendered(fault.reason()),
            self matches Error::MalformedNotification(fault) ==> text@ == self.rendered(
                fault.reason(),
            ),
            self is Transport ==> exists|detail: Seq<char>| text@ == self.rendered(detail),
    {
        match self {
            Error::Transport(error) => {
                let detail = error.to_string();
                let text = String::from_str("RedisError(").concat(detail.as_str()).concat(")");
                assert(text@ == self.rendered(detail@));
                text
            },
            Error::InvalidResponse(fault) => {
                let detail = fault.message();
                String::from_str("InvalidResponse(").concat(detail.as_str()).concat(")")
            },
            Error::MalformedNotification(fault) => {
                let detail = fault.message();
                String::from_str("MalformedNotification(").concat(detail.as_str()).concat(")")
            },
        }
    }
}

} // verus!
