//! Failover notifications.
//!
//! The sentinels announce a new master as one line of five words, separated
//! by white space: the group, then host and port of the old master, then
//! host and port of the new one. Words after the fifth are not looked at.

use crate::address::{Address, AddressView};
use crate::error::{Error, NotificationFault};
use crate::number::{parse_port, port_of};
use crate::report::Report;
use crate::stream::UpdateStream;
use crate::text::{same_text, split_ascii_whitespace, views, words};
use vstd::prelude::*;

verus! {

/// What a notification says to someone who tracks `group`.
///
/// With fewer than five words it is malformed. Otherwise, where its first
/// word is not `group`, it says nothing (`None`). Otherwise it names the new
/// master by its fourth and fifth word, and is malformed where the fifth is
/// no port.
pub open spec fn switch_of(payload: Seq<char>, group: Seq<char>) -> Result<
    Option<AddressView>,
    NotificationFault,
> {
    let parts = words(payload);
    if parts.len() < 5 {
        Err(NotificationFault::TooShort { found: parts.len() as usize })
    } else if parts[0] != group {
        Ok(None)
    } else {
        match port_of(parts[4]) {
            Ok(port) => Ok(Some(AddressView { host: parts[3], port })),
            Err(error) => Err(NotificationFault::Port(error)),
        }
    }
}

/// Reads one notification on behalf of someone who tracks `group`.
pub fn parse_notification(payload: &str, group: &str) -> (parsed: Result<Option<Address>, Error>)
    ensures
        match switch_of(payload@, group@) {
            Ok(Some(master)) => parsed matches Ok(Some(address)) && address@ == master,
            Ok(None) => parsed matches Ok(None),
            Err(fault) => parsed matches Err(Error::MalformedNotification(found)) && found
                == fault,
        },
{
    let parts = split_ascii_whitespace(payload);
    if parts.len() < 5 {
        return Err(Error::MalformedNotification(NotificationFault::TooShort { found: parts.len() }));
    }
    assert(views(parts@)[0] == parts[0]@ && views(parts@)[3] == parts[3]@ && views(parts@)[4]
        == parts[4]@);
    if !same_text(parts[0].as_str(), group) {
        return Ok(None);
    }
    match parse_port(parts[4].as_str()) {
        Ok(port) => Ok(Some(Address::new(parts[3].clone(), port))),
        Err(error) => Err(Error::MalformedNotification(NotificationFault::Port(error))),
    }
}

/// Tells whether a stream that held `before` and a report are what handling
/// the notification `payload` for `group` leaves behind.
///
/// A notification that names a new master of `group` appends exactly that
/// address and is reported as published. One about another group is
/// reported as ignored, a malformed one as failed with its fault, and both
/// leave the stream as it was.
pub open spec fn notification_handled(
    payload: Seq<char>,
    group: Seq<char>,
    before: Seq<AddressView>,
    after: Seq<AddressView>,
    report: Report,
) -> bool {
    match switch_of(payload, group) {
        Ok(Some(master)) => after == before.push(master) && report is Published,
        Ok(None) => after == before && report is Ignored,
        Err(fault) => after == before && report == Report::Failed(
            Error::MalformedNotification(fault),
        ),
    }
}

/// Handles one notification: the new master of `group`, if the notification
/// names one, is appended to `stream`.
///
/// A notification of fewer than five words, and one about another group,
/// leave the stream as it is. One of five words or more about `group`
/// appends exactly one address, the fourth word as host and the fifth as
/// port, unless the fifth is no port.
pub fn on_notification(payload: &str, group: &str, stream: &mut UpdateStream) -> (report: Report)
    ensures
        notification_handled(payload@, group@, old(stream)@, final(stream)@, report),
        words(payload@).len() < 5 ==> final(stream)@ == old(stream)@,
        words(payload@).len() >= 5 && words(payload@)[0] != group@ ==> final(stream)@ == old(
            stream,
        )@,
        words(payload@).len() >= 5 && words(payload@)[0] == group@ && port_of(words(payload@)[4])
            is Ok ==> final(stream)@ == old(stream)@.push(
            (AddressView { host: words(payload@)[3], port: port_of(words(payload@)[4])->Ok_0 }),
        ),
{
    match parse_notification(payload, group) {
        Ok(Some(address)) => {
            stream.publish(address);
            Report::Published
        },
        Ok(None) => Report::Ignored,
        Err(error) => Report::Failed(error),
    }
}

} // verus!
