//! The address query: what the sentinels answer when asked for the master
//! of a group.
//!
//! The answer is a list of two strings, the master's host and its port.

use crate::address::{Address, AddressView};
use crate::error::{Error, ReplyFault};
use crate::number::{parse_port, port_of};
use crate::report::Report;
use crate::stream::UpdateStream;
use crate::text::views;
use redis::RedisError;
use vstd::prelude::*;

verus! {

/// The address that a reply carries, or what is wrong with the reply.
///
/// A reply carries an address where it has exactly two elements and the
/// second is a port; the first element is then the host, as it stands.
pub open spec fn master_of_reply(reply: Seq<Seq<char>>) -> Result<AddressView, ReplyFault> {
    if reply.len() != 2 {
        Err(ReplyFault::Arity { found: reply.len() as usize })
    } else {
        match port_of(reply[1]) {
            Ok(port) => Ok(AddressView { host: reply[0], port }),
            Err(error) => Err(ReplyFault::Port(error)),
        }
    }
}

/// Reads the reply to an address query.
///
/// A reply of two elements whose second is a port gives the address of
/// these two. A reply of any other length is an `InvalidResponse`, and so is
/// one whose second element is no port.
pub fn parse_master_reply(reply: &Vec<String>) -> (parsed: Result<Address, Error>)
    ensures
        match master_of_reply(views(reply@)) {
            Ok(master) => parsed matches Ok(address) && address@ == master,
            Err(fault) => parsed matches Err(Error::InvalidResponse(found)) && found == fault,
        },
        reply.len() == 2 && port_of(reply[1]@) is Ok ==> (parsed matches Ok(address) && address@
            == (AddressView { host: reply[0]@, port: port_of(reply[1]@)->Ok_0 })),
        reply.len() != 2 ==> (parsed matches Err(Error::InvalidResponse(_))),
        reply.len() == 2 && port_of(reply[1]@) is Err ==> (parsed matches Err(
            Error::InvalidResponse(_),
        )),
{
    if reply.len() != 2 {
        return Err(Error::InvalidResponse(ReplyFault::Arity { found: reply.len() }));
    }
    assert(views(reply@)[0] == reply[0]@ && views(reply@)[1] == reply[1]@);
    match parse_port(reply[1].as_str()) {
        Ok(port) => Ok(Address::new(reply[0].clone(), port)),
        Err(error) => Err(Error::InvalidResponse(ReplyFault::Port(error))),
    }
}

/// Turns the outcome of an address query into the master's address.
///
/// A request that failed is a `Transport` error that holds the failure. A
/// request that was answered gives what `parse_master_reply` reads in the
/// answer.
pub fn get_master_from_sentinel(outcome: Result<Vec<String>, RedisError>) -> (master: Result<
    Address,
    Error,
>)
    ensures
        match outcome {
            Err(failure) => master matches Err(Error::Transport(held)) && held == failure,
            Ok(reply) => match master_of_reply(views(reply@)) {
                Ok(expected) => master matches Ok(address) && address@ == expected,
                Err(fault) => master matches Err(Error::InvalidResponse(found)) && found == fault,
            },
        },
{
    match outcome {
        Ok(reply) => parse_master_reply(&reply),
        Err(failure) => Err(Error::Transport(failure)),
    }
}

/// Tells whether a stream that held `before` and a report are what handling
/// the outcome of an address query leaves behind.
///
/// An answer that carries an address appends exactly that address and is
/// reported as published. A failed request and an invalid answer are
/// reported as failed, with their error, and leave the stream as it was.
pub open spec fn outcome_handled(
    outcome: Result<Vec<String>, RedisError>,
    before: Seq<AddressView>,
    after: Seq<AddressView>,
    report: Report,
) -> bool {
    match outcome {
        Err(failure) => after == before && report == Report::Failed(Error::Transport(failure)),
        Ok(reply) => match master_of_reply(views(reply@)) {
            Ok(master) => after == before.push(master) && report is Published,
            Err(fault) => after == before && report == Report::Failed(
                Error::InvalidResponse(fault),
            ),
        },
    }
}

/// Handles the outcome of one address query: the master's address, if the
/// query gave one, is appended to `stream`.
pub fn on_query_outcome(outcome: Result<Vec<String>, RedisError>, stream: &mut UpdateStream) -> (report:
    Report)
    ensures
        outcome_handled(outcome, old(stream)@, final(stream)@, report),
{
    match get_master_from_sentinel(outcome) {
        Ok(address) => {
            stream.publish(address);
            Report::Published
        },
        Err(error) => Report::Failed(error),
    }
}

} // verus!
