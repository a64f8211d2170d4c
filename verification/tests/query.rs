use redis::{ErrorKind, RedisError};
use sentinel_watch::address::Address;
use sentinel_watch::error::{Error, ReplyFault};
use sentinel_watch::number::NumberError;
use sentinel_watch::query::{get_master_from_sentinel, on_query_outcome, parse_master_reply};
use sentinel_watch::report::Report;
use sentinel_watch::stream::UpdateStream;

fn reply(parts: &[&str]) -> Vec<String> {
    parts.iter().map(|part| part.to_string()).collect()
}

fn refused() -> RedisError {
    RedisError::from((ErrorKind::Io, "connection refused"))
}

#[test]
fn reply_of_host_and_port_gives_the_address() {
    let parsed = parse_master_reply(&reply(&["10.0.0.5", "6380"]));
    assert_eq!(parsed.unwrap(), Address::new("10.0.0.5".to_string(), 6380));
}

#[test]
fn reply_of_one_element_is_invalid() {
    let parsed = parse_master_reply(&reply(&["10.0.0.5"]));
    assert!(matches!(
        parsed,
        Err(Error::InvalidResponse(ReplyFault::Arity { found: 1 }))
    ));
}

#[test]
fn reply_of_no_or_three_elements_is_invalid() {
    assert!(matches!(
        parse_master_reply(&reply(&[])),
        Err(Error::InvalidResponse(ReplyFault::Arity { found: 0 }))
    ));
    assert!(matches!(
        parse_master_reply(&reply(&["10.0.0.5", "6380", "x"])),
        Err(Error::InvalidResponse(ReplyFault::Arity { found: 3 }))
    ));
}

#[test]
fn reply_with_a_bad_port_is_invalid() {
    assert!(matches!(
        parse_master_reply(&reply(&["10.0.0.5", "port"])),
        Err(Error::InvalidResponse(ReplyFault::Port(NumberError::InvalidDigit)))
    ));
    assert!(matches!(
        parse_master_reply(&reply(&["10.0.0.5", ""])),
        Err(Error::InvalidResponse(ReplyFault::Port(NumberError::Empty)))
    ));
    assert!(matches!(
        parse_master_reply(&reply(&["10.0.0.5", "65536"])),
        Err(Error::InvalidResponse(ReplyFault::Port(NumberError::TooLarge)))
    ));
}

#[test]
fn host_is_taken_as_it_stands() {
    let parsed = parse_master_reply(&reply(&[" some host ", "1"])).unwrap();
    assert_eq!(parsed.host(), " some host ");
    assert_eq!(parsed.port(), 1);
    let empty = parse_master_reply(&reply(&["", "0"])).unwrap();
    assert_eq!(empty, Address::new(String::new(), 0));
}

#[test]
fn answered_query_gives_the_address() {
    let master = get_master_from_sentinel(Ok(reply(&["10.0.0.5", "6380"])));
    assert_eq!(master.unwrap(), Address::new("10.0.0.5".to_string(), 6380));
}

#[test]
fn answered_query_with_a_bad_reply_is_invalid() {
    assert!(matches!(
        get_master_from_sentinel(Ok(reply(&["10.0.0.5"]))),
        Err(Error::InvalidResponse(ReplyFault::Arity { found: 1 }))
    ));
}

#[test]
fn failed_query_is_a_transport_error() {
    match get_master_from_sentinel(Err(refused())) {
        Err(Error::Transport(failure)) => {
            assert_eq!(failure.kind(), ErrorKind::Io);
            assert_eq!(failure.to_string(), refused().to_string());
        }
        other => panic!("unexpected {:?}", other),
    }
}

#[test]
fn query_outcome_with_an_address_is_published() {
    let mut stream = UpdateStream::new();
    let report = on_query_outcome(Ok(reply(&["10.0.0.5", "6380"])), &mut stream);
    assert!(matches!(report, Report::Published));
    assert_eq!(stream.len(), 1);
    assert_eq!(stream.deliver(), Some(Address::new("10.0.0.5".to_string(), 6380)));
}

#[test]
fn query_outcome_without_an_address_is_not_published() {
    let mut stream = UpdateStream::new();
    let invalid = on_query_outcome(Ok(reply(&["10.0.0.5", "x"])), &mut stream);
    assert!(matches!(
        invalid,
        Report::Failed(Error::InvalidResponse(ReplyFault::Port(NumberError::InvalidDigit)))
    ));
    let failed = on_query_outcome(Err(refused()), &mut stream);
    assert!(matches!(failed, Report::Failed(Error::Transport(_))));
    assert!(stream.is_empty());
}
