use sentinel_watch::address::Address;
use sentinel_watch::error::{Error, NotificationFault};
use sentinel_watch::notification::{on_notification, parse_notification};
use sentinel_watch::number::NumberError;
use sentinel_watch::report::Report;
use sentinel_watch::stream::UpdateStream;

#[test]
fn notification_for_the_group_gives_the_new_master() {
    let parsed = parse_notification("mymaster 10.0.0.1 6379 10.0.0.9 6380", "mymaster");
    assert_eq!(
        parsed.unwrap(),
        Some(Address::new("10.0.0.9".to_string(), 6380))
    );
}

#[test]
fn notification_for_another_group_says_nothing() {
    let parsed = parse_notification("othermaster 10.0.0.1 6379 10.0.0.9 6380", "mymaster");
    assert_eq!(parsed.unwrap(), None);
}

#[test]
fn notification_of_four_words_is_malformed() {
    assert!(matches!(
        parse_notification("mymaster 10.0.0.1 6379 10.0.0.9", "mymaster"),
        Err(Error::MalformedNotification(NotificationFault::TooShort { found: 4 }))
    ));
    assert!(matches!(
        parse_notification("", "mymaster"),
        Err(Error::MalformedNotification(NotificationFault::TooShort { found: 0 }))
    ));
}

#[test]
fn short_notification_for_another_group_is_malformed_too() {
    assert!(matches!(
        parse_notification("othermaster 10.0.0.1", "mymaster"),
        Err(Error::MalformedNotification(NotificationFault::TooShort { found: 2 }))
    ));
}

#[test]
fn notification_with_a_bad_port_is_malformed() {
    assert!(matches!(
        parse_notification("mymaster 10.0.0.1 6379 10.0.0.9 port", "mymaster"),
        Err(Error::MalformedNotification(NotificationFault::Port(NumberError::InvalidDigit)))
    ));
    assert!(matches!(
        parse_notification("mymaster 10.0.0.1 6379 10.0.0.9 70000", "mymaster"),
        Err(Error::MalformedNotification(NotificationFault::Port(NumberError::TooLarge)))
    ));
}

#[test]
fn bad_port_of_another_group_is_not_looked_at() {
    let parsed = parse_notification("othermaster 10.0.0.1 6379 10.0.0.9 port", "mymaster");
    assert_eq!(parsed.unwrap(), None);
}

#[test]
fn old_port_is_not_looked_at() {
    let parsed = parse_notification("mymaster 10.0.0.1 old 10.0.0.9 6380", "mymaster");
    assert_eq!(
        parsed.unwrap(),
        Some(Address::new("10.0.0.9".to_string(), 6380))
    );
}

#[test]
fn words_after_the_fifth_are_not_looked_at() {
    let parsed = parse_notification(" mymaster\t10.0.0.1  6379 10.0.0.9 6380 and more ", "mymaster");
    assert_eq!(
        parsed.unwrap(),
        Some(Address::new("10.0.0.9".to_string(), 6380))
    );
}

#[test]
fn group_must_match_as_a_whole() {
    assert_eq!(
        parse_notification("mymaster2 a 1 b 2", "mymaster").unwrap(),
        None
    );
    assert_eq!(
        parse_notification("mymaste a 1 b 2", "mymaster").unwrap(),
        None
    );
    assert_eq!(
        parse_notification("MyMaster a 1 b 2", "mymaster").unwrap(),
        None
    );
}

#[test]
fn matching_notification_appends_one_address() {
    let mut stream = UpdateStream::new();
    stream.publish(Address::new("10.0.0.1".to_string(), 6379));
    let report = on_notification("mymaster 10.0.0.1 6379 10.0.0.9 6380", "mymaster", &mut stream);
    assert!(matches!(report, Report::Published));
    assert_eq!(stream.len(), 2);
    assert_eq!(stream.deliver(), Some(Address::new("10.0.0.1".to_string(), 6379)));
    assert_eq!(stream.deliver(), Some(Address::new("10.0.0.9".to_string(), 6380)));
    assert_eq!(stream.deliver(), None);
}

#[test]
fn notification_for_another_group_appends_nothing() {
    let mut stream = UpdateStream::new();
    let report = on_notification(
        "othermaster 10.0.0.1 6379 10.0.0.9 6380",
        "mymaster",
        &mut stream,
    );
    assert!(matches!(report, Report::Ignored));
    assert!(stream.is_empty());
}

#[test]
fn malformed_notification_appends_nothing() {
    let mut stream = UpdateStream::new();
    let short = on_notification("mymaster 10.0.0.1 6379", "mymaster", &mut stream);
    assert!(matches!(
        short,
        Report::Failed(Error::MalformedNotification(NotificationFault::TooShort { found: 3 }))
    ));
    let port = on_notification("mymaster a 1 b notaport", "mymaster", &mut stream);
    assert!(matches!(
        port,
        Report::Failed(Error::MalformedNotification(NotificationFault::Port(
            NumberError::InvalidDigit
        )))
    ));
    assert!(stream.is_empty());
}
