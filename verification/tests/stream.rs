use sentinel_watch::address::Address;
use sentinel_watch::reconciler::{react, Delivery, Reaction};
use sentinel_watch::stream::UpdateStream;

fn address(host: &str, port: u16) -> Address {
    Address::new(host.to_string(), port)
}

#[test]
fn new_stream_is_empty() {
    let mut stream = UpdateStream::new();
    assert!(stream.is_empty());
    assert_eq!(stream.len(), 0);
    assert_eq!(stream.deliver(), None);
    assert!(stream.is_empty());
}

#[test]
fn addresses_leave_in_the_order_of_arrival() {
    let mut stream = UpdateStream::new();
    stream.publish(address("a", 1));
    stream.publish(address("b", 2));
    stream.publish(address("c", 3));
    assert_eq!(stream.len(), 3);
    assert_eq!(stream.deliver(), Some(address("a", 1)));
    stream.publish(address("d", 4));
    assert_eq!(stream.deliver(), Some(address("b", 2)));
    assert_eq!(stream.deliver(), Some(address("c", 3)));
    assert_eq!(stream.deliver(), Some(address("d", 4)));
    assert_eq!(stream.deliver(), None);
}

#[test]
fn equal_addresses_are_kept_apart() {
    let mut stream = UpdateStream::new();
    stream.publish(address("10.0.0.9", 6380));
    stream.publish(address("10.0.0.9", 6380));
    assert_eq!(stream.len(), 2);
    let mut materialized = Vec::new();
    while let Some(next) = stream.deliver() {
        match react(Delivery::Update(next)) {
            Reaction::Materialize(address) => materialized.push(address),
            Reaction::Retry => panic!("an update must be materialized"),
        }
    }
    assert_eq!(
        materialized,
        vec![address("10.0.0.9", 6380), address("10.0.0.9", 6380)]
    );
}

#[test]
fn every_update_is_materialized_in_order() {
    let published: Vec<Address> = (0..100u16)
        .map(|i| address(&format!("10.0.0.{}", i % 7), 6000 + i % 3))
        .collect();
    let mut stream = UpdateStream::new();
    let mut materialized = Vec::new();
    for (i, update) in published.iter().enumerate() {
        stream.publish(update.clone());
        if i % 3 == 0 {
            if let Some(next) = stream.deliver() {
                if let Reaction::Materialize(address) = react(Delivery::Update(next)) {
                    materialized.push(address);
                }
            }
        }
    }
    while let Some(next) = stream.deliver() {
        if let Reaction::Materialize(address) = react(Delivery::Update(next)) {
            materialized.push(address);
        }
    }
    assert_eq!(materialized, published);
}

#[test]
fn update_is_materialized() {
    match react(Delivery::Update(address("10.0.0.9", 6380))) {
        Reaction::Materialize(found) => assert_eq!(found, address("10.0.0.9", 6380)),
        Reaction::Retry => panic!("an update must be materialized"),
    }
}

#[test]
fn failed_receive_is_tried_again() {
    assert!(matches!(react(Delivery::Failure), Reaction::Retry));
}

#[test]
fn address_parts_and_copies() {
    let one = address("10.0.0.9", 6380);
    assert_eq!(one.host(), "10.0.0.9");
    assert_eq!(one.port(), 6380);
    assert_eq!(one.host, "10.0.0.9");
    assert_eq!(one.port, 6380);
    let copy = one.clone();
    assert_eq!(copy, one);
    assert_ne!(one, address("10.0.0.9", 6381));
    assert_ne!(one, address("10.0.0.8", 6380));
}
