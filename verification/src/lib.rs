//! Tracking the address of the active master of a replicated datastore
//! whose failover is arbitrated by a tier of sentinels.
//!
//! Two detection paths observe the master: a poller that asks the sentinels
//! on a fixed interval, and a subscriber that listens to their failover
//! notifications. Both write the addresses they observe into one ordered
//! update stream, which a single reconciler drains. This library holds the
//! decisions of all three, the parsers they rely on and the stream itself;
//! connecting, waiting and sleeping are left to the program around it.

pub mod address;
pub mod command;
pub mod config;
pub mod error;
pub mod notification;
pub mod number;
pub mod poller;
pub mod query;
pub mod reconciler;
pub mod report;
pub mod stream;
pub mod subscriber;
pub mod text;
