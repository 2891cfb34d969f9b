//! Watches a running game session through a polling snapshot source, detects
//! incremental purchases per participant, and fans the resulting events out to
//! any number of connected subscribers.
//!
//! The crate holds the verified core of that pipeline: the diff engine that
//! turns successive snapshots into minimal change events, the gold totals,
//! the session lifecycle state machine driving the poll loop, the broadcast
//! fan-out model with one private queue per subscriber, and the metadata
//! cache that resolves raw item identifiers to display data.

use vstd::prelude::*;

pub mod data;
pub mod diff;
pub mod error;
pub mod gold;
pub mod hub;
pub mod metadata;
pub mod poller;

verus! {

} // verus!
