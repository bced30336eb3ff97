//! Application-side driver for a BFT consensus engine.
//!
//! The consensus engine hands the node an ordered stream of requests (chain
//! initialization, block lifecycle events, proposal construction and
//! validation). The driver dispatches each request to a handler, turns the
//! handler's outcome into exactly one response, and keeps the replica's state
//! transitions deterministic. The ledger's own state transition engine and the
//! versioned key-value store are external collaborators: the driver asks them
//! to perform calls in a fixed order and builds its responses from what they
//! answered. Those calls, and the order they must happen in, are part of the
//! driver's verified contract.

pub mod data;
pub mod driver;
pub mod laws;
pub mod log;
pub mod proposal;
pub mod query;
pub mod store;
