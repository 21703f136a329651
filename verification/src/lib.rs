//! Core of a cross-chain message relay race: the delivery strategy that
//! queues batches of nonces observed at the source ledger and decides which
//! contiguous range is safe to deliver to the target ledger, together with
//! the scheduling decisions of the race loop (request outcomes, backoff,
//! stall detection).
//!
//! All ledger I/O lives outside this crate: callers feed in client state
//! snapshots and request outcomes as plain values and perform the requests
//! this crate asks for.

pub mod outcome;
pub mod race;
pub mod range;
pub mod state;
pub mod strategy;
