//! Ledger and settlement state machine of a binary prediction market.
//!
//! Every operation is a function from the records it touches (and plain
//! inputs such as the caller's identity and the current time) to either an
//! error, with nothing changed, or the updated records together with the
//! value transfer and the event the host must commit atomically.
use vstd::prelude::*;

pub mod types;
pub mod market;
pub mod prediction;
pub mod reward;
pub mod settlement;
pub mod claims;
