//! Delay strategies for retryable operations.
//!
//! Each strategy is a small stateful generator that produces an unbounded
//! sequence of wait durations; `delay::jitter` randomizes any single
//! duration. Deciding when to stop retrying, and actually sleeping, are the
//! caller's business.

pub mod delay;
pub mod duration;
pub mod random;
