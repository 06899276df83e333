//! A pool of workers that race to produce the first sorted rearrangement of an
//! input, together with the two ways of winding such a pool down.
//!
//! The crate holds what happens inside and between the critical sections of a
//! race: the set-once outcome slot, the cancellation signal, one iteration of a
//! worker, and the controller's protocol. Threads and locks belong to the caller.

pub mod harness;
pub mod order;
pub mod outcome;
mod perturb;
pub mod pool;
pub mod race;
pub mod signal;
pub mod worker;
