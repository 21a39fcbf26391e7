//! Pacing of a value producer: consecutive values are handed out no faster
//! than a fixed minimum interval apart.
//!
//! The library holds the pacing rule and the paced producer as a state
//! machine driven by readings of a monotonic clock. It never blocks: where a
//! value may not be handed out yet, it answers with the time left to wait,
//! and the caller performs that wait and asks again.
pub mod pacing;
pub mod timed;

pub use pacing::remaining_wait;
pub use timed::{Pull, TimeIter, TimedIterator};
