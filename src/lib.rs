//! Bridges a non-blocking, retry-on-would-block SSH engine to cooperative
//! async schedulers.
//!
//! The decisions of the retry adapter are made here, as a verified state
//! machine: which readiness to wait for after a would-block outcome, when to
//! call the engine again, and what the logical call resolves with. The
//! scheduler-facing loop that performs those actions lives with the runtime
//! binding.
pub mod adapter;
pub mod direction;
pub mod error;
pub mod listing;
pub mod retry;

pub use direction::{BlockDirection, Readiness, Wait};
pub use error::{would_block, AsyncError, ErrorCode};
pub use retry::{Attempt, Phase, RetryLoop, Step};
pub use adapter::classify;
pub use listing::{is_dot_entry, listing_step, ListingStep};
