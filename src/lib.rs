//! Retry decisions for HTTP requests: given a request strategy, the outcome of
//! the latest attempt and the number of attempts made so far, decide whether to
//! stop or to try again, after which delay, and under which idempotency key.
pub mod backoff;
pub mod key;
pub mod laws;
pub mod strategy;

pub use backoff::{calculate_backoff, Delay};
pub use strategy::{Outcome, RequestStrategy};
