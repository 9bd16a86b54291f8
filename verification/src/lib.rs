//! Retrying of network operations whose failures may be transient.
//!
//! An operation that depends on the network is run, and run again while it
//! fails in a way that looks transient and the retry budget is not used up.
//! Every retry is announced by one warning line.

pub mod classify;
pub mod error;
pub mod poll;
pub mod retry;
pub mod text;
pub mod transport;

pub use classify::{maybe_spurious, Signal};
pub use error::{Cause, Failure, HttpNotSuccessful, Kind};
pub use poll::PollExt;
pub use retry::{with_retry, Config, Retry, DEFAULT_RETRIES};
