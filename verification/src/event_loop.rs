//! Trait definition for cross-platform event loop

use crate::error::Error;
use std::time::Duration;
use vstd::prelude::*;

verus! {

/// A handle on the underlying implementation to poll the event loop. Typically, `poll()`
/// is called in a loop to keep a service or a browser running.
pub trait TEventLoop {
    /// Polls for new events.
    fn poll(&self, timeout: Duration) -> Result<(), Error>;
}

} // verus!
