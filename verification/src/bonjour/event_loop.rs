//! Event loop for running a Bonjour service or browser.
//!
//! One turn of the loop waits for the service's socket to become readable,
//! for as long as the timeout allows, and lets Bonjour process what has
//! arrived only if something has. Waiting and processing are native calls;
//! what their results mean is decided here.

use crate::error::{Error, ErrorView};
use crate::text::result_view;
use vstd::prelude::*;

verus! {

/// What to do after waiting on the socket.
#[derive(Debug, PartialEq, Eq)]
pub enum PollStep {
    /// The socket is readable: call `DNSServiceProcessResult`, whose result
    /// is the result of the turn.
    ProcessResult,
    /// Nothing to process: the turn is over, with this result.
    Finished(Result<(), Error>),
}

/// The number of ready descriptors that `select()` reported, or the error
/// that a negative result stands for.
pub open spec fn selected(result: i32) -> Result<u32, ErrorView> {
    if result < 0 {
        Err(
            ErrorView::SystemError {
                code: result as int,
                message: "select(): returned error status"@,
            },
        )
    } else {
        Ok(result as u32)
    }
}

/// The seconds of a timeout as `select()` takes them where its `timeval`
/// counts seconds in 32 bits: the seconds themselves where they fit, and
/// else an error.
pub open spec fn seconds_selected(secs: u64) -> Result<i32, ErrorView> {
    if secs > i32::MAX as u64 {
        Err(
            ErrorView::SystemError {
                code: 0,
                message: "Invalid timeout duration, as_secs() value exceeds ::libc::c_long. "@,
            },
        )
    } else {
        Ok(secs as i32)
    }
}

/// The seconds of a timeout for a `timeval` that counts seconds in 32 bits.
/// A timeout that does not fit is refused.
pub fn select_seconds(secs: u64) -> (r: Result<i32, Error>)
    ensures
        result_view(r) == seconds_selected(secs),
{
    if secs > i32::MAX as u64 {
        Err(
            Error::SystemError {
                code: 0,
                message: "Invalid timeout duration, as_secs() value exceeds ::libc::c_long. ".to_owned(),
            },
        )
    } else {
        Ok(secs as i32)
    }
}

/// Reads the result of `select()` on the service's socket: the number of
/// ready descriptors, or an error where the result is negative.
pub fn read_select(result: i32) -> (r: Result<u32, Error>)
    ensures
        result_view(r) == selected(result),
{
    if result < 0 {
        Err(
            Error::SystemError {
                code: result,
                message: "select(): returned error status".to_owned(),
            },
        )
    } else {
        Ok(result as u32)
    }
}

/// Decides one turn of the loop from what `select()` gave: an error ends the
/// turn with that error, no ready descriptor ends it successfully, and a
/// ready descriptor asks for the pending result to be processed.
pub fn poll(select: Result<u32, Error>) -> (step: PollStep)
    ensures
        match select {
            Err(e) => step == PollStep::Finished(Err(e)),
            Ok(ready) => if ready > 0 {
                step == PollStep::ProcessResult
            } else {
                step == PollStep::Finished(Ok(()))
            },
        },
{
    match select {
        Err(e) => PollStep::Finished(Err(e)),
        Ok(ready) => if ready > 0 {
            PollStep::ProcessResult
        } else {
            PollStep::Finished(Ok(()))
        },
    }
}

} // verus!
