//! Turning the Avahi poll object: timeouts in, return codes out.

use crate::error::{Error, ErrorView};
use crate::text::result_view;
use vstd::prelude::*;

verus! {

/// The timeout handed to `avahi_simple_poll_iterate`, which takes
/// milliseconds as an `i32`: `millis`, or the largest `i32` where `millis`
/// does not fit.
pub open spec fn sleep_time_spec(millis: u128) -> i32 {
    if millis > i32::MAX as u128 {
        i32::MAX
    } else {
        millis as i32
    }
}

/// What a return code of `avahi_simple_poll_iterate` means: 0 is success and
/// 1 says that a quit was requested, both of which end the turn well; -1 is
/// an error; every other value is unknown, and an error too.
pub open spec fn iterated(code: i32) -> Result<(), ErrorView> {
    if code == 0 || code == 1 {
        Ok(())
    } else if code == -1 {
        Err(
            ErrorView::MdnsSystemError {
                code: code as int,
                message: "avahi_simple_poll_iterate(..) threw an error result"@,
            },
        )
    } else {
        Err(
            ErrorView::MdnsSystemError {
                code: code as int,
                message: "avahi_simple_poll_iterate(..) returned an unknown result"@,
            },
        )
    }
}

/// What `avahi_simple_poll_new` gave: an error where it returned no poll
/// object. The call reports no code of its own, so the error carries none.
pub open spec fn poll_created(created: bool) -> Result<(), ErrorView> {
    if created {
        Ok(())
    } else {
        Err(ErrorView::SystemError { code: 0, message: "could not initialize AvahiSimplePoll"@ })
    }
}

/// Reads the result of `avahi_simple_poll_new`: whether a poll object was
/// returned.
pub fn poll_new(created: bool) -> (r: Result<(), Error>)
    ensures
        result_view(r) == poll_created(created),
{
    if created {
        Ok(())
    } else {
        Err(
            Error::SystemError {
                code: 0,
                message: "could not initialize AvahiSimplePoll".to_owned(),
            },
        )
    }
}

/// The timeout to hand to `avahi_simple_poll_iterate` for a timeout of
/// `millis` milliseconds. A timeout too long for an `i32` is cut to the
/// longest one; this never fails.
pub fn sleep_time(millis: u128) -> (sleep_time: i32)
    ensures
        sleep_time == sleep_time_spec(millis),
        0 <= sleep_time,
        millis <= i32::MAX ==> sleep_time == millis,
        millis > i32::MAX ==> sleep_time == i32::MAX,
{
    if millis > i32::MAX as u128 {
        i32::MAX
    } else {
        millis as i32
    }
}

/// Reads the return code of `avahi_simple_poll_iterate`.
pub fn iterate(code: i32) -> (r: Result<(), Error>)
    ensures
        result_view(r) == iterated(code),
{
    if code == 0 || code == 1 {
        Ok(())
    } else if code == -1 {
        Err(
            Error::MdnsSystemError {
                code,
                message: "avahi_simple_poll_iterate(..) threw an error result".to_owned(),
            },
        )
    } else {
        Err(
            Error::MdnsSystemError {
                code,
                message: "avahi_simple_poll_iterate(..) returned an unknown result".to_owned(),
            },
        )
    }
}

} // verus!
