//! Reading what creating an Avahi client gave.

use crate::error::{Error, ErrorView};
use crate::text::result_view;
use vstd::prelude::*;
use vstd::string::StringExecFns;

verus! {

/// What `avahi_client_new` gave: an error where it returned no client, or
/// where it returned one but reported the error code `error`; the latter
/// error carries Avahi's description of the code.
pub open spec fn client_new(created: bool, error: i32, description: Seq<char>) -> Result<
    (),
    ErrorView,
> {
    if !created {
        Err(
            ErrorView::MdnsSystemError {
                code: error as int,
                message: "could not initialize AvahiClient"@,
            },
        )
    } else if error != 0 {
        Err(
            ErrorView::MdnsSystemError {
                code: error as int,
                message: "could not initialize AvahiClient: "@ + description,
            },
        )
    } else {
        Ok(())
    }
}

/// Reads the result of `avahi_client_new`: whether a client was returned,
/// the error code that was reported, and Avahi's description of that code.
pub fn new(created: bool, error: i32, description: &str) -> (r: Result<(), Error>)
    ensures
        result_view(r) == client_new(created, error, description@),
{
    if !created {
        return Err(
            Error::MdnsSystemError {
                code: error,
                message: "could not initialize AvahiClient".to_owned(),
            },
        );
    }
    if error != 0 {
        let mut message = "could not initialize AvahiClient: ".to_owned();
        message.append(description);
        return Err(Error::MdnsSystemError { code: error, message });
    }
    Ok(())
}

} // verus!
