//! Utilities regarding error handling

use crate::text::{decimal, push_decimal};
use vstd::prelude::*;
use vstd::string::StringExecFns;

verus! {

/// Error type for the zeroconf crate
#[derive(Debug, PartialEq, Eq)]
pub enum Error {
    /// An instance of `crate::ServiceType` could not be created due to an invalid format
    InvalidServiceType(String),
    /// An error occurred in the underlying mDNS system (Avahi/Bonjour)
    MdnsSystemError { code: i32, message: String },
    /// An error occurred in the underlying system (ABI)
    SystemError { code: i32, message: String },
    /// An error occurred in an instance of an `crate::MdnsBrowser`
    BrowserError(String),
    /// An error occurred in an instance of an `crate::MdnsService`
    ServiceError(String),
}

/// What an [`Error`] is, with its texts as character sequences.
pub enum ErrorView {
    InvalidServiceType(Seq<char>),
    MdnsSystemError { code: int, message: Seq<char> },
    SystemError { code: int, message: Seq<char> },
    BrowserError(Seq<char>),
    ServiceError(Seq<char>),
}

impl View for Error {
    type V = ErrorView;

    open spec fn view(&self) -> ErrorView {
        match *self {
            Error::InvalidServiceType(m) => ErrorView::InvalidServiceType(m@),
            Error::MdnsSystemError { code, message } => ErrorView::MdnsSystemError {
                code: code as int,
                message: message@,
            },
            Error::SystemError { code, message } => ErrorView::SystemError {
                code: code as int,
                message: message@,
            },
            Error::BrowserError(m) => ErrorView::BrowserError(m@),
            Error::ServiceError(m) => ErrorView::ServiceError(m@),
        }
    }
}

impl Clone for Error {
    fn clone(&self) -> (copy: Self)
        ensures
            copy@ == self@,
    {
        match self {
            Error::InvalidServiceType(m) => Error::InvalidServiceType(m.clone()),
            Error::MdnsSystemError { code, message } => Error::MdnsSystemError {
                code: *code,
                message: message.clone(),
            },
            Error::SystemError { code, message } => Error::SystemError {
                code: *code,
                message: message.clone(),
            },
            Error::BrowserError(m) => Error::BrowserError(m.clone()),
            Error::ServiceError(m) => Error::ServiceError(m.clone()),
        }
    }
}

impl DeepView for Error {
    type V = ErrorView;

    open spec fn deep_view(&self) -> ErrorView {
        self@
    }
}

impl ErrorView {
    /// The text shown to a user for this error.
    pub open spec fn rendered(self) -> Seq<char> {
        match self {
            ErrorView::InvalidServiceType(m) => "Invalid ServiceType format: "@ + m,
            ErrorView::MdnsSystemError { code, message } => message + " (code: "@ + decimal(code)
                + ")"@,
            ErrorView::SystemError { code, message } => message + " (code: "@ + decimal(code) + ")"@,
            ErrorView::BrowserError(m) => m,
            ErrorView::ServiceError(m) => m,
        }
    }
}

impl Error {
    /// The text shown to a user for this error.
    pub fn to_string(&self) -> (text: String)
        ensures
            text@ == self@.rendered(),
    {
        match self {
            Error::InvalidServiceType(m) => {
                let mut text = "Invalid ServiceType format: ".to_owned();
                text.append(m.as_str());
                text
            },
            Error::MdnsSystemError { code, message } => with_code(message.as_str(), *code),
            Error::SystemError { code, message } => with_code(message.as_str(), *code),
            Error::BrowserError(m) => m.clone(),
            Error::ServiceError(m) => m.clone(),
        }
    }
}

/// `message`, followed by the native code in brackets.
pub fn with_code(message: &str, code: i32) -> (text: String)
    ensures
        text@ == message@ + " (code: "@ + decimal(code as int) + ")"@,
{
    let mut text = message.to_owned();
    text.append(" (code: ");
    push_decimal(&mut text, code);
    text.append(")");
    text
}

} // verus!
