//! The errors of an API request.

use crate::jsonrpc;
use crate::text::{decimal, decimal_string, signed_decimal, signed_decimal_string};
use vstd::prelude::*;
use vstd::string::*;

verus! {

/// Represents all errors that can occur during an Untis API request.
#[derive(Clone, PartialEq, Eq, Debug)]
pub enum Error {
    /// The request got no HTTP response; the text says why.
    Transport(String),
    /// The response was no JSON-RPC reply; the text says why.
    Serialization(String),
    /// The HTTP status of the response was not a success.
    Http(u16),
    /// The RPC response contained an error.
    Rpc(jsonrpc::Error),
    /// The call needs a session, and there is none.
    NoSession,
    /// No results were found.
    NotFound,
}

/// An error as a mathematical value.
pub enum ErrorView {
    Transport(Seq<char>),
    Serialization(Seq<char>),
    Http(u16),
    Rpc(jsonrpc::ErrorView),
    NoSession,
    NotFound,
}

impl View for Error {
    type V = ErrorView;

    open spec fn view(&self) -> ErrorView {
        match *self {
            Error::Transport(reason) => ErrorView::Transport(reason@),
            Error::Serialization(reason) => ErrorView::Serialization(reason@),
            Error::Http(status) => ErrorView::Http(status),
            Error::Rpc(error) => ErrorView::Rpc(error@),
            Error::NoSession => ErrorView::NoSession,
            Error::NotFound => ErrorView::NotFound,
        }
    }
}

impl ErrorView {
    /// The text that describes the error.
    pub open spec fn message(self) -> Seq<char> {
        match self {
            ErrorView::Transport(reason) => "Reqwest error: "@ + reason,
            ErrorView::Serialization(reason) => "Serde Error: "@ + reason,
            ErrorView::Http(status) => "HTTP Error: "@ + decimal(status as nat),
            ErrorView::Rpc(error) => "RPC Error: "@ + signed_decimal(error.code) + " "@
                + error.message,
            ErrorView::NoSession => "No session"@,
            ErrorView::NotFound => "Resource not found"@,
        }
    }
}

impl Error {
    /// Describes the error in words.
    pub fn message(&self) -> (r: String)
        ensures
            r@ == self@.message(),
    {
        match self {
            Error::Transport(reason) => {
                let mut text = String::from_str("Reqwest error: ");
                text.append(reason.as_str());
                text
            },
            Error::Serialization(reason) => {
                let mut text = String::from_str("Serde Error: ");
                text.append(reason.as_str());
                text
            },
            Error::Http(status) => {
                let mut text = String::from_str("HTTP Error: ");
                let number = decimal_string(*status as usize);
                text.append(number.as_str());
                text
            },
            Error::Rpc(error) => {
                let mut text = String::from_str("RPC Error: ");
                let number = signed_decimal_string(error.code);
                text.append(number.as_str());
                text.append(" ");
                text.append(error.message.as_str());
                text
            },
            Error::NoSession => String::from_str("No session"),
            Error::NotFound => String::from_str("Resource not found"),
        }
    }
}

} // verus!
