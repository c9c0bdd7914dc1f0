//! The failures that the engine reports.

use crate::header::HeaderFault;
use vstd::prelude::*;

verus! {

/// Why a request could not be built or sent.
#[derive(Clone, Copy, Debug, PartialEq, Eq, Structural)]
pub enum RequestFault {
    /// The URL could not be parsed.
    InvalidUrl,
    /// The URL names no host.
    MissingHost,
    /// A header was added under a name that is no header name.
    InvalidHeaderName,
    /// A header was added with a value that no header may have.
    InvalidHeaderValue,
    /// More headers were added than a request can hold.
    TooManyHeaders,
    /// The transport could not carry out the exchange.
    Transport,
}

/// The operations that need a prepared request.
#[derive(Clone, Copy, Debug, PartialEq, Eq, Structural)]
pub enum Operation {
    AddHeader,
    AddBody,
    Send,
}

/// The failures of the engine's operations.
#[derive(Clone, Copy, Debug, PartialEq, Eq, Structural)]
pub enum HttpError {
    /// The operation needs a prepared request and there is none.
    NoPendingRequest(Operation),
    /// No exchange has been completed yet.
    NoPriorRequest,
    /// The request could not be built or sent.
    Request(RequestFault),
    /// The header that was asked for has a value that is no text.
    HeaderDecode,
}

impl HttpError {
    /// The failure in words.
    pub open spec fn text(self) -> Seq<char> {
        match self {
            HttpError::NoPendingRequest(Operation::AddHeader) => {
                "Trying to add a header without preparing a request first!"@
            },
            HttpError::NoPendingRequest(Operation::AddBody) => {
                "Trying to add body without preparing a request first!"@
            },
            HttpError::NoPendingRequest(Operation::Send) => {
                "Trying to send a request without preparing a request first!"@
            },
            HttpError::NoPriorRequest => {
                "Trying to fetch a status without making a request first!"@
            },
            HttpError::Request(RequestFault::InvalidUrl) => "The URL cannot be parsed"@,
            HttpError::Request(RequestFault::MissingHost) => "The URL names no host"@,
            HttpError::Request(RequestFault::InvalidHeaderName) => "Invalid header name"@,
            HttpError::Request(RequestFault::InvalidHeaderValue) => "Invalid header value"@,
            HttpError::Request(RequestFault::TooManyHeaders) => "Too many headers"@,
            HttpError::Request(RequestFault::Transport) => "The request could not be sent"@,
            HttpError::HeaderDecode => "The header's value is no text"@,
        }
    }

    /// The failure in words.
    pub fn message(&self) -> (r: &'static str)
        ensures
            r@ == self.text(),
    {
        match self {
            HttpError::NoPendingRequest(Operation::AddHeader) => {
                "Trying to add a header without preparing a request first!"
            },
            HttpError::NoPendingRequest(Operation::AddBody) => {
                "Trying to add body without preparing a request first!"
            },
            HttpError::NoPendingRequest(Operation::Send) => {
                "Trying to send a request without preparing a request first!"
            },
            HttpError::NoPriorRequest => "Trying to fetch a status without making a request first!",
            HttpError::Request(RequestFault::InvalidUrl) => "The URL cannot be parsed",
            HttpError::Request(RequestFault::MissingHost) => "The URL names no host",
            HttpError::Request(RequestFault::InvalidHeaderName) => "Invalid header name",
            HttpError::Request(RequestFault::InvalidHeaderValue) => "Invalid header value",
            HttpError::Request(RequestFault::TooManyHeaders) => "Too many headers",
            HttpError::Request(RequestFault::Transport) => "The request could not be sent",
            HttpError::HeaderDecode => "The header's value is no text",
        }
    }
}

/// The fault with which a request fails whose header was refused.
pub open spec fn fault_of(fault: HeaderFault) -> RequestFault {
    match fault {
        HeaderFault::InvalidName => RequestFault::InvalidHeaderName,
        HeaderFault::InvalidValue => RequestFault::InvalidHeaderValue,
        HeaderFault::Full => RequestFault::TooManyHeaders,
    }
}

} // verus!
