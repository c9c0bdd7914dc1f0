//! A request in preparation: method and URL, the headers and the body that
//! were added, and the first header that was refused.

use crate::error::{fault_of, RequestFault};
use crate::header::{
    appended, is_header_name, is_header_value, lower_name, Entry, HeaderFault, Headers, ROOM,
};
use crate::message::{Method, Request, RequestView, Version};
use crate::text::bytes_of;
use crate::url::{parsed_url, target_of, Target, TargetView};
use vstd::prelude::*;
use vstd::utf8::encode_utf8;

verus! {

/// The model of what building a request gives: the request or the fault.
pub type BuiltView = Result<RequestView, RequestFault>;

/// The model of a request in preparation.
pub struct PendingView {
    pub method: Method,
    pub url: Seq<char>,
    pub headers: Seq<Entry>,
    pub body: Option<Seq<u8>>,
    /// The first refusal of a header, if there was one.
    pub fault: Option<HeaderFault>,
}

impl PendingView {
    /// A fresh request: no header, no body.
    pub open spec fn new(method: Method, url: Seq<char>) -> PendingView {
        PendingView { method, url, headers: Seq::empty(), body: None, fault: None }
    }

    /// The request after a header was added. After a refusal nothing is added
    /// any more. A name or a value that is not accepted is a refusal, and so
    /// is a header that the map does not take because it is `full`, which it
    /// cannot be while it holds fewer than `ROOM` entries.
    pub open spec fn header(self, key: Seq<char>, value: Seq<char>, full: bool) -> PendingView {
        if self.fault is Some {
            self
        } else if !is_header_name(key) {
            PendingView { fault: Some(HeaderFault::InvalidName), ..self }
        } else if !is_header_value(encode_utf8(value)) {
            PendingView { fault: Some(HeaderFault::InvalidValue), ..self }
        } else if full && self.headers.len() >= ROOM {
            PendingView { fault: Some(HeaderFault::Full), ..self }
        } else {
            PendingView {
                headers: appended(self.headers, lower_name(key), encode_utf8(value)),
                ..self
            }
        }
    }

    /// The request with `body` in place of any body that it had.
    pub open spec fn body(self, body: Seq<u8>) -> PendingView {
        PendingView { body: Some(body), ..self }
    }

    /// The request that is sent, given what parsing made of the URL: none
    /// where the URL was refused or names no host, none where a header was
    /// refused.
    pub open spec fn resolve(self, target: Option<TargetView>) -> BuiltView {
        match target {
            None => Err(RequestFault::InvalidUrl),
            Some(t) => if t.host is None {
                Err(RequestFault::MissingHost)
            } else {
                match self.fault {
                    Some(fault) => Err(fault_of(fault)),
                    None => Ok(
                        RequestView {
                            method: self.method,
                            target: t,
                            version: Version::Http11,
                            headers: self.headers,
                            body: self.body,
                        },
                    ),
                }
            },
        }
    }
}

/// The model of what building a request gave.
pub open spec fn built_of(r: Result<Request, RequestFault>) -> BuiltView {
    match r {
        Ok(req) => Ok(req@),
        Err(fault) => Err(fault),
    }
}

/// A request in preparation.
#[derive(Debug)]
pub struct PendingRequest {
    method: Method,
    url: String,
    headers: Headers,
    body: Option<Vec<u8>>,
    fault: Option<HeaderFault>,
}

impl View for PendingRequest {
    type V = PendingView;

    closed spec fn view(&self) -> PendingView {
        PendingView {
            method: self.method,
            url: self.url@,
            headers: self.headers@,
            body: bytes_of(self.body),
            fault: self.fault,
        }
    }
}

impl PendingRequest {
    /// A fresh request for `url`. The URL is looked at when the request is
    /// built, not before.
    pub fn new(method: Method, url: String) -> (r: PendingRequest)
        ensures
            r@ == PendingView::new(method, url@),
    {
        PendingRequest { method, url, headers: Headers::new(), body: None, fault: None }
    }

    /// Adds a header. A header that is not accepted is remembered as the
    /// request's fault, and from then on no header is added. Whether a map
    /// with `ROOM` entries or more was full is the map's to say; nothing else
    /// is left open.
    pub fn header(&mut self, key: &str, value: &str)
        ensures
            final(self)@ == old(self)@.header(key@, value@, false) || final(self)@ == old(
                self,
            )@.header(key@, value@, true),
            old(self)@.headers.len() < ROOM ==> final(self)@ == old(self)@.header(
                key@,
                value@,
                false,
            ),
    {
        if self.fault.is_none() {
            match self.headers.append(key, value.as_bytes()) {
                Ok(()) => {},
                Err(fault) => {
                    self.fault = Some(fault);
                },
            }
        }
    }

    /// Sets the body, in place of any that was set before.
    pub fn body(&mut self, body: Vec<u8>)
        ensures
            final(self)@ == old(self)@.body(body@),
    {
        self.body = Some(body);
    }

    /// The request that is sent, given what parsing made of the URL.
    pub fn resolve(self, target: Option<Target>) -> (r: Result<Request, RequestFault>)
        ensures
            built_of(r) == self@.resolve(target_of(target)),
    {
        match target {
            None => Err(RequestFault::InvalidUrl),
            Some(t) => {
                if t.host.is_none() {
                    Err(RequestFault::MissingHost)
                } else {
                    match self.fault {
                        Some(HeaderFault::InvalidName) => Err(RequestFault::InvalidHeaderName),
                        Some(HeaderFault::InvalidValue) => Err(RequestFault::InvalidHeaderValue),
                        Some(HeaderFault::Full) => Err(RequestFault::TooManyHeaders),
                        None => Ok(
                            Request {
                                method: self.method,
                                target: t,
                                version: Version::Http11,
                                headers: self.headers,
                                body: self.body,
                            },
                        ),
                    }
                }
            },
        }
    }

    /// Parses the URL and gives the request that is sent.
    pub fn build(self) -> (r: Result<Request, RequestFault>)
        ensures
            built_of(r) == self@.resolve(parsed_url(self@.url)),
    {
        let target = Target::parse(self.url.as_str());
        self.resolve(target)
    }
}

} // verus!
