//! Requests and responses as plain data.

use crate::header::{Entry, Headers};
use crate::text::{bytes_of, text_of};
use crate::url::{Target, TargetView};
use vstd::prelude::*;
use vstd::string::*;

verus! {

/// The request methods that a request can be prepared with.
#[derive(Clone, Copy, Debug, PartialEq, Eq, Structural)]
pub enum Method {
    Get,
    Head,
    Post,
    Put,
    Patch,
    Delete,
}

impl Method {
    /// The method as it stands in a request line.
    pub open spec fn text(self) -> Seq<char> {
        match self {
            Method::Get => "GET"@,
            Method::Head => "HEAD"@,
            Method::Post => "POST"@,
            Method::Put => "PUT"@,
            Method::Patch => "PATCH"@,
            Method::Delete => "DELETE"@,
        }
    }

    /// The method as it stands in a request line.
    pub fn as_str(self) -> (r: &'static str)
        ensures
            r@ == self.text(),
    {
        match self {
            Method::Get => "GET",
            Method::Head => "HEAD",
            Method::Post => "POST",
            Method::Put => "PUT",
            Method::Patch => "PATCH",
            Method::Delete => "DELETE",
        }
    }
}

/// The versions of the protocol.
#[derive(Clone, Copy, Debug, PartialEq, Eq, Structural)]
pub enum Version {
    Http09,
    Http10,
    Http11,
    Http2,
    Http3,
}

impl Version {
    /// The version as it stands in a request line or a status line.
    pub open spec fn text(self) -> Seq<char> {
        match self {
            Version::Http09 => "HTTP/0.9"@,
            Version::Http10 => "HTTP/1.0"@,
            Version::Http11 => "HTTP/1.1"@,
            Version::Http2 => "HTTP/2.0"@,
            Version::Http3 => "HTTP/3.0"@,
        }
    }

    /// The version as it stands in a request line or a status line.
    pub fn as_str(self) -> (r: &'static str)
        ensures
            r@ == self.text(),
    {
        match self {
            Version::Http09 => "HTTP/0.9",
            Version::Http10 => "HTTP/1.0",
            Version::Http11 => "HTTP/1.1",
            Version::Http2 => "HTTP/2.0",
            Version::Http3 => "HTTP/3.0",
        }
    }
}

/// Whether `code` is a status code: a number of three digits.
pub open spec fn is_status_code(code: u16) -> bool {
    100 <= code <= 999
}

/// The character of the decimal digit `d`.
pub open spec fn digit_char(d: int) -> char
    recommends
        0 <= d <= 9,
{
    ((48 + d) as u8) as char
}

/// The three decimal digits of a number from 100 to 999.
pub open spec fn three_digits(n: u16) -> Seq<char>
    recommends
        100 <= n <= 999,
{
    seq![digit_char(n as int / 100), digit_char((n as int / 10) % 10), digit_char(n as int % 10)]
}

/// Writes a number from 100 to 999 in decimal.
fn write_three_digits(n: u16) -> (r: String)
    requires
        is_status_code(n),
    ensures
        r@ == three_digits(n),
{
    let hundreds: u8 = (n / 100) as u8;
    let tens: u8 = ((n / 10) % 10) as u8;
    let ones: u8 = (n % 10) as u8;
    let mut text = String::new();
    text.push((48 + hundreds) as char);
    text.push((48 + tens) as char);
    text.push((48 + ones) as char);
    proof {
        assert(text@ =~= three_digits(n));
    }
    text
}

/// The reason phrase that `StatusCode::canonical_reason` knows for `code`.
pub uninterp spec fn canonical_reason(code: u16) -> Option<Seq<char>>;

/// `StatusCode::canonical_reason` of the status code that
/// `StatusCode::from_u16` makes of `code`.
#[verifier::external_body]
fn status_reason(code: u16) -> (r: Option<String>)
    requires
        is_status_code(code),
    ensures
        text_of(r) == canonical_reason(code),
{
    reqwest::StatusCode::from_u16(code).ok().and_then(|s| s.canonical_reason()).map(String::from)
}

/// The status as a status line shows it where its reason phrase is
/// `reason`: the number, a space, and the phrase or a note that none is
/// known.
pub open spec fn status_text_with(code: u16, reason: Option<Seq<char>>) -> Seq<char> {
    three_digits(code) + " "@ + match reason {
        Some(reason) => reason,
        None => "<unknown status code>"@,
    }
}

/// The status as a status line shows it.
pub open spec fn status_text(code: u16) -> Seq<char> {
    status_text_with(code, canonical_reason(code))
}

/// The status of a response: a number from 100 to 999.
#[derive(Clone, Copy, Debug)]
pub struct StatusCode {
    code: u16,
}

impl View for StatusCode {
    type V = u16;

    closed spec fn view(&self) -> u16 {
        self.code
    }
}

impl StatusCode {
    #[verifier::type_invariant]
    spec fn in_range(self) -> bool {
        is_status_code(self.code)
    }

    /// The status with the number `code`, where that is a status code.
    pub fn from_u16(code: u16) -> (r: Option<StatusCode>)
        ensures
            (r is Some) == is_status_code(code),
            r is Some ==> r->0@ == code,
    {
        if 100 <= code && code <= 999 {
            Some(StatusCode { code })
        } else {
            None
        }
    }

    /// The number of the status.
    pub fn as_u16(&self) -> (r: u16)
        ensures
            r == self@,
            is_status_code(r),
    {
        proof {
            use_type_invariant(self);
        }
        self.code
    }

    /// The status as a status line shows it where its reason phrase is
    /// `reason`.
    pub fn text_with(&self, reason: Option<String>) -> (r: String)
        ensures
            r@ == status_text_with(self@, text_of(reason)),
    {
        let mut text = write_three_digits(self.as_u16());
        text.append(" ");
        match reason {
            Some(reason) => text.append(reason.as_str()),
            None => text.append("<unknown status code>"),
        }
        text
    }

    /// The reason phrase of the status, where one is known.
    pub fn canonical_reason(&self) -> (r: Option<String>)
        ensures
            text_of(r) == canonical_reason(self@),
    {
        status_reason(self.as_u16())
    }

    /// The status as a status line shows it.
    pub fn to_text(&self) -> (r: String)
        ensures
            r@ == status_text(self@),
    {
        self.text_with(self.canonical_reason())
    }
}

/// A request that is ready to be sent.
#[derive(Debug)]
pub struct Request {
    pub method: Method,
    pub target: Target,
    pub version: Version,
    pub headers: Headers,
    pub body: Option<Vec<u8>>,
}

/// The model of a `Request`.
pub struct RequestView {
    pub method: Method,
    pub target: TargetView,
    pub version: Version,
    pub headers: Seq<Entry>,
    pub body: Option<Seq<u8>>,
}

impl View for Request {
    type V = RequestView;

    open spec fn view(&self) -> RequestView {
        RequestView {
            method: self.method,
            target: self.target@,
            version: self.version,
            headers: self.headers@,
            body: bytes_of(self.body),
        }
    }
}

/// A response as the transport hands it over. The body is absent where it
/// could not be read.
#[derive(Debug)]
pub struct Response {
    pub version: Version,
    pub status: StatusCode,
    pub headers: Headers,
    pub body: Option<Vec<u8>>,
}

/// The model of a `Response`.
pub struct ResponseView {
    pub version: Version,
    pub status: u16,
    pub headers: Seq<Entry>,
    pub body: Option<Seq<u8>>,
}

impl View for Response {
    type V = ResponseView;

    open spec fn view(&self) -> ResponseView {
        ResponseView {
            version: self.version,
            status: self.status@,
            headers: self.headers@,
            body: bytes_of(self.body),
        }
    }
}

} // verus!
