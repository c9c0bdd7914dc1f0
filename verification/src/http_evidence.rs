//! The text that records an exchange: the request as it was sent and the
//! response as it came back, each written as a head line, one line per
//! header, and the body.

use crate::header::{entries_of, lookup, Entry, Header, Headers};
use crate::message::{
    canonical_reason, status_text_with, Request, RequestView, Response, ResponseView,
};
use crate::text::{ascii_text, decode_lossy, decoded_text, is_visible, text_of, visible_text};
use vstd::prelude::*;
use vstd::string::*;
use vstd::utf8::encode_utf8;

verus! {

/// A header value as the record shows it: its text where every byte is
/// visible, a note that it cannot be shown where one is not.
pub open spec fn value_text(value: Seq<u8>) -> Seq<char> {
    if is_visible(value) {
        ascii_text(value)
    } else {
        "<header data cannot be displayed>"@
    }
}

/// The line of one header.
pub open spec fn header_line(entry: Entry) -> Seq<char> {
    entry.0 + ": "@ + value_text(entry.1) + "\r\n"@
}

/// The lines of `entries`, in their order.
pub open spec fn header_lines(entries: Seq<Entry>) -> Seq<char>
    decreases entries.len(),
{
    if entries.len() == 0 {
        Seq::<char>::empty()
    } else {
        header_lines(entries.drop_last()) + header_line(entries.last())
    }
}

/// The headers that the record of a request supplies: `accept` with `*/*`
/// unless the request has that header, then `host` with the target's host
/// unless the request has that header or the target has no host.
pub open spec fn supplied_headers(entries: Seq<Entry>, host: Option<Seq<char>>) -> Seq<Entry> {
    let accept = if lookup(entries, "accept"@) is None {
        seq![("accept"@, encode_utf8("*/*"@))]
    } else {
        Seq::empty()
    };
    let host = if lookup(entries, "host"@) is None && host is Some {
        seq![("host"@, encode_utf8(host->0))]
    } else {
        Seq::empty()
    };
    accept + host
}

/// The headers that the record of a request shows: those that it supplies,
/// then the request's own in the order in which the request holds them.
pub open spec fn shown_headers(entries: Seq<Entry>, host: Option<Seq<char>>) -> Seq<Entry> {
    supplied_headers(entries, host) + entries
}

/// The request line without its line break: method, path, query and version.
pub open spec fn request_line(req: RequestView) -> Seq<char> {
    req.method.text() + " "@ + req.target.path + match req.target.query {
        Some(q) => "?"@ + q,
        None => Seq::<char>::empty(),
    } + " "@ + req.version.text()
}

/// The record of a request whose body reads as `body`: the request line, the
/// headers, and behind a line break the body where there is one.
pub open spec fn request_text_with(req: RequestView, body: Option<Seq<char>>) -> Seq<char> {
    let head = request_line(req) + "\r\n"@ + header_lines(
        shown_headers(req.headers, req.target.host),
    );
    match body {
        Some(text) => head + "\r\n"@ + text,
        None => head,
    }
}

/// The body of a request as text, where it has one.
pub open spec fn request_body_text(body: Option<Seq<u8>>) -> Option<Seq<char>> {
    match body {
        Some(b) => Some(decoded_text(b)),
        None => None,
    }
}

/// The record of a request.
pub open spec fn request_text(req: RequestView) -> Seq<char> {
    request_text_with(req, request_body_text(req.body))
}

/// The record of a response whose status has the reason phrase `reason` and
/// whose body reads as `body`: the status line, the headers, and behind a
/// line break the body unless it is empty.
pub open spec fn response_text_given(
    res: ResponseView,
    reason: Option<Seq<char>>,
    body: Seq<char>,
) -> Seq<char> {
    let head = res.version.text() + " "@ + status_text_with(res.status, reason) + "\r\n"@
        + header_lines(res.headers);
    if body.len() == 0 {
        head
    } else {
        head + "\r\n"@ + body
    }
}

/// The record of a response whose body reads as `body`.
pub open spec fn response_text_with(res: ResponseView, body: Seq<char>) -> Seq<char> {
    response_text_given(res, canonical_reason(res.status), body)
}

/// The body of a response as text, or a note where the body could not be
/// read.
pub open spec fn response_body_text(body: Option<Seq<u8>>) -> Seq<char> {
    match body {
        Some(b) => decoded_text(b),
        None => "<unable to decode response body>"@,
    }
}

/// The record of a response.
pub open spec fn response_text(res: ResponseView) -> Seq<char> {
    response_text_with(res, response_body_text(res.body))
}

/// The lines of a list extended by one entry are the lines of the list and
/// the line of that entry.
pub proof fn lemma_header_lines_push(entries: Seq<Entry>, entry: Entry)
    ensures
        header_lines(entries.push(entry)) == header_lines(entries) + header_line(entry),
{
    assert(entries.push(entry).drop_last() =~= entries);
}

/// The lines of two lists, one behind the other, are the lines of the first
/// and then the lines of the second.
pub proof fn lemma_header_lines_concat(first: Seq<Entry>, second: Seq<Entry>)
    ensures
        header_lines(first + second) == header_lines(first) + header_lines(second),
    decreases second.len(),
{
    if second.len() == 0 {
        assert(first + second =~= first);
        assert(header_lines(first) + header_lines(second) =~= header_lines(first));
    } else {
        lemma_header_lines_concat(first, second.drop_last());
        assert((first + second).drop_last() =~= first + second.drop_last());
        assert(header_lines(first + second) =~= header_lines(first) + header_lines(second));
    }
}

/// Writes the line of the header `name` with `value` behind `text`.
pub fn push_header_line(text: &mut String, name: &str, value: &[u8])
    ensures
        final(text)@ == old(text)@ + header_line((name@, value@)),
{
    text.append(name);
    text.append(": ");
    match visible_text(value) {
        Some(shown) => text.append(shown.as_str()),
        None => text.append("<header data cannot be displayed>"),
    }
    text.append("\r\n");
    proof {
        assert(text@ =~= old(text)@ + header_line((name@, value@)));
    }
}

/// The lines of the headers in `list`, in their order.
pub fn header_list_to_evidence(list: &Vec<Header>) -> (text: String)
    ensures
        text@ == header_lines(entries_of(list@)),
{
    let mut text = String::new();
    let mut i: usize = 0;
    while i < list.len()
        invariant
            i <= list.len(),
            text@ == header_lines(entries_of(list@.take(i as int))),
        decreases list.len() - i,
    {
        let header = &list[i];
        push_header_line(&mut text, header.name.as_str(), header.value.as_slice());
        proof {
            let before = entries_of(list@.take(i as int));
            let after = entries_of(list@.take(i + 1));
            assert(after =~= before.push(list@[i as int]@));
            lemma_header_lines_push(before, list@[i as int]@);
        }
        i += 1;
    }
    proof {
        assert(list@.take(i as int) == list@);
    }
    text
}

/// The lines of `headers`: one line per header, in the order in which the map
/// holds them.
pub fn headers_to_evidence(headers: &Headers) -> (text: String)
    ensures
        text@ == header_lines(headers@),
{
    let list = headers.entries();
    header_list_to_evidence(&list)
}

/// Writes the request line of `req`, without its line break.
fn write_request_line(req: &Request) -> (text: String)
    ensures
        text@ == request_line(req@),
{
    let mut text = String::new();
    text.append(req.method.as_str());
    text.append(" ");
    text.append(req.target.path.as_str());
    match &req.target.query {
        Some(q) => {
            text.append("?");
            text.append(q.as_str());
            proof {
                assert(text@ =~= req@.method.text() + " "@ + req@.target.path + ("?"@ + q@));
            }
        },
        None => {
            proof {
                let nothing: Seq<char> = Seq::empty();
                assert(text@ =~= req@.method.text() + " "@ + req@.target.path + nothing);
            }
        },
    }
    text.append(" ");
    text.append(req.version.as_str());
    text
}

/// Writes the lines of the headers that the record of `req` shows.
fn write_shown_headers(req: &Request) -> (text: String)
    ensures
        text@ == header_lines(shown_headers(req@.headers, req@.target.host)),
{
    let mut text = String::new();
    let ghost mut supplied: Seq<Entry> = Seq::empty();
    if !req.headers.contains_key("accept") {
        push_header_line(&mut text, "accept", "*/*".as_bytes());
        proof {
            lemma_header_lines_push(supplied, ("accept"@, encode_utf8("*/*"@)));
            supplied = supplied.push(("accept"@, encode_utf8("*/*"@)));
        }
    }
    if !req.headers.contains_key("host") {
        match &req.target.host {
            Some(host) => {
                push_header_line(&mut text, "host", host.as_str().as_bytes());
                proof {
                    lemma_header_lines_push(supplied, ("host"@, encode_utf8(host@)));
                    supplied = supplied.push(("host"@, encode_utf8(host@)));
                }
            },
            None => {},
        }
    }
    proof {
        assert(supplied =~= supplied_headers(req@.headers, req@.target.host));
        lemma_header_lines_concat(supplied, req@.headers);
    }
    let own = headers_to_evidence(&req.headers);
    text.append(own.as_str());
    text
}

/// The record of a request whose body reads as `body`.
pub fn request_evidence(req: &Request, body: Option<String>) -> (text: String)
    ensures
        text@ == request_text_with(req@, text_of(body)),
{
    let mut text = write_request_line(req);
    text.append("\r\n");
    let lines = write_shown_headers(req);
    text.append(lines.as_str());
    match body {
        Some(body) => {
            text.append("\r\n");
            text.append(body.as_str());
        },
        None => {},
    }
    text
}

/// The record of a request: the request line, `accept` and `host` where the
/// request does not set them, the request's own headers, and the body.
pub fn req_to_evidence(req: &Request) -> (text: String)
    ensures
        text@ == request_text(req@),
{
    let body = match &req.body {
        Some(bytes) => Some(decode_lossy(bytes.as_slice())),
        None => None,
    };
    request_evidence(req, body)
}

/// The record of a response whose status has the reason phrase `reason` and
/// whose body reads as `body`.
pub fn response_evidence_with(res: &Response, reason: Option<String>, body: &str) -> (text: String)
    ensures
        text@ == response_text_given(res@, text_of(reason), body@),
{
    let mut text = String::new();
    text.append(res.version.as_str());
    text.append(" ");
    let status = res.status.text_with(reason);
    text.append(status.as_str());
    text.append("\r\n");
    let lines = headers_to_evidence(&res.headers);
    text.append(lines.as_str());
    if !body.is_empty() {
        text.append("\r\n");
        text.append(body);
    }
    text
}

/// The record of a response whose body reads as `body`.
pub fn response_evidence(res: &Response, body: &str) -> (text: String)
    ensures
        text@ == response_text_with(res@, body@),
{
    response_evidence_with(res, res.status.canonical_reason(), body)
}

/// The record of a response: the status line, the headers, and the body where
/// its text is not empty. The text of the body is left in `body`.
pub fn res_to_evidence(res: Response, body: &mut String) -> (text: String)
    ensures
        final(body)@ == response_body_text(res@.body),
        text@ == response_text(res@),
{
    *body = match &res.body {
        Some(bytes) => decode_lossy(bytes.as_slice()),
        None => "<unable to decode response body>".to_string(),
    };
    response_evidence(&res, body.as_str())
}

} // verus!
