//! The engine: at most one request in preparation, the outcome of the last
//! exchange, and the operations that a host calls one at a time.
//!
//! Sending is two steps around the transport. `Http::send` takes the prepared
//! request out of the engine and hands it over together with the record of
//! what is about to be sent; `Http::receive` takes what the transport
//! answered, remembers the outcome and files the evidence.

use crate::error::{HttpError, Operation, RequestFault};
use crate::http_evidence::{
    req_to_evidence, request_text, res_to_evidence, response_body_text, response_text,
};
use crate::header::{lookup, Entry, Headers, ROOM};
use crate::message::{Method, Request, RequestView, Response, ResponseView, StatusCode};
use crate::pending::{PendingRequest, PendingView};
use crate::text::{ascii_text, is_visible, visible_text};
use crate::url::parsed_url;
use vstd::prelude::*;
use vstd::string::*;
use vstd::utf8::encode_utf8;

verus! {

/// The outcome of the last completed exchange.
#[derive(Debug)]
pub struct LastOutcome {
    status: StatusCode,
    headers: Headers,
}

/// The model of a `LastOutcome`.
pub struct OutcomeView {
    pub status: u16,
    pub headers: Seq<Entry>,
}

/// The record of one exchange.
#[derive(Debug)]
pub struct Evidence {
    pub label: String,
    pub request: String,
    pub response: String,
}

/// The model of an `Evidence`.
pub struct EvidenceView {
    pub label: Seq<char>,
    pub request: Seq<char>,
    pub response: Seq<char>,
}

impl View for Evidence {
    type V = EvidenceView;

    open spec fn view(&self) -> EvidenceView {
        EvidenceView { label: self.label@, request: self.request@, response: self.response@ }
    }
}

/// The records that a list of evidence stands for.
pub open spec fn records_of(list: Seq<Evidence>) -> Seq<EvidenceView> {
    list.map_values(|e: Evidence| e@)
}

/// What is known of a request once it is handed to the transport: the label
/// of the exchange and the record of the request.
#[derive(Debug)]
pub struct Receipt {
    pub label: String,
    pub request: String,
}

/// The model of a `Receipt`.
pub struct ReceiptView {
    pub label: Seq<char>,
    pub request: Seq<char>,
}

impl View for Receipt {
    type V = ReceiptView;

    open spec fn view(&self) -> ReceiptView {
        ReceiptView { label: self.label@, request: self.request@ }
    }
}

/// A request on its way to the transport.
#[derive(Debug)]
pub struct Dispatch {
    pub request: Request,
    pub receipt: Receipt,
}

/// The model of a `Dispatch`.
pub struct DispatchView {
    pub request: RequestView,
    pub receipt: ReceiptView,
}

impl View for Dispatch {
    type V = DispatchView;

    open spec fn view(&self) -> DispatchView {
        DispatchView { request: self.request@, receipt: self.receipt@ }
    }
}

/// The dispatch of `req`: the exchange is labelled with the URL as parsing
/// wrote it out, and the request's record is made before it is sent.
pub open spec fn dispatch_of(req: RequestView) -> DispatchView {
    DispatchView {
        request: req,
        receipt: ReceiptView {
            label: "Request to "@ + req.target.text,
            request: request_text(req),
        },
    }
}

impl Dispatch {
    /// The dispatch of `request`: its label and its record are made here,
    /// before the request is sent.
    pub fn new(request: Request) -> (d: Dispatch)
        ensures
            d@ == dispatch_of(request@),
    {
        let mut label = "Request to ".to_string();
        label.append(request.target.text.as_str());
        let record = req_to_evidence(&request);
        Dispatch { request, receipt: Receipt { label, request: record } }
    }
}

/// The model of what `Http::send` gives: nothing to send, a dispatch, or a
/// failure.
pub type SendView = Result<Option<DispatchView>, HttpError>;

/// The model of a result that holds text.
pub type TextView = Result<Seq<char>, HttpError>;

/// The model of what `Http::send` gave.
pub open spec fn send_of(r: Result<Option<Dispatch>, HttpError>) -> SendView {
    match r {
        Ok(Some(d)) => Ok(Some(d@)),
        Ok(None) => Ok(None),
        Err(e) => Err(e),
    }
}

/// The model of a result that holds text.
pub open spec fn text_result_of(r: Result<String, HttpError>) -> TextView {
    match r {
        Ok(s) => Ok(s@),
        Err(e) => Err(e),
    }
}

/// The model of an optional response.
pub open spec fn reply_of(reply: Option<Response>) -> Option<ResponseView> {
    match reply {
        Some(res) => Some(res@),
        None => None,
    }
}

/// The model of the engine: the request in preparation and the outcome of
/// the last completed exchange.
pub struct HttpView {
    pub pending: Option<PendingView>,
    pub last: Option<OutcomeView>,
}

impl HttpView {
    /// The engine before any operation.
    pub open spec fn initial() -> HttpView {
        HttpView { pending: None, last: None }
    }

    /// After `prepare`: a fresh request stands in place of any other.
    pub open spec fn prepare(self, method: Method, url: Seq<char>) -> HttpView {
        HttpView { pending: Some(PendingView::new(method, url)), ..self }
    }

    /// What an operation gives that needs a prepared request and does nothing
    /// else that can fail.
    pub open spec fn needs_pending(self, op: Operation) -> Result<(), HttpError> {
        if self.pending is Some {
            Ok(())
        } else {
            Err(HttpError::NoPendingRequest(op))
        }
    }

    /// After `add_header`.
    pub open spec fn add_header(self, key: Seq<char>, value: Seq<char>, full: bool) -> HttpView {
        match self.pending {
            Some(p) => HttpView { pending: Some(p.header(key, value, full)), ..self },
            None => self,
        }
    }

    /// After `add_body`.
    pub open spec fn add_body(self, body: Seq<char>) -> HttpView {
        match self.pending {
            Some(p) => HttpView { pending: Some(p.body(encode_utf8(body))), ..self },
            None => self,
        }
    }

    /// After `send`: a dry run changes nothing, and every other call leaves
    /// the engine without a request in preparation.
    pub open spec fn send(self, dry_run: bool) -> HttpView {
        if dry_run {
            self
        } else {
            HttpView { pending: None, ..self }
        }
    }

    /// What `send` gives: nothing to send in a dry run; a failure where no
    /// request is prepared or the prepared one cannot be built; and else the
    /// dispatch of the request.
    pub open spec fn send_result(self, dry_run: bool) -> SendView {
        if dry_run {
            Ok(None)
        } else {
            match self.pending {
                None => Err(HttpError::NoPendingRequest(Operation::Send)),
                Some(p) => match p.resolve(parsed_url(p.url)) {
                    Ok(req) => Ok(Some(dispatch_of(req))),
                    Err(fault) => Err(HttpError::Request(fault)),
                },
            }
        }
    }

    /// After `receive`: a response becomes the last outcome, and without one
    /// nothing changes.
    pub open spec fn receive(self, reply: Option<ResponseView>) -> HttpView {
        match reply {
            Some(res) => HttpView {
                last: Some(OutcomeView { status: res.status, headers: res.headers }),
                ..self
            },
            None => self,
        }
    }

    /// What `receive` gives: the text of the response's body, or a failure
    /// where the transport gave no response.
    pub open spec fn receive_result(reply: Option<ResponseView>) -> TextView {
        match reply {
            Some(res) => Ok(response_body_text(res.body)),
            None => Err(HttpError::Request(RequestFault::Transport)),
        }
    }

    /// The records that `receive` files: one for a response, none without.
    pub open spec fn receive_records(
        receipt: ReceiptView,
        reply: Option<ResponseView>,
    ) -> Seq<EvidenceView> {
        match reply {
            Some(res) => seq![
                EvidenceView {
                    label: receipt.label,
                    request: receipt.request,
                    response: response_text(res),
                },
            ],
            None => Seq::empty(),
        }
    }

    /// What `last_status` gives.
    pub open spec fn last_status(self) -> Result<i32, HttpError> {
        match self.last {
            Some(outcome) => Ok(outcome.status as i32),
            None => Err(HttpError::NoPriorRequest),
        }
    }

    /// What `last_request_header` gives: the text of the first value under
    /// `key`, the empty text where there is none, and a failure where the
    /// value is no text or no exchange was completed.
    pub open spec fn last_request_header(self, key: Seq<char>) -> TextView {
        match self.last {
            Some(outcome) => match lookup(outcome.headers, key) {
                Some(value) => if is_visible(value) {
                    Ok(ascii_text(value))
                } else {
                    Err(HttpError::HeaderDecode)
                },
                None => Ok(Seq::empty()),
            },
            None => Err(HttpError::NoPriorRequest),
        }
    }
}

/// The engine.
#[derive(Debug)]
pub struct Http {
    pending: Option<PendingRequest>,
    last: Option<LastOutcome>,
}

impl View for Http {
    type V = HttpView;

    closed spec fn view(&self) -> HttpView {
        HttpView {
            pending: match self.pending {
                Some(p) => Some(p@),
                None => None,
            },
            last: match self.last {
                Some(outcome) => Some(
                    OutcomeView { status: outcome.status@, headers: outcome.headers@ },
                ),
                None => None,
            },
        }
    }
}

impl Default for Http {
    fn default() -> (r: Http)
        ensures
            r@ == HttpView::initial(),
    {
        Http::new()
    }
}

impl Http {
    /// An engine with no request in preparation and no exchange behind it.
    pub fn new() -> (r: Http)
        ensures
            r@ == HttpView::initial(),
    {
        Http { pending: None, last: None }
    }

    /// Prepares a request with `method` for `url`, in place of any request
    /// that was in preparation.
    pub fn prepare(&mut self, method: Method, url: String)
        ensures
            final(self)@ == old(self)@.prepare(method, url@),
    {
        self.pending = Some(PendingRequest::new(method, url));
    }

    /// Prepares a GET request.
    pub fn prepare_get(&mut self, url: String)
        ensures
            final(self)@ == old(self)@.prepare(Method::Get, url@),
    {
        self.prepare(Method::Get, url)
    }

    /// Prepares a HEAD request.
    pub fn prepare_head(&mut self, url: String)
        ensures
            final(self)@ == old(self)@.prepare(Method::Head, url@),
    {
        self.prepare(Method::Head, url)
    }

    /// Prepares a POST request.
    pub fn prepare_post(&mut self, url: String)
        ensures
            final(self)@ == old(self)@.prepare(Method::Post, url@),
    {
        self.prepare(Method::Post, url)
    }

    /// Prepares a PUT request.
    pub fn prepare_put(&mut self, url: String)
        ensures
            final(self)@ == old(self)@.prepare(Method::Put, url@),
    {
        self.prepare(Method::Put, url)
    }

    /// Prepares a PATCH request.
    pub fn prepare_patch(&mut self, url: String)
        ensures
            final(self)@ == old(self)@.prepare(Method::Patch, url@),
    {
        self.prepare(Method::Patch, url)
    }

    /// Prepares a DELETE request.
    pub fn prepare_delete(&mut self, url: String)
        ensures
            final(self)@ == old(self)@.prepare(Method::Delete, url@),
    {
        self.prepare(Method::Delete, url)
    }

    /// Adds a header to the request in preparation. A header that is not
    /// accepted makes the request fail when it is sent; a request with fewer
    /// than `ROOM` headers takes every header that is accepted.
    pub fn add_header(&mut self, key: String, value: String) -> (r: Result<(), HttpError>)
        ensures
            r == old(self)@.needs_pending(Operation::AddHeader),
            final(self)@ == old(self)@.add_header(key@, value@, false) || final(self)@ == old(
                self,
            )@.add_header(key@, value@, true),
            old(self)@.pending matches Some(p) && p.headers.len() < ROOM ==> final(self)@ == old(
                self,
            )@.add_header(key@, value@, false),
    {
        match &mut self.pending {
            Some(p) => {
                p.header(key.as_str(), value.as_str());
                Ok(())
            },
            None => Err(HttpError::NoPendingRequest(Operation::AddHeader)),
        }
    }

    /// Sets the body of the request in preparation, in place of any body
    /// that it had.
    pub fn add_body(&mut self, body: String) -> (r: Result<(), HttpError>)
        ensures
            r == old(self)@.needs_pending(Operation::AddBody),
            final(self)@ == old(self)@.add_body(body@),
    {
        match &mut self.pending {
            Some(p) => {
                p.body(body.as_str().as_bytes_vec());
                Ok(())
            },
            None => Err(HttpError::NoPendingRequest(Operation::AddBody)),
        }
    }

    /// The first step of sending. In a dry run nothing happens. Otherwise the
    /// request in preparation is taken out of the engine, built, and handed
    /// over with its record; whether or not it can be built, it is gone.
    pub fn send(&mut self, dry_run: bool) -> (r: Result<Option<Dispatch>, HttpError>)
        ensures
            final(self)@ == old(self)@.send(dry_run),
            send_of(r) == old(self)@.send_result(dry_run),
    {
        if dry_run {
            return Ok(None);
        }
        match self.pending.take() {
            None => Err(HttpError::NoPendingRequest(Operation::Send)),
            Some(p) => match p.build() {
                Err(fault) => Err(HttpError::Request(fault)),
                Ok(request) => Ok(Some(Dispatch::new(request))),
            },
        }
    }

    /// The second step of sending: what the transport answered. Without a
    /// response the exchange has failed and nothing changes. With one, its
    /// status and headers become the last outcome, one record is filed
    /// behind those in `evidence`, and the text of the body is given back.
    pub fn receive(
        &mut self,
        receipt: Receipt,
        reply: Option<Response>,
        evidence: &mut Vec<Evidence>,
    ) -> (r: Result<String, HttpError>)
        ensures
            final(self)@ == old(self)@.receive(reply_of(reply)),
            text_result_of(r) == HttpView::receive_result(reply_of(reply)),
            records_of(final(evidence)@) == records_of(old(evidence)@) + HttpView::receive_records(
                receipt@,
                reply_of(reply),
            ),
    {
        match reply {
            None => {
                proof {
                    let none: Seq<EvidenceView> = Seq::empty();
                    assert(records_of(evidence@) =~= records_of(evidence@) + none);
                }
                Err(HttpError::Request(RequestFault::Transport))
            },
            Some(res) => {
                let status = res.status;
                let headers = res.headers.clone();
                self.last = Some(LastOutcome { status, headers });
                let mut body = String::new();
                let response = res_to_evidence(res, &mut body);
                let record = Evidence { label: receipt.label, request: receipt.request, response };
                proof {
                    assert(records_of(evidence@.push(record)) =~= records_of(evidence@)
                        + seq![record@]);
                }
                evidence.push(record);
                Ok(body)
            },
        }
    }

    /// The status of the last completed exchange.
    pub fn last_status(&self) -> (r: Result<i32, HttpError>)
        ensures
            r == self@.last_status(),
    {
        match &self.last {
            Some(outcome) => Ok(outcome.status.as_u16() as i32),
            None => Err(HttpError::NoPriorRequest),
        }
    }

    /// The value of the header `key` in the last completed exchange, looked
    /// up without regard to case; the empty text where there is no such
    /// header.
    pub fn last_request_header(&self, key: String) -> (r: Result<String, HttpError>)
        ensures
            text_result_of(r) == self@.last_request_header(key@),
    {
        match &self.last {
            Some(outcome) => match outcome.headers.get(key.as_str()) {
                Some(value) => match visible_text(value.as_slice()) {
                    Some(text) => Ok(text),
                    None => Err(HttpError::HeaderDecode),
                },
                None => Ok(String::new()),
            },
            None => Err(HttpError::NoPriorRequest),
        }
    }
}

} // verus!
