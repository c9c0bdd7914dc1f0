//! What holds of the engine in every state, and of the records for every
//! message, stated over the models.

use crate::engine::{dispatch_of, HttpView, ReceiptView, SendView, TextView};
use crate::error::{HttpError, Operation, RequestFault};
use crate::http_evidence::{
    header_lines, request_body_text, request_text, request_text_with, response_body_text,
    response_text, response_text_with, shown_headers, supplied_headers, value_text,
};
use crate::header::{
    appended, first_value, is_header_name, is_header_value, last_index, lemma_first_value,
    lemma_insert_other_name, lemma_insert_same_name, lemma_last_index, lookup, lower_name, Entry,
    ROOM,
};
use crate::message::{status_text, Method, RequestView, ResponseView, Version};
use crate::pending::PendingView;
use crate::url::parsed_url;
use crate::text::{ascii_text, is_visible, is_visible_byte};
use vstd::prelude::*;
use vstd::utf8::{
    encode_utf8, encode_utf8_decode_utf8, encode_utf8_valid_utf8, is_ascii_chars,
    is_ascii_chars_encode_utf8,
};

verus! {

/// One call of `add_header`: the key, the value, and whether the map was
/// full when the header reached it.
pub struct HeaderStep {
    pub key: Seq<char>,
    pub value: Seq<char>,
    pub full: bool,
}

/// The engine after the calls of `add_header` in `steps`, in their order.
pub open spec fn add_headers(s: HttpView, steps: Seq<HeaderStep>) -> HttpView
    decreases steps.len(),
{
    if steps.len() == 0 {
        s
    } else {
        add_headers(s, steps.drop_last()).add_header(
            steps.last().key,
            steps.last().value,
            steps.last().full,
        )
    }
}

/// The engine after a request was assembled: `prepare`, then any number of
/// `add_header`, then `add_body` or not.
pub open spec fn assemble(
    s: HttpView,
    method: Method,
    url: Seq<char>,
    steps: Seq<HeaderStep>,
    body: Option<Seq<char>>,
) -> HttpView {
    let with_headers = add_headers(s.prepare(method, url), steps);
    match body {
        Some(b) => with_headers.add_body(b),
        None => with_headers,
    }
}

/// Adding headers neither prepares a request nor takes one away, touches
/// nothing but the request in preparation, and what it makes of that request
/// does not depend on the rest of the engine.
pub proof fn lemma_add_headers(s: HttpView, t: HttpView, steps: Seq<HeaderStep>)
    requires
        s.pending == t.pending,
    ensures
        add_headers(s, steps).pending == add_headers(t, steps).pending,
        add_headers(s, steps).pending is Some == s.pending is Some,
        add_headers(s, steps).last == s.last,
    decreases steps.len(),
{
    if steps.len() > 0 {
        lemma_add_headers(s, t, steps.drop_last());
    }
}

/// After a request was assembled and sent, no request is in preparation:
/// adding a header fails. Where the request could be built and the transport
/// answered, exactly one record is filed, with the request as it was sent
/// and the response as it came back.
pub proof fn law_send_consumes_and_records(
    s: HttpView,
    method: Method,
    url: Seq<char>,
    steps: Seq<HeaderStep>,
    body: Option<Seq<char>>,
    reply: ResponseView,
)
    ensures
        ({
            let ready = assemble(s, method, url, steps, body);
            let sent = ready.send(false);
            let done = sent.receive(Some(reply));
            let refused: Result<(), HttpError> = Err(
                HttpError::NoPendingRequest(Operation::AddHeader),
            );
            &&& ready.pending is Some
            &&& sent.pending is None
            &&& done.pending is None
            &&& done.needs_pending(Operation::AddHeader) == refused
            &&& ready.send_result(false) matches Ok(Some(d)) ==> {
                let records = HttpView::receive_records(d.receipt, Some(reply));
                &&& records.len() == 1
                &&& records[0].label == d.receipt.label
                &&& records[0].request == d.receipt.request
                &&& records[0].response == response_text(reply)
            }
        }),
{
    lemma_add_headers(s.prepare(method, url), s.prepare(method, url), steps);
}

/// Without a request in preparation, `add_header`, `add_body` and `send` fail
/// and leave the engine as it was. That is so before the first `prepare` and
/// after every `send` that was no dry run.
pub proof fn law_operations_need_a_request(
    s: HttpView,
    key: Seq<char>,
    value: Seq<char>,
    full: bool,
    body: Seq<char>,
)
    ensures
        s.pending is None ==> {
            let no_header: Result<(), HttpError> = Err(
                HttpError::NoPendingRequest(Operation::AddHeader),
            );
            let no_body: Result<(), HttpError> = Err(
                HttpError::NoPendingRequest(Operation::AddBody),
            );
            let no_send: SendView = Err(HttpError::NoPendingRequest(Operation::Send));
            &&& s.needs_pending(Operation::AddHeader) == no_header
            &&& s.needs_pending(Operation::AddBody) == no_body
            &&& s.send_result(false) == no_send
            &&& s.add_header(key, value, full) == s
            &&& s.add_body(body) == s
            &&& s.send(false) == s
        },
        HttpView::initial().pending is None,
        s.send(false).pending is None,
{
}

/// A second `prepare` discards the first request entirely: what is sent
/// afterwards is what would be sent had the first request never been
/// assembled.
pub proof fn law_prepare_replaces(
    s: HttpView,
    first_method: Method,
    first_url: Seq<char>,
    first_steps: Seq<HeaderStep>,
    first_body: Option<Seq<char>>,
    method: Method,
    url: Seq<char>,
    steps: Seq<HeaderStep>,
    body: Option<Seq<char>>,
)
    ensures
        ({
            let first = assemble(s, first_method, first_url, first_steps, first_body);
            let second = assemble(first, method, url, steps, body);
            let alone = assemble(HttpView::initial(), method, url, steps, body);
            &&& first.prepare(method, url).pending == Some(PendingView::new(method, url))
            &&& second.pending == alone.pending
            &&& second.send_result(false) == alone.send_result(false)
        }),
{
    let first = assemble(s, first_method, first_url, first_steps, first_body);
    lemma_add_headers(first.prepare(method, url), HttpView::initial().prepare(method, url), steps);
}

/// A dry run of `send` gives neither a dispatch nor a failure and leaves the
/// engine as it was, so that a later `send` gives what it would have given
/// without the dry run.
pub proof fn law_dry_run_changes_nothing(s: HttpView)
    ensures
        ({
            let nothing: SendView = Ok(None);
            &&& s.send(true) == s
            &&& s.send_result(true) == nothing
            &&& s.send(true).send_result(false) == s.send_result(false)
            &&& s.send(true).send(false) == s.send(false)
        }),
{
}

/// The record of a response ends with the headers where the body's text is
/// empty, and else with a line break and that text.
pub proof fn law_body_section(res: ResponseView, body: Seq<char>)
    ensures
        ({
            let head = res.version.text() + " "@ + status_text(res.status) + "\r\n"@
                + header_lines(res.headers);
            &&& body.len() == 0 ==> response_text_with(res, body) == head
            &&& body.len() > 0 ==> response_text_with(res, body) == head + "\r\n"@ + body
            &&& response_text(res) == response_text_with(res, response_body_text(res.body))
        }),
{
}

/// A response whose body has no bytes has no body section in its record.
pub proof fn law_empty_body_has_no_section(res: ResponseView)
    requires
        res.body == Some(Seq::<u8>::empty()),
    ensures
        response_body_text(res.body).len() == 0,
        response_text(res) == res.version.text() + " "@ + status_text(res.status) + "\r\n"@
            + header_lines(res.headers),
{
    law_body_section(res, response_body_text(res.body));
}

/// A body that was given as text stands in the record of the request as it
/// was given.
pub proof fn law_text_body_is_shown_as_given(req: RequestView, body: Seq<char>)
    requires
        req.body == Some(encode_utf8(body)),
    ensures
        request_body_text(req.body) == Some(body),
        request_text(req) == request_text_with(req, Some(body)),
{
    encode_utf8_valid_utf8(body);
    encode_utf8_decode_utf8(body);
}

/// A header value that was given as visible ASCII text stands in a record as
/// it was given.
pub proof fn law_visible_value_is_shown_as_given(value: Seq<char>)
    requires
        forall|i: int|
            0 <= i < value.len() ==> (' ' <= #[trigger] value[i] <= '~' || value[i] == '\t'),
    ensures
        is_visible(encode_utf8(value)),
        value_text(encode_utf8(value)) == value,
{
    assert(is_ascii_chars(value));
    is_ascii_chars_encode_utf8(value);
    let bytes = encode_utf8(value);
    assert forall|i: int| 0 <= i < bytes.len() implies is_visible_byte(#[trigger] bytes[i]) by {
        assert(bytes[i] == value[i] as u8);
    }
    assert(ascii_text(bytes) =~= value) by {
        assert forall|i: int| 0 <= i < value.len() implies ascii_text(bytes)[i] == value[i] by {
            assert(bytes[i] == value[i] as u8);
        }
    }
}

/// The record of a request always shows an `accept` header, and a `host`
/// header wherever the target has a host or the request sets the header.
pub proof fn law_record_shows_accept_and_host(entries: Seq<Entry>, host: Option<Seq<char>>)
    ensures
        lookup(shown_headers(entries, host), "accept"@) is Some,
        host is Some || lookup(entries, "host"@) is Some ==> lookup(
            shown_headers(entries, host),
            "host"@,
        ) is Some,
        lookup(entries, "accept"@) is Some && lookup(entries, "host"@) is Some ==> shown_headers(
            entries,
            host,
        ) == entries,
{
    reveal_strlit("accept");
    reveal_strlit("host");
    let accept = "accept"@;
    let host_name = "host"@;
    assert(is_header_name(accept) && is_header_name(host_name));
    assert(lower_name(accept) =~= accept);
    assert(lower_name(host_name) =~= host_name);
    let supplied = supplied_headers(entries, host);
    let shown = shown_headers(entries, host);
    lemma_first_value(entries, accept);
    lemma_first_value(entries, host_name);
    lemma_first_value(shown, accept);
    lemma_first_value(shown, host_name);
    if lookup(entries, accept) is None {
        assert(shown[0].0 == accept);
    } else {
        let j = choose|j: int| 0 <= j < entries.len() && (#[trigger] entries[j]).0 == accept;
        assert(shown[supplied.len() + j] == entries[j]);
    }
    if lookup(entries, host_name) is None {
        if host is Some {
            assert(shown[supplied.len() - 1].0 == host_name);
        }
    } else {
        let j = choose|j: int| 0 <= j < entries.len() && (#[trigger] entries[j]).0 == host_name;
        assert(shown[supplied.len() + j] == entries[j]);
    }
    if lookup(entries, accept) is Some && lookup(entries, host_name) is Some {
        assert(shown =~= entries);
    }
}

/// After a response was received, `last_status` gives its status and
/// `last_request_header` the text of its first header of that name, or the
/// empty text where it has none.
pub proof fn law_last_outcome_is_the_response(s: HttpView, res: ResponseView, key: Seq<char>)
    ensures
        ({
            let done = s.receive(Some(res));
            let status: Result<i32, HttpError> = Ok(res.status as i32);
            let header: TextView = match lookup(res.headers, key) {
                Some(value) => if is_visible(value) {
                    Ok(ascii_text(value))
                } else {
                    Err(HttpError::HeaderDecode)
                },
                None => Ok(Seq::empty()),
            };
            &&& done.last_status() == status
            &&& done.last_request_header(key) == header
        }),
{
}

/// Before any exchange was completed, `last_status` and
/// `last_request_header` fail; and no operation but a received response sets
/// or changes the last outcome, so they fail until then and never again
/// after.
pub proof fn law_last_outcome_changes_only_on_response(
    s: HttpView,
    method: Method,
    url: Seq<char>,
    key: Seq<char>,
    value: Seq<char>,
    full: bool,
    body: Seq<char>,
    dry_run: bool,
    res: ResponseView,
)
    ensures
        HttpView::initial().last is None,
        s.last is None ==> {
            let no_status: Result<i32, HttpError> = Err(HttpError::NoPriorRequest);
            let no_header: TextView = Err(HttpError::NoPriorRequest);
            &&& s.last_status() == no_status
            &&& s.last_request_header(key) == no_header
        },
        s.prepare(method, url).last == s.last,
        s.add_header(key, value, full).last == s.last,
        s.add_body(body).last == s.last,
        s.send(dry_run).last == s.last,
        s.receive(None).last == s.last,
        s.receive(Some(res)).last is Some,
{
}

/// A request whose exchange fails in the transport is gone, files no record
/// and leaves the last outcome as it was.
pub proof fn law_failed_exchange(s: HttpView, receipt: ReceiptView)
    ensures
        ({
            let sent = s.send(false);
            let done = sent.receive(None);
            let failed: TextView = Err(HttpError::Request(RequestFault::Transport));
            &&& done.pending is None
            &&& done.last == s.last
            &&& HttpView::receive_result(None) == failed
            &&& HttpView::receive_records(receipt, None).len() == 0
        }),
{
}

/// Appending a header adds one entry and overwrites none: a lookup under
/// another name finds what it found before, and a lookup under the header's
/// name finds the value that was there first, or the new one where there was
/// none.
pub proof fn law_append_adds_and_keeps(
    entries: Seq<Entry>,
    name: Seq<char>,
    value: Seq<u8>,
    other: Seq<char>,
)
    ensures
        appended(entries, name, value).len() == entries.len() + 1,
        other != name ==> first_value(appended(entries, name, value), other) == first_value(
            entries,
            other,
        ),
        first_value(appended(entries, name, value), name) == match first_value(entries, name) {
            Some(first) => Some(first),
            None => Some(value),
        },
{
    lemma_last_index(entries, name);
    lemma_first_value(entries, name);
    let at = match last_index(entries, name) {
        Some(i) => i + 1,
        None => entries.len() as int,
    };
    assert(appended(entries, name, value) =~= entries.insert(at, (name, value)));
    if other != name {
        lemma_insert_other_name(entries, at, (name, value), other);
    }
    lemma_insert_same_name(entries, at, (name, value));
}

/// The entry that a header stands for once it is taken: its name in lower
/// case and the bytes of its value.
pub open spec fn entry_of(step: HeaderStep) -> Entry {
    (lower_name(step.key), encode_utf8(step.value))
}

/// Whether the name and the value of a header are accepted.
pub open spec fn is_accepted(step: HeaderStep) -> bool {
    is_header_name(step.key) && is_header_value(encode_utf8(step.value))
}

/// The entries after the headers in `steps` were appended to `entries`, in
/// their order.
pub open spec fn appended_all(entries: Seq<Entry>, steps: Seq<HeaderStep>) -> Seq<Entry>
    decreases steps.len(),
{
    if steps.len() == 0 {
        entries
    } else {
        let entry = entry_of(steps.last());
        appended(appended_all(entries, steps.drop_last()), entry.0, entry.1)
    }
}

/// After `prepare` and no more than `ROOM` accepted headers the request holds
/// them all and no refusal, whatever the map could have said.
pub proof fn lemma_accepted_headers(
    s: HttpView,
    method: Method,
    url: Seq<char>,
    steps: Seq<HeaderStep>,
)
    requires
        steps.len() <= ROOM,
        forall|i: int| 0 <= i < steps.len() ==> is_accepted(#[trigger] steps[i]),
    ensures
        add_headers(s.prepare(method, url), steps).pending == Some(
            PendingView {
                headers: appended_all(Seq::empty(), steps),
                ..PendingView::new(method, url)
            },
        ),
        appended_all(Seq::empty(), steps).len() == steps.len(),
    decreases steps.len(),
{
    if steps.len() > 0 {
        let front = steps.drop_last();
        assert forall|i: int| 0 <= i < front.len() implies is_accepted(#[trigger] front[i]) by {
            assert(front[i] == steps[i]);
        }
        lemma_accepted_headers(s, method, url, front);
        let entry = entry_of(steps.last());
        law_append_adds_and_keeps(appended_all(Seq::empty(), front), entry.0, entry.1, entry.0);
        assert(is_accepted(steps[steps.len() - 1]));
    }
}

/// A request that is assembled from no more than `ROOM` accepted headers
/// holds every one of them, so that it fails for no header: where the URL
/// parses and names a host, `send` gives the dispatch of the request with
/// those headers.
pub proof fn law_accepted_headers_are_held(
    s: HttpView,
    method: Method,
    url: Seq<char>,
    steps: Seq<HeaderStep>,
    body: Option<Seq<char>>,
)
    requires
        steps.len() <= ROOM,
        forall|i: int| 0 <= i < steps.len() ==> is_accepted(#[trigger] steps[i]),
    ensures
        ({
            let ready = assemble(s, method, url, steps, body);
            let pending = ready.pending->0;
            let held = appended_all(Seq::empty(), steps);
            let target = parsed_url(url);
            let sent: SendView = Ok(
                Some(
                    dispatch_of(
                        RequestView {
                            method,
                            target: target->0,
                            version: Version::Http11,
                            headers: held,
                            body: match body {
                                Some(b) => Some(encode_utf8(b)),
                                None => None,
                            },
                        },
                    ),
                ),
            );
            &&& ready.pending is Some
            &&& pending.fault is None
            &&& pending.headers == held
            &&& held.len() == steps.len()
            &&& target is Some && target->0.host is Some ==> ready.send_result(false) == sent
        }),
{
    lemma_accepted_headers(s, method, url, steps);
}

/// Headers whose names differ, case apart, are held in the order in which
/// they were added.
pub proof fn law_distinct_headers_keep_their_order(steps: Seq<HeaderStep>)
    requires
        forall|i: int, j: int|
            #![trigger steps[i], steps[j]]
            0 <= i < j < steps.len() ==> lower_name(steps[i].key) != lower_name(steps[j].key),
    ensures
        appended_all(Seq::empty(), steps) == steps.map_values(|step: HeaderStep| entry_of(step)),
    decreases steps.len(),
{
    let listed = steps.map_values(|step: HeaderStep| entry_of(step));
    if steps.len() == 0 {
        assert(appended_all(Seq::empty(), steps) =~= listed);
    } else {
        let front = steps.drop_last();
        assert forall|i: int, j: int|
            #![trigger front[i], front[j]]
            0 <= i < j < front.len() implies lower_name(front[i].key) != lower_name(
            front[j].key,
        ) by {
            assert(front[i] == steps[i] && front[j] == steps[j]);
        }
        law_distinct_headers_keep_their_order(front);
        let before = front.map_values(|step: HeaderStep| entry_of(step));
        let entry = entry_of(steps.last());
        lemma_last_index(before, entry.0);
        if last_index(before, entry.0) is Some {
            let i = last_index(before, entry.0)->0;
            assert(before[i] == entry_of(steps[i]));
            assert(steps[steps.len() - 1] == steps.last());
            assert(false);
        }
        assert(appended(before, entry.0, entry.1) =~= listed);
    }
}

} // verus!
