//! The interception pipeline: what happens to one request and to one
//! response, and how a response is matched with the request before it.
use vstd::prelude::*;
use vstd::utf8::{decode_utf8, encode_utf8, valid_utf8};
use std::collections::VecDeque;
use crate::external::{decode_utf8_text, headers_json, new_exchange_id, now_millis, parse_uri, uri_text};
use crate::headers::Headers;
use crate::rules::{body_after, headers_after, text_after, RewriteManager, RewriteRule};

verus! {

/// A lifecycle event for live observers.
pub struct ProxyEventPayload {
    pub id: String,
    pub method: String,
    pub url: String,
    pub status: Option<i32>,
    /// "request" or "response".
    pub phase: String,
}

/// The stored record of one exchange.
pub struct ExchangeRecord {
    pub id: String,
    pub method: String,
    pub url: String,
    /// "http" or "grpc".
    pub protocol: String,
    /// The request's header fields as a JSON object.
    pub request_headers: String,
    pub request_body: Option<Vec<u8>>,
    pub response_status: i32,
    pub response_headers: String,
    pub response_body: Option<Vec<u8>>,
    pub duration: i64,
    pub timestamp: i64,
}

/// What the arrival of a response changes in a stored record.
pub struct ResponseUpdate {
    pub id: String,
    pub response_status: i32,
    pub response_headers: String,
    pub response_body: Option<Vec<u8>>,
    pub duration: i64,
}

/// A request as the transport hands it over, its body fully read.
pub struct InterceptedRequest {
    pub method: String,
    pub url: String,
    pub headers: Headers,
    pub body: Vec<u8>,
}

/// A response as the transport hands it over, its body fully read.
pub struct InterceptedResponse {
    pub status: u16,
    pub headers: Headers,
    pub body: Vec<u8>,
}

/// The outcome of capturing a request: the request to forward, the record to
/// insert and the event to publish.
pub struct CapturedRequest {
    pub request: InterceptedRequest,
    pub record: ExchangeRecord,
    pub event: ProxyEventPayload,
}

/// The outcome of capturing a response: the response to return and, where a
/// request was waiting for it, the update to store and the event to publish.
pub struct CapturedResponse {
    pub response: InterceptedResponse,
    pub update: Option<ResponseUpdate>,
    pub event: Option<ProxyEventPayload>,
}

pub open spec fn opt_bytes(o: Option<Vec<u8>>) -> Option<Seq<u8>> {
    match o {
        Some(v) => Some(v@),
        None => None,
    }
}

/// A body is stored only when it is not empty.
pub open spec fn stored_body(b: Seq<u8>) -> Option<Seq<u8>> {
    if b.len() == 0 {
        None
    } else {
        Some(b)
    }
}

/// The URL after the request-side URL rules, re-read as a URI; a result that
/// is no URI leaves the URL as it came.
pub open spec fn rewritten_url(rules: Seq<RewriteRule>, url: Seq<char>) -> Seq<char> {
    match uri_text(text_after(rules, "request"@, "url"@, url)) {
        Some(u) => u,
        None => url,
    }
}

/// The first value under `name`, scanning from the front.
pub open spec fn first_value(h: Seq<(Seq<char>, Seq<u8>)>, name: Seq<char>) -> Option<Seq<u8>>
    decreases h.len(),
{
    if h.len() == 0 {
        None
    } else if h[0].0 == name {
        Some(h[0].1)
    } else {
        first_value(h.subrange(1, h.len() as int), name)
    }
}

/// Bytes that `HeaderValue::to_str` accepts: tab and 32 to 126.
pub open spec fn visible_ascii(b: Seq<u8>) -> bool {
    forall|i: int| 0 <= i < b.len() ==> (32 <= #[trigger] b[i] < 127 || b[i] == 9)
}

/// The field value as text, or the empty text where it is not visible ASCII.
pub open spec fn value_text(b: Seq<u8>) -> Seq<char> {
    if visible_ascii(b) && valid_utf8(b) {
        decode_utf8(b)
    } else {
        Seq::empty()
    }
}

/// A request is gRPC when its first content-type value, read as text, starts
/// with "application/grpc".
pub open spec fn is_grpc(h: Seq<(Seq<char>, Seq<u8>)>) -> bool {
    match first_value(h, "content-type"@) {
        Some(v) => visible_ascii(v)
            && v.len() >= encode_utf8("application/grpc"@).len()
            && v.take(encode_utf8("application/grpc"@).len() as int) == encode_utf8("application/grpc"@),
        None => false,
    }
}

pub open spec fn protocol_of(h: Seq<(Seq<char>, Seq<u8>)>) -> Seq<char> {
    if is_grpc(h) {
        "grpc"@
    } else {
        "http"@
    }
}

/// The elapsed milliseconds from `start` to `now`, kept within 0 and the
/// largest `i64`.
pub open spec fn elapsed(start: i64, now: i64) -> i64 {
    if now <= start {
        0
    } else if now - start > i64::MAX {
        i64::MAX
    } else {
        (now - start) as i64
    }
}

impl ExchangeRecord {
    /// No response has been recorded yet.
    pub open spec fn awaiting_response(&self) -> bool {
        &&& self.response_status == 0
        &&& self.response_headers@.len() == 0
        &&& self.response_body is None
        &&& self.duration == 0
    }

    /// The record once `u` is stored into it: the request side kept, the
    /// response side taken from the update.
    pub open spec fn completed(self, u: ResponseUpdate) -> ExchangeRecord {
        ExchangeRecord {
            response_status: u.response_status,
            response_headers: u.response_headers,
            response_body: u.response_body,
            duration: u.duration,
            ..self
        }
    }

    /// Stores a response into the record.
    pub fn complete(&mut self, u: ResponseUpdate)
        ensures
            *final(self) == old(self).completed(u),
    {
        self.response_status = u.response_status;
        self.response_headers = u.response_headers;
        self.response_body = u.response_body;
        self.duration = u.duration;
    }
}

/// What capturing `req` owes, given the id and the time it was given.
pub open spec fn request_captured(
    rules: Seq<RewriteRule>,
    req: InterceptedRequest,
    id: Seq<char>,
    now: i64,
    r: CapturedRequest,
) -> bool {
    &&& r.request.method@ == req.method@
    &&& r.request.url@ == rewritten_url(rules, req.url@)
    &&& r.request.headers@ == headers_after(rules, "request"@, req.headers@)
    &&& r.request.body@ == body_after(rules, "request"@, req.body@)
    &&& r.record.id@ == id
    &&& r.record.method@ == req.method@
    &&& r.record.url@ == r.request.url@
    &&& r.record.protocol@ == protocol_of(r.request.headers@)
    &&& opt_bytes(r.record.request_body) == stored_body(r.request.body@)
    &&& r.record.awaiting_response()
    &&& r.record.timestamp == now
    &&& r.event.id@ == id
    &&& r.event.method@ == req.method@
    &&& r.event.url@ == r.request.url@
    &&& r.event.status is None
    &&& r.event.phase@ == "request"@
}

/// What capturing `res` owes, given the pending request it is matched with,
/// if any, and the time.
pub open spec fn response_captured(
    rules: Seq<RewriteRule>,
    res: InterceptedResponse,
    waiting: Option<(Seq<char>, i64)>,
    now: i64,
    r: CapturedResponse,
) -> bool {
    &&& r.response.status == res.status
    &&& r.response.headers@ == headers_after(rules, "response"@, res.headers@)
    &&& r.response.body@ == body_after(rules, "response"@, res.body@)
    &&& match waiting {
        None => r.update is None && r.event is None,
        Some(w) => {
            &&& r.update matches Some(u)
            &&& u.id@ == w.0
            &&& u.response_status == res.status as i32
            &&& opt_bytes(u.response_body) == stored_body(r.response.body@)
            &&& u.duration == elapsed(w.1, now)
            &&& r.event matches Some(e)
            &&& e.id@ == w.0
            &&& e.method@.len() == 0
            &&& e.url@.len() == 0
            &&& e.status == Some(res.status as i32)
            &&& e.phase@ == "response"@
        },
    }
}

/// With nothing else in flight, a captured request followed by a captured
/// response make one exchange: the response is matched with that request,
/// nothing stays pending, the stored record goes from an empty response side
/// to the response's status, body and duration, and one request event then
/// one response event are published for its id.
pub proof fn lemma_single_exchange_completes(
    rules: Seq<RewriteRule>,
    req: InterceptedRequest,
    res: InterceptedResponse,
    id: Seq<char>,
    start: i64,
    now: i64,
    pending_before: Seq<(Seq<char>, i64)>,
    pending_between: Seq<(Seq<char>, i64)>,
    pending_after: Seq<(Seq<char>, i64)>,
    captured: CapturedRequest,
    answered: CapturedResponse,
)
    requires
        pending_before.len() == 0,
        request_captured(rules, req, id, start, captured),
        pending_between == pending_before.push((id, start)),
        pending_between.len() > 0 ==> pending_after == pending_between.drop_first()
            && response_captured(rules, res, Some(pending_between[0]), now, answered),
    ensures
        pending_after.len() == 0,
        captured.record.awaiting_response(),
        captured.record.id@ == id,
        captured.event.id@ == id,
        captured.event.phase@ == "request"@,
        answered.update matches Some(u) && u.id@ == id && ({
            let done = captured.record.completed(u);
            &&& done.id == captured.record.id
            &&& done.url == captured.record.url
            &&& done.request_body == captured.record.request_body
            &&& done.response_status == res.status as i32
            &&& opt_bytes(done.response_body) == stored_body(answered.response.body@)
            &&& done.duration == elapsed(start, now)
        }),
        answered.event matches Some(e) && e.id@ == id && e.phase@ == "response"@,
{
    assert(pending_between[0] == (id, start));
}

/// The first value under `name`, scanning from the front.
fn find_first_value(h: &Headers, name: &String) -> (r: Option<Vec<u8>>)
    ensures
        opt_bytes(r) == first_value(h@, name@),
{
    let mut i: usize = 0;
    assert(h@.subrange(0, h@.len() as int) =~= h@);
    while i < h.entries.len()
        invariant
            i <= h.entries@.len(),
            h@.len() == h.entries@.len(),
            first_value(h@, name@) == first_value(h@.subrange(i as int, h@.len() as int), name@),
        decreases h.entries@.len() - i,
    {
        let ghost rest = h@.subrange(i as int, h@.len() as int);
        proof {
            assert(rest[0] == h@[i as int]);
            assert(rest.subrange(1, rest.len() as int) =~= h@.subrange(i + 1, h@.len() as int));
        }
        if h.entries[i].0 == *name {
            return Some(h.entries[i].1.clone());
        }
        i = i + 1;
    }
    None
}

fn is_visible_ascii(v: &Vec<u8>) -> (r: bool)
    ensures
        r == visible_ascii(v@),
{
    let mut i: usize = 0;
    while i < v.len()
        invariant
            i <= v@.len(),
            forall|k: int| 0 <= k < i ==> (32 <= #[trigger] v@[k] < 127 || v@[k] == 9),
        decreases v@.len() - i,
    {
        let b = v[i];
        if !(32 <= b && b < 127 || b == 9) {
            return false;
        }
        i = i + 1;
    }
    true
}

/// Whether the content type marks the request as gRPC.
fn classify_grpc(h: &Headers) -> (r: bool)
    ensures
        r == is_grpc(h@),
{
    let name = "content-type".to_string();
    assert(name@ == "content-type"@);
    match find_first_value(h, &name) {
        None => false,
        Some(v) => {
            if !is_visible_ascii(&v) {
                return false;
            }
            let p = "application/grpc".as_bytes();
            assert(p@ == encode_utf8("application/grpc"@));
            if v.len() < p.len() {
                return false;
            }
            let mut k: usize = 0;
            while k < p.len()
                invariant
                    k <= p@.len(),
                    p@.len() <= v@.len(),
                    forall|j: int| 0 <= j < k ==> v@[j] == p@[j],
                    first_value(h@, "content-type"@) == Some(v@),
                    visible_ascii(v@),
                    p@ == encode_utf8("application/grpc"@),
                decreases p@.len() - k,
            {
                if v[k] != p[k] {
                    assert(v@.take(p@.len() as int)[k as int] != p@[k as int]);
                    assert(v@.take(p@.len() as int) != p@);
                    return false;
                }
                k = k + 1;
            }
            assert(v@.take(p@.len() as int) =~= p@);
            true
        },
    }
}

/// A field value as text, or the empty text where it is not visible ASCII.
fn header_value_text(v: &Vec<u8>) -> (r: String)
    ensures
        r@ == value_text(v@),
{
    if is_visible_ascii(v) {
        if let Some(t) = decode_utf8_text(v) {
            return t;
        }
    }
    String::new()
}

/// The fields as (name, text) pairs, in order.
fn header_text_pairs(h: &Headers) -> (r: Vec<(String, String)>)
    ensures
        r@.len() == h@.len(),
        forall|i: int| 0 <= i < h@.len() ==> (#[trigger] r@[i]).0@ == h@[i].0 && r@[i].1@ == value_text(h@[i].1),
{
    let mut out: Vec<(String, String)> = Vec::new();
    let mut i: usize = 0;
    while i < h.entries.len()
        invariant
            i <= h.entries@.len(),
            h@.len() == h.entries@.len(),
            out@.len() == i,
            forall|k: int| 0 <= k < i ==> (#[trigger] out@[k]).0@ == h@[k].0 && out@[k].1@ == value_text(h@[k].1),
        decreases h.entries@.len() - i,
    {
        let name = h.entries[i].0.clone();
        let text = header_value_text(&h.entries[i].1);
        out.push((name, text));
        i = i + 1;
    }
    out
}

/// The stored form of a body.
fn store_body(b: &Vec<u8>) -> (r: Option<Vec<u8>>)
    ensures
        opt_bytes(r) == stored_body(b@),
{
    if b.len() == 0 {
        None
    } else {
        Some(b.clone())
    }
}

fn elapsed_millis(start: i64, now: i64) -> (r: i64)
    ensures
        r == elapsed(start, now),
{
    if now <= start {
        0
    } else {
        let d: i128 = now as i128 - start as i128;
        if d > i64::MAX as i128 {
            i64::MAX
        } else {
            d as i64
        }
    }
}

/// The pipeline's own state: the requests still waiting for a response,
/// oldest first, each with the time it was captured.
pub struct ProxyHandler {
    pending_ids: VecDeque<(String, i64)>,
}

impl ProxyHandler {
    pub closed spec fn pending(&self) -> Seq<(Seq<char>, i64)> {
        self.pending_ids@.map_values(|p: (String, i64)| (p.0@, p.1))
    }

    /// A pipeline with nothing pending.
    pub fn new() -> (r: Self)
        ensures
            r.pending() == Seq::<(Seq<char>, i64)>::empty(),
    {
        let r = ProxyHandler { pending_ids: VecDeque::new() };
        assert(r.pending() =~= Seq::<(Seq<char>, i64)>::empty());
        r
    }

    /// Captures a request under the given id at the given time: rewrites its
    /// URL, then its headers, then its body; classifies its protocol; builds
    /// the record and the event; and queues the id for the next response.
    pub fn capture_request(&mut self, rules: &RewriteManager, req: InterceptedRequest, id: String, now: i64) -> (r:
        CapturedRequest)
        ensures
            request_captured(rules.rules(), req, id@, now, r),
            final(self).pending() == old(self).pending().push((id@, now)),
    {
        let ghost req0 = req;
        let InterceptedRequest { method, url, headers, body } = req;
        let rewritten = rules.apply_request_url(url.as_str());
        let new_url = match parse_uri(rewritten.as_str()) {
            Some(u) => u,
            None => url,
        };
        let mut headers = headers;
        rules.apply_request_headers(&mut headers);
        let protocol = if classify_grpc(&headers) {
            "grpc".to_string()
        } else {
            "http".to_string()
        };
        let pairs = header_text_pairs(&headers);
        let json = headers_json(&pairs);
        let body = rules.apply_request_body(body);
        let stored = store_body(&body);

        let ghost before = self.pending_ids@;
        self.pending_ids.push_back((id.clone(), now));
        proof {
            assert(self.pending_ids@.map_values(|p: (String, i64)| (p.0@, p.1)) =~= before.map_values(
                |p: (String, i64)| (p.0@, p.1),
            ).push((id@, now)));
        }

        let record = ExchangeRecord {
            id: id.clone(),
            method: method.clone(),
            url: new_url.clone(),
            protocol,
            request_headers: json,
            request_body: stored,
            response_status: 0,
            response_headers: String::new(),
            response_body: None,
            duration: 0,
            timestamp: now,
        };
        let event = ProxyEventPayload {
            id,
            method: method.clone(),
            url: new_url.clone(),
            status: None,
            phase: "request".to_string(),
        };
        let request = InterceptedRequest { method, url: new_url, headers, body };
        CapturedRequest { request, record, event }
    }

    /// Captures a request under a fresh id at the current time.
    pub fn handle_request(&mut self, rules: &RewriteManager, req: InterceptedRequest) -> (r: CapturedRequest)
        ensures
            r.record.id@.len() == 36,
            request_captured(rules.rules(), req, r.record.id@, r.record.timestamp, r),
            final(self).pending() == old(self).pending().push((r.record.id@, r.record.timestamp)),
    {
        let id = new_exchange_id();
        let now = now_millis();
        self.capture_request(rules, req, id, now)
    }

    /// Captures a response at the given time: rewrites its headers, then its
    /// body, and matches it with the oldest pending request, if any.
    pub fn capture_response(&mut self, rules: &RewriteManager, res: InterceptedResponse, now: i64) -> (r:
        CapturedResponse)
        ensures
            old(self).pending().len() == 0 ==> final(self).pending() == old(self).pending()
                && response_captured(rules.rules(), res, None, now, r),
            old(self).pending().len() > 0 ==> final(self).pending() == old(self).pending().drop_first()
                && response_captured(rules.rules(), res, Some(old(self).pending()[0]), now, r),
    {
        let InterceptedResponse { status, headers, body } = res;
        let mut headers = headers;
        rules.apply_response_headers(&mut headers);
        let body = rules.apply_response_body(body);

        let ghost before = self.pending_ids@;
        let waiting = self.pending_ids.pop_front();
        proof {
            if before.len() > 0 {
                assert(self.pending_ids@.map_values(|p: (String, i64)| (p.0@, p.1)) =~= before.map_values(
                    |p: (String, i64)| (p.0@, p.1),
                ).drop_first());
            }
        }

        let (update, event) = match waiting {
            Some((id, start)) => {
                let pairs = header_text_pairs(&headers);
                let json = headers_json(&pairs);
                let code = status as i32;
                let update = ResponseUpdate {
                    id: id.clone(),
                    response_status: code,
                    response_headers: json,
                    response_body: store_body(&body),
                    duration: elapsed_millis(start, now),
                };
                let event = ProxyEventPayload {
                    id,
                    method: String::new(),
                    url: String::new(),
                    status: Some(code),
                    phase: "response".to_string(),
                };
                (Some(update), Some(event))
            },
            None => (None, None),
        };
        let response = InterceptedResponse { status, headers, body };
        CapturedResponse { response, update, event }
    }

    /// Captures a response at the current time.
    pub fn handle_response(&mut self, rules: &RewriteManager, res: InterceptedResponse) -> (r: CapturedResponse)
        ensures
            old(self).pending().len() == 0 ==> final(self).pending() == old(self).pending()
                && r.update is None && r.event is None,
            old(self).pending().len() > 0 ==> final(self).pending() == old(self).pending().drop_first()
                && exists|now: i64| response_captured(rules.rules(), res, Some(old(self).pending()[0]), now, r),
    {
        let now = now_millis();
        self.capture_response(rules, res, now)
    }
}

} // verus!
