//! The capture handler: what is made of an inbound request, and the state
//! machine that takes it from slug validation to the reply.

use vstd::prelude::*;
use vstd::string::*;
use vstd::utf8::*;
use crate::buffer::buffer_key;
use crate::control_plane::ConvexError;
use crate::endpoint_cache::endpoint_key;
use crate::dedup::{dedup_key, dedup_key_text};
use crate::quota::{quota_key, quota_key_text, QuotaResult};
use crate::slug::{is_valid_slug, valid_slug_bytes};
use crate::string_map::{pairs_text, with_entry, Entries, StringMap};
use crate::text::{
    chars_of, contains_byte, find_char, lossy_string, lower_text, position_of_char, str_eq,
    string_of, to_ascii_lowercase, trim_bounds, trim_text, utf8_lossy,
};
use crate::types::{BufferedRequest, BufferedRequestView, EndpointInfo, MockResponse};

verus! {

/// The longest header name, in bytes, that a mock reply carries.
pub const MAX_HEADER_KEY_LEN: usize = 256;

/// The longest header value, in bytes, that a mock reply carries.
pub const MAX_HEADER_VALUE_LEN: usize = 8192;

/// The longest client address, in bytes, that is stored.
pub const MAX_IP_LEN: usize = 45;

/// One header of an inbound request. The value is `None` where it is no
/// text.
#[derive(Clone, Debug)]
pub struct HeaderLine {
    pub name: String,
    pub value: Option<String>,
}

/// An inbound request addressed to a slug.
#[derive(Clone, Debug)]
pub struct CaptureRequest {
    pub method: String,
    pub slug: String,
    /// What follows the slug in the address; empty where nothing does.
    pub path: String,
    pub headers: Vec<HeaderLine>,
    pub query: StringMap,
    pub body: Vec<u8>,
}

/// The path that is stored for a request: `/` for none, and a leading `/` in
/// any case.
pub open spec fn normalized_path(path: Seq<char>) -> Seq<char> {
    if path.len() == 0 {
        seq!['/']
    } else if path[0] == '/' {
        path
    } else {
        seq!['/'] + path
    }
}

/// Normalizes the part of the address after the slug.
pub fn normalize_path(path: &str) -> (r: String)
    ensures
        r@ == normalized_path(path@),
{
    let chars = chars_of(path);
    let mut r = String::new();
    if chars.len() == 0 || chars[0] != '/' {
        crate::text::push_char(&mut r, '/');
    }
    r.append(path);
    assert(r@ =~= normalized_path(path@));
    r
}

/// The value of the first header called `name`, where that value is text.
/// `name` is in lower case; the case of the headers' names does not matter.
pub open spec fn header_text(headers: Seq<HeaderLine>, name: Seq<char>) -> Option<Seq<char>>
    decreases headers.len(),
{
    if headers.len() == 0 {
        None
    } else if lower_text(headers[0].name@) == name {
        match headers[0].value {
            Some(v) => Some(v@),
            None => None,
        }
    } else {
        header_text(headers.drop_first(), name)
    }
}

/// The value of the first header called `name`, where that value is text.
pub fn header_value<'a>(headers: &'a Vec<HeaderLine>, name: &str) -> (r: Option<&'a str>)
    ensures
        match r {
            Some(v) => header_text(headers@, name@) == Some(v@),
            None => header_text(headers@, name@) is None,
        },
{
    let n: usize = headers.len();
    let mut i: usize = 0;
    assert(headers@.skip(0) =~= headers@);
    while i < n
        invariant
            n == headers@.len(),
            i <= n,
            header_text(headers@, name@) == header_text(headers@.skip(i as int), name@),
        decreases n - i,
    {
        let lowered = to_ascii_lowercase(headers[i].name.as_str());
        assert(headers@.skip(i as int)[0] == headers@[i as int]);
        if str_eq(lowered.as_str(), name) {
            return match &headers[i].value {
                Some(v) => Some(v.as_str()),
                None => None,
            };
        }
        assert(headers@.skip(i as int).drop_first() =~= headers@.skip(i + 1));
        i += 1;
    }
    None
}

/// A byte that an IPv4 or IPv6 address may hold: a hexadecimal digit, `.`,
/// `:`, `[`, `]` or `%`.
pub open spec fn is_ip_byte(b: u8) -> bool {
    ||| 0x30 <= b <= 0x39
    ||| 0x41 <= b <= 0x46
    ||| 0x61 <= b <= 0x66
    ||| b == 0x2e
    ||| b == 0x3a
    ||| b == 0x5b
    ||| b == 0x5d
    ||| b == 0x25
}

/// At most 45 bytes, each of which an address may hold.
pub open spec fn ip_like(bytes: Seq<u8>) -> bool {
    &&& bytes.len() <= 45
    &&& forall|i: int| 0 <= i < bytes.len() ==> is_ip_byte(#[trigger] bytes[i])
}

/// An address as it is stored: itself where it looks like one, else empty.
pub open spec fn sanitized_ip(raw: Seq<char>) -> Seq<char> {
    if ip_like(encode_utf8(raw)) {
        raw
    } else {
        Seq::empty()
    }
}

fn ip_byte(b: u8) -> (r: bool)
    ensures
        r == is_ip_byte(b),
{
    (0x30 <= b && b <= 0x39) || (0x41 <= b && b <= 0x46) || (0x61 <= b && b <= 0x66) || b == 0x2e
        || b == 0x3a || b == 0x5b || b == 0x5d || b == 0x25
}

/// Keeps an address only where it looks like one, so that nothing else is
/// stored in its place.
pub fn sanitize_ip(raw: &str) -> (r: String)
    ensures
        r@ == sanitized_ip(raw@),
{
    let bytes = raw.as_bytes();
    let n: usize = bytes.len();
    if n > MAX_IP_LEN {
        return String::new();
    }
    let mut i: usize = 0;
    while i < n
        invariant
            n == bytes@.len(),
            bytes@ == encode_utf8(raw@),
            n <= 45,
            i <= n,
            forall|j: int| 0 <= j < i ==> is_ip_byte(#[trigger] bytes@[j]),
        decreases n - i,
    {
        if !ip_byte(bytes[i]) {
            return String::new();
        }
        i += 1;
    }
    raw.to_owned()
}

/// The first entry of an `X-Forwarded-For` value, without the white space
/// around it.
pub open spec fn forwarded_client(value: Seq<char>) -> Seq<char> {
    trim_text(value.take(position_of_char(value, ',')))
}

/// The client's address as the proxies report it, before it is sanitized:
/// `cf-connecting-ip`, else `x-real-ip`, else the first entry of
/// `x-forwarded-for`.
pub open spec fn reported_ip(headers: Seq<HeaderLine>) -> Option<Seq<char>> {
    match header_text(headers, "cf-connecting-ip"@) {
        Some(ip) => Some(ip),
        None => match header_text(headers, "x-real-ip"@) {
            Some(ip) => Some(ip),
            None => match header_text(headers, "x-forwarded-for"@) {
                Some(value) => Some(forwarded_client(value)),
                None => None,
            },
        },
    }
}

/// The client's address as it is stored with a request.
pub open spec fn real_ip_text(headers: Seq<HeaderLine>) -> Seq<char> {
    match reported_ip(headers) {
        Some(raw) => sanitized_ip(raw),
        None => Seq::empty(),
    }
}

/// The client's address as it enters the dedup fingerprint: the value of
/// `cf-connecting-ip` as it came, else the stored address.
pub open spec fn client_ip_text(headers: Seq<HeaderLine>) -> Seq<char> {
    match header_text(headers, "cf-connecting-ip"@) {
        Some(ip) => ip,
        None => real_ip_text(headers),
    }
}

/// The client's address for storage, taken from the proxies' headers and
/// sanitized; empty where none is reported or it does not look like one.
pub fn real_ip(headers: &Vec<HeaderLine>) -> (ip: String)
    ensures
        ip@ == real_ip_text(headers@),
{
    match header_value(headers, "cf-connecting-ip") {
        Some(ip) => sanitize_ip(ip),
        None => match header_value(headers, "x-real-ip") {
            Some(ip) => sanitize_ip(ip),
            None => match header_value(headers, "x-forwarded-for") {
                Some(value) => {
                    let chars = chars_of(value);
                    let comma = find_char(&chars, ',');
                    let (start, end) = trim_bounds(&chars, 0, comma);
                    let first = string_of(&chars, start, end);
                    assert(chars@.subrange(0, comma as int) =~= value@.take(comma as int));
                    sanitize_ip(first.as_str())
                },
                None => String::new(),
            },
        },
    }
}

/// The client's address for the dedup fingerprint.
pub fn cf_connecting_ip(headers: &Vec<HeaderLine>) -> (ip: String)
    ensures
        ip@ == client_ip_text(headers@),
{
    match header_value(headers, "cf-connecting-ip") {
        Some(ip) => ip.to_owned(),
        None => real_ip(headers),
    }
}

/// The headers that the gateway's own proxies add, which are not stored.
pub open spec fn is_proxy_header(name: Seq<char>) -> bool {
    ||| name == "accept-encoding"@
    ||| name == "cdn-loop"@
    ||| name == "cf-connecting-ip"@
    ||| name == "cf-ipcountry"@
    ||| name == "cf-ray"@
    ||| name == "cf-visitor"@
    ||| name == "via"@
    ||| name == "x-forwarded-for"@
    ||| name == "x-forwarded-host"@
    ||| name == "x-forwarded-proto"@
    ||| name == "x-real-ip"@
    ||| name == "true-client-ip"@
}

fn proxy_header(name: &str) -> (r: bool)
    ensures
        r == is_proxy_header(name@),
{
    str_eq(name, "accept-encoding") || str_eq(name, "cdn-loop") || str_eq(name, "cf-connecting-ip")
        || str_eq(name, "cf-ipcountry") || str_eq(name, "cf-ray") || str_eq(name, "cf-visitor")
        || str_eq(name, "via") || str_eq(name, "x-forwarded-for") || str_eq(
        name,
        "x-forwarded-host",
    ) || str_eq(name, "x-forwarded-proto") || str_eq(name, "x-real-ip") || str_eq(
        name,
        "true-client-ip",
    )
}

/// The headers that are stored with a request: names in lower case, without
/// the proxies' headers and without values that are no text; of two headers
/// with one name the later value stays.
pub open spec fn captured_headers(headers: Seq<HeaderLine>) -> Entries
    decreases headers.len(),
{
    if headers.len() == 0 {
        Seq::empty()
    } else {
        let rest = captured_headers(headers.drop_last());
        let line = headers.last();
        let name = lower_text(line.name@);
        match line.value {
            Some(v) => if is_proxy_header(name) {
                rest
            } else {
                with_entry(rest, name, v@)
            },
            None => rest,
        }
    }
}

/// Picks the headers that are stored with a request.
pub fn capture_headers(headers: &Vec<HeaderLine>) -> (m: StringMap)
    ensures
        m@ == captured_headers(headers@),
{
    let mut m = StringMap::new();
    let n: usize = headers.len();
    let mut i: usize = 0;
    assert(headers@.take(0) =~= Seq::<HeaderLine>::empty());
    while i < n
        invariant
            n == headers@.len(),
            i <= n,
            m@ == captured_headers(headers@.take(i as int)),
        decreases n - i,
    {
        let name = to_ascii_lowercase(headers[i].name.as_str());
        proof {
            assert(headers@.take(i + 1).drop_last() =~= headers@.take(i as int));
            assert(headers@.take(i + 1).last() == headers@[i as int]);
        }
        if !proxy_header(name.as_str()) {
            match &headers[i].value {
                Some(v) => {
                    m.insert(name, v.clone());
                },
                None => {},
            }
        }
        i += 1;
    }
    assert(headers@.take(n as int) =~= headers@);
    m
}

/// The request as it goes into the buffer at `now`.
pub open spec fn buffered_view(req: CaptureRequest, now: i64) -> BufferedRequestView {
    BufferedRequestView {
        method: req.method@,
        path: normalized_path(req.path@),
        headers: captured_headers(req.headers@),
        body: utf8_lossy(req.body@),
        query_params: req.query@,
        ip: real_ip_text(req.headers@),
        received_at: now,
    }
}

/// Makes the buffered form of a request received at `now`, in epoch
/// milliseconds.
pub fn buffer_request(req: &CaptureRequest, now: i64) -> (b: BufferedRequest)
    ensures
        b@ == buffered_view(*req, now),
{
    BufferedRequest {
        method: req.method.clone(),
        path: normalize_path(req.path.as_str()),
        headers: capture_headers(&req.headers),
        body: lossy_string(req.body.as_slice()),
        query_params: req.query.clone(),
        ip: real_ip(&req.headers),
        received_at: now,
    }
}

/// The reply that is sent in place of `200 OK` for an endpoint with a mock
/// response.
#[derive(Clone, Debug)]
pub struct MockReply {
    pub status: u16,
    pub headers: Vec<(String, String)>,
    pub body: String,
}

/// A `MockReply` as plain values.
pub struct MockReplyView {
    pub status: u16,
    pub headers: Entries,
    pub body: Seq<char>,
}

impl View for MockReply {
    type V = MockReplyView;

    open spec fn view(&self) -> MockReplyView {
        MockReplyView { status: self.status, headers: pairs_text(self.headers@), body: self.body@ }
    }
}

/// The status of a mock reply: the configured one where it is a status code,
/// from 100 to 999, else 200.
pub open spec fn reply_status(status: i32) -> u16 {
    if 100 <= status <= 999 {
        status as u16
    } else {
        200
    }
}

/// The headers that no mock reply may set.
pub open spec fn is_blocked_header(name: Seq<char>) -> bool {
    ||| name == "set-cookie"@
    ||| name == "strict-transport-security"@
    ||| name == "content-security-policy"@
    ||| name == "x-frame-options"@
}

/// A configured header goes into the reply unless its name has more than 256
/// bytes, its value more than 8192, its name is blocked in any case of its
/// letters, or either holds a carriage return or a line feed.
pub open spec fn forwardable(key: Seq<char>, value: Seq<char>) -> bool {
    &&& encode_utf8(key).len() <= 256
    &&& encode_utf8(value).len() <= 8192
    &&& !is_blocked_header(lower_text(key))
    &&& !encode_utf8(key).contains(0x0d)
    &&& !encode_utf8(key).contains(0x0a)
    &&& !encode_utf8(value).contains(0x0d)
    &&& !encode_utf8(value).contains(0x0a)
}

/// The configured headers that go into the reply, in their order.
pub open spec fn reply_headers(entries: Entries) -> Entries
    decreases entries.len(),
{
    if entries.len() == 0 {
        Seq::empty()
    } else {
        let rest = reply_headers(entries.drop_last());
        if forwardable(entries.last().0, entries.last().1) {
            rest.push(entries.last())
        } else {
            rest
        }
    }
}

/// The reply for a mock response.
pub open spec fn mock_reply_view(mock: MockResponse) -> MockReplyView {
    MockReplyView {
        status: reply_status(mock.status),
        headers: reply_headers(mock.headers@),
        body: mock.body@,
    }
}

fn blocked_header(name: &str) -> (r: bool)
    ensures
        r == is_blocked_header(name@),
{
    str_eq(name, "set-cookie") || str_eq(name, "strict-transport-security") || str_eq(
        name,
        "content-security-policy",
    ) || str_eq(name, "x-frame-options")
}

fn may_forward(key: &str, value: &str) -> (r: bool)
    ensures
        r == forwardable(key@, value@),
{
    if key.as_bytes().len() > MAX_HEADER_KEY_LEN || value.as_bytes().len() > MAX_HEADER_VALUE_LEN {
        return false;
    }
    let lowered = to_ascii_lowercase(key);
    if blocked_header(lowered.as_str()) {
        return false;
    }
    let key_cr = contains_byte(key, 0x0d);
    let key_lf = contains_byte(key, 0x0a);
    let value_cr = contains_byte(value, 0x0d);
    let value_lf = contains_byte(value, 0x0a);
    !(key_cr || key_lf || value_cr || value_lf)
}

/// Builds the reply for a mock response: the status made valid, the headers
/// filtered, the body as it is.
pub fn build_mock_response(mock: &MockResponse) -> (reply: MockReply)
    ensures
        reply@ == mock_reply_view(*mock),
{
    let status: u16 = if 100 <= mock.status && mock.status <= 999 {
        mock.status as u16
    } else {
        200
    };
    let mut headers: Vec<(String, String)> = Vec::new();
    let n: usize = mock.headers.len();
    let mut i: usize = 0;
    assert(mock.headers@.take(0) =~= Entries::empty());
    assert(pairs_text(headers@) =~= Entries::empty());
    while i < n
        invariant
            n == mock.headers@.len(),
            i <= n,
            pairs_text(headers@) == reply_headers(mock.headers@.take(i as int)),
        decreases n - i,
    {
        let key = mock.headers.key_at(i);
        let value = mock.headers.value_at(i);
        proof {
            assert(mock.headers@.take(i + 1).drop_last() =~= mock.headers@.take(i as int));
            assert(mock.headers@.take(i + 1).last() == mock.headers@[i as int]);
        }
        if may_forward(key, value) {
            let ghost before = pairs_text(headers@);
            headers.push((key.to_owned(), value.to_owned()));
            assert(pairs_text(headers@) =~= before.push(mock.headers@[i as int]));
        }
        i += 1;
    }
    assert(mock.headers@.take(n as int) =~= mock.headers@);
    MockReply { status, headers, body: mock.body.clone() }
}

/// How a capture ends.
#[derive(Clone, Debug)]
pub enum CaptureOutcome {
    /// 400: the slug is malformed.
    InvalidSlug,
    /// 404: no such endpoint.
    NotFound,
    /// 410: the endpoint has expired.
    Expired,
    /// 429: the owner's quota is used up.
    QuotaExceeded,
    /// The endpoint's mock reply, or `200 OK` where it has none.
    Accepted(Option<MockReply>),
}

/// A `CaptureOutcome` as plain values.
pub enum OutcomeView {
    InvalidSlug,
    NotFound,
    Expired,
    QuotaExceeded,
    Accepted(Option<MockReplyView>),
}

impl View for CaptureOutcome {
    type V = OutcomeView;

    open spec fn view(&self) -> OutcomeView {
        match self {
            CaptureOutcome::InvalidSlug => OutcomeView::InvalidSlug,
            CaptureOutcome::NotFound => OutcomeView::NotFound,
            CaptureOutcome::Expired => OutcomeView::Expired,
            CaptureOutcome::QuotaExceeded => OutcomeView::QuotaExceeded,
            CaptureOutcome::Accepted(m) => OutcomeView::Accepted(
                match m {
                    Some(r) => Some(r@),
                    None => None,
                },
            ),
        }
    }
}

impl CaptureOutcome {
    /// The status of the reply.
    pub fn status(&self) -> (code: u16)
        ensures
            code == match self@ {
                OutcomeView::InvalidSlug => 400u16,
                OutcomeView::NotFound => 404u16,
                OutcomeView::Expired => 410u16,
                OutcomeView::QuotaExceeded => 429u16,
                OutcomeView::Accepted(Some(r)) => r.status,
                OutcomeView::Accepted(None) => 200u16,
            },
    {
        match self {
            CaptureOutcome::InvalidSlug => 400,
            CaptureOutcome::NotFound => 404,
            CaptureOutcome::Expired => 410,
            CaptureOutcome::QuotaExceeded => 429,
            CaptureOutcome::Accepted(Some(r)) => r.status,
            CaptureOutcome::Accepted(None) => 200,
        }
    }

    /// The value of `error` in the reply's JSON body, for a refusal.
    pub fn error_code(&self) -> (code: Option<&'static str>)
        ensures
            match self@ {
                OutcomeView::InvalidSlug => code matches Some(c) && c@ == "invalid_slug"@,
                OutcomeView::NotFound => code matches Some(c) && c@ == "not_found"@,
                OutcomeView::Expired => code matches Some(c) && c@ == "expired"@,
                OutcomeView::QuotaExceeded => code matches Some(c) && c@ == "quota_exceeded"@,
                OutcomeView::Accepted(_) => code is None,
            },
    {
        match self {
            CaptureOutcome::InvalidSlug => Some("invalid_slug"),
            CaptureOutcome::NotFound => Some("not_found"),
            CaptureOutcome::Expired => Some("expired"),
            CaptureOutcome::QuotaExceeded => Some("quota_exceeded"),
            CaptureOutcome::Accepted(_) => None,
        }
    }
}

/// Where the capture of one request stands: what it waits for.
#[derive(Debug)]
#[allow(inconsistent_fields)]
pub enum CaptureState {
    /// The endpoint cache's answer.
    Lookup,
    /// The control plane's answer to the blocking endpoint fetch.
    Fetch,
    /// The quota script's answer; `warmed` once the quota has been fetched
    /// for this request.
    Quota { endpoint: EndpointInfo, warmed: bool },
    /// The end of the blocking quota fetch.
    QuotaFetch { endpoint: EndpointInfo },
    /// The dedup index's answer.
    Dedup { endpoint: EndpointInfo },
    /// The end of the push; `endpoint` is `None` for a request that is
    /// buffered though the control plane could not be asked.
    Buffer { endpoint: Option<EndpointInfo> },
    /// Nothing: the reply has been given.
    Done,
}

/// What the handler's surroundings report back.
#[derive(Debug)]
pub enum CaptureEvent {
    /// The endpoint cache's answer.
    Cached(Option<EndpointInfo>),
    /// The outcome of the blocking endpoint fetch.
    Fetched(Result<Option<EndpointInfo>, ConvexError>),
    /// The quota script's answer.
    QuotaChecked(QuotaResult),
    /// The blocking quota fetch has ended, well or not.
    QuotaFetched,
    /// The dedup index's answer: `true` for a request seen for the first time.
    DedupChecked(bool),
    /// The push has ended, well or not.
    Buffered,
}

/// What the handler's surroundings are to do next.
#[derive(Debug)]
pub enum CaptureAction {
    /// Read the endpoint cache under `key`.
    LookupEndpoint { key: String },
    /// Fetch the endpoint from the control plane and wait for it; start a
    /// quota fetch for the slug in the background.
    FetchEndpoint,
    /// Run the quota script on `key`.
    CheckQuota { key: String },
    /// Fetch the quota from the control plane and wait for it.
    FetchQuota,
    /// Set `key` in the dedup index if it is absent.
    CheckDedup { key: String },
    /// Push `request` onto the list under `key` and add the slug to the
    /// active set, in one pipeline.
    Buffer { key: String, request: BufferedRequest },
    /// Reply.
    Reply(CaptureOutcome),
    /// The event does not answer what was asked: nothing is done.
    Halt,
}

/// A `CaptureAction` as plain values.
pub enum CaptureActionView {
    LookupEndpoint { key: Seq<char> },
    FetchEndpoint,
    CheckQuota { key: Seq<char> },
    FetchQuota,
    CheckDedup { key: Seq<char> },
    Buffer { key: Seq<char>, request: BufferedRequestView },
    Reply(OutcomeView),
    Halt,
}

impl View for CaptureAction {
    type V = CaptureActionView;

    open spec fn view(&self) -> CaptureActionView {
        match self {
            CaptureAction::LookupEndpoint { key } => CaptureActionView::LookupEndpoint {
                key: key@,
            },
            CaptureAction::FetchEndpoint => CaptureActionView::FetchEndpoint,
            CaptureAction::CheckQuota { key } => CaptureActionView::CheckQuota { key: key@ },
            CaptureAction::FetchQuota => CaptureActionView::FetchQuota,
            CaptureAction::CheckDedup { key } => CaptureActionView::CheckDedup { key: key@ },
            CaptureAction::Buffer { key, request } => CaptureActionView::Buffer {
                key: key@,
                request: request@,
            },
            CaptureAction::Reply(o) => CaptureActionView::Reply(o@),
            CaptureAction::Halt => CaptureActionView::Halt,
        }
    }
}

/// The reply for an accepted request: the endpoint's mock reply, if it has
/// one.
pub open spec fn accepted(endpoint: Option<EndpointInfo>) -> OutcomeView {
    OutcomeView::Accepted(
        match endpoint {
            Some(ep) => match ep.mock_response {
                Some(mock) => Some(mock_reply_view(mock)),
                None => None,
            },
            None => None,
        },
    )
}

/// The key that the quota script is run on for an endpoint.
pub open spec fn quota_key_of(req: CaptureRequest, endpoint: EndpointInfo) -> Seq<char> {
    quota_key_text(
        req.slug@,
        match endpoint.user_id {
            Some(u) => Some(u@),
            None => None,
        },
    )
}

/// The key of a request in the dedup index.
pub open spec fn dedup_key_of(req: CaptureRequest) -> Seq<char> {
    dedup_key_text(
        req.slug@,
        req.method@,
        normalized_path(req.path@),
        req.body@,
        client_ip_text(req.headers@),
    )
}

/// The push of a request received at `now`.
pub open spec fn buffer_action(req: CaptureRequest, now: i64) -> CaptureActionView {
    CaptureActionView::Buffer { key: "buf:"@ + req.slug@, request: buffered_view(req, now) }
}

/// The first step: a malformed slug is refused, any other is looked up.
pub open spec fn begin_effect(req: CaptureRequest) -> (CaptureState, CaptureActionView) {
    if valid_slug_bytes(encode_utf8(req.slug@)) {
        (CaptureState::Lookup, CaptureActionView::LookupEndpoint { key: "ep:"@ + req.slug@ })
    } else {
        (CaptureState::Done, CaptureActionView::Reply(OutcomeView::InvalidSlug))
    }
}

/// What follows once the endpoint is known: an expired one is refused, for
/// any other the quota is checked.
pub open spec fn resolved_effect(req: CaptureRequest, endpoint: EndpointInfo, now: i64) -> (
    CaptureState,
    CaptureActionView,
) {
    if endpoint.expired_at(now as int) {
        (CaptureState::Done, CaptureActionView::Reply(OutcomeView::Expired))
    } else {
        (
            CaptureState::Quota { endpoint, warmed: false },
            CaptureActionView::CheckQuota { key: quota_key_of(req, endpoint) },
        )
    }
}

/// One step of a capture at `now`: the next state and what is to be done.
///
/// A cached `not_found` and an absent endpoint are refused. A failed endpoint
/// fetch lets the request in: it is buffered without a quota check, so that
/// an outage of the control plane drops no traffic. A quota that is not
/// cached is fetched once and checked again; if it is still not there, the
/// request is let in. A duplicate is not buffered, and gets the reply that it
/// would have got otherwise.
pub open spec fn capture_effect(
    state: CaptureState,
    event: CaptureEvent,
    req: CaptureRequest,
    now: i64,
) -> (CaptureState, CaptureActionView) {
    match (state, event) {
        (CaptureState::Lookup, CaptureEvent::Cached(Some(endpoint))) => if endpoint.error@
            == "not_found"@ {
            (CaptureState::Done, CaptureActionView::Reply(OutcomeView::NotFound))
        } else {
            resolved_effect(req, endpoint, now)
        },
        (CaptureState::Lookup, CaptureEvent::Cached(None)) => (
            CaptureState::Fetch,
            CaptureActionView::FetchEndpoint,
        ),
        (CaptureState::Fetch, CaptureEvent::Fetched(Ok(Some(endpoint)))) => resolved_effect(
            req,
            endpoint,
            now,
        ),
        (CaptureState::Fetch, CaptureEvent::Fetched(Ok(None))) => (
            CaptureState::Done,
            CaptureActionView::Reply(OutcomeView::NotFound),
        ),
        (CaptureState::Fetch, CaptureEvent::Fetched(Err(_))) => (
            CaptureState::Buffer { endpoint: None },
            buffer_action(req, now),
        ),
        (CaptureState::Quota { endpoint, warmed }, CaptureEvent::QuotaChecked(result)) => {
            match result {
                QuotaResult::Exceeded => (
                    CaptureState::Done,
                    CaptureActionView::Reply(OutcomeView::QuotaExceeded),
                ),
                QuotaResult::NotFound if !warmed => (
                    CaptureState::QuotaFetch { endpoint },
                    CaptureActionView::FetchQuota,
                ),
                _ => (
                    CaptureState::Dedup { endpoint },
                    CaptureActionView::CheckDedup { key: dedup_key_of(req) },
                ),
            }
        },
        (CaptureState::QuotaFetch { endpoint }, CaptureEvent::QuotaFetched) => (
            CaptureState::Quota { endpoint, warmed: true },
            CaptureActionView::CheckQuota { key: quota_key_of(req, endpoint) },
        ),
        (CaptureState::Dedup { endpoint }, CaptureEvent::DedupChecked(first)) => if first {
            (CaptureState::Buffer { endpoint: Some(endpoint) }, buffer_action(req, now))
        } else {
            (CaptureState::Done, CaptureActionView::Reply(accepted(Some(endpoint))))
        },
        (CaptureState::Buffer { endpoint }, CaptureEvent::Buffered) => (
            CaptureState::Done,
            CaptureActionView::Reply(accepted(endpoint)),
        ),
        _ => (state, CaptureActionView::Halt),
    }
}

/// Begins the capture of a request.
pub fn capture_begin(req: &CaptureRequest) -> (r: (CaptureState, CaptureAction))
    ensures
        (r.0, r.1@) == begin_effect(*req),
{
    if is_valid_slug(req.slug.as_str()) {
        (
            CaptureState::Lookup,
            CaptureAction::LookupEndpoint { key: endpoint_key(req.slug.as_str()) },
        )
    } else {
        (CaptureState::Done, CaptureAction::Reply(CaptureOutcome::InvalidSlug))
    }
}

fn resolved(req: &CaptureRequest, endpoint: EndpointInfo, now: i64) -> (r: (
    CaptureState,
    CaptureAction,
))
    ensures
        (r.0, r.1@) == resolved_effect(*req, endpoint, now),
{
    if endpoint.is_expired_at(now) {
        (CaptureState::Done, CaptureAction::Reply(CaptureOutcome::Expired))
    } else {
        let key = quota_key_for(req, &endpoint);
        (CaptureState::Quota { endpoint, warmed: false }, CaptureAction::CheckQuota { key })
    }
}

fn quota_key_for(req: &CaptureRequest, endpoint: &EndpointInfo) -> (key: String)
    ensures
        key@ == quota_key_of(*req, *endpoint),
{
    match &endpoint.user_id {
        Some(u) => quota_key(req.slug.as_str(), Some(u.as_str())),
        None => quota_key(req.slug.as_str(), None),
    }
}

fn dedup_key_for(req: &CaptureRequest) -> (key: String)
    ensures
        key@ == dedup_key_of(*req),
{
    let path = normalize_path(req.path.as_str());
    let client_ip = cf_connecting_ip(&req.headers);
    dedup_key(
        req.slug.as_str(),
        req.method.as_str(),
        path.as_str(),
        req.body.as_slice(),
        client_ip.as_str(),
    )
}

fn buffer_for(req: &CaptureRequest, now: i64) -> (action: CaptureAction)
    ensures
        action@ == buffer_action(*req, now),
{
    CaptureAction::Buffer { key: buffer_key(req.slug.as_str()), request: buffer_request(req, now) }
}

fn accept(endpoint: &Option<EndpointInfo>) -> (outcome: CaptureOutcome)
    ensures
        outcome@ == accepted(*endpoint),
{
    match endpoint {
        Some(ep) => match &ep.mock_response {
            Some(mock) => CaptureOutcome::Accepted(Some(build_mock_response(mock))),
            None => CaptureOutcome::Accepted(None),
        },
        None => CaptureOutcome::Accepted(None),
    }
}

/// Takes one step of a capture. `now` is the time of the event in epoch
/// milliseconds.
pub fn capture_step(state: CaptureState, event: CaptureEvent, req: &CaptureRequest, now: i64) -> (r:
    (CaptureState, CaptureAction))
    ensures
        (r.0, r.1@) == capture_effect(state, event, *req, now),
{
    match (state, event) {
        (CaptureState::Lookup, CaptureEvent::Cached(Some(endpoint))) => {
            if str_eq(endpoint.error.as_str(), "not_found") {
                (CaptureState::Done, CaptureAction::Reply(CaptureOutcome::NotFound))
            } else {
                resolved(req, endpoint, now)
            }
        },
        (CaptureState::Lookup, CaptureEvent::Cached(None)) => (
            CaptureState::Fetch,
            CaptureAction::FetchEndpoint,
        ),
        (CaptureState::Fetch, CaptureEvent::Fetched(Ok(Some(endpoint)))) => resolved(
            req,
            endpoint,
            now,
        ),
        (CaptureState::Fetch, CaptureEvent::Fetched(Ok(None))) => (
            CaptureState::Done,
            CaptureAction::Reply(CaptureOutcome::NotFound),
        ),
        (CaptureState::Fetch, CaptureEvent::Fetched(Err(_))) => (
            CaptureState::Buffer { endpoint: None },
            buffer_for(req, now),
        ),
        (CaptureState::Quota { endpoint, warmed }, CaptureEvent::QuotaChecked(result)) => {
            match result {
                QuotaResult::Exceeded => (
                    CaptureState::Done,
                    CaptureAction::Reply(CaptureOutcome::QuotaExceeded),
                ),
                QuotaResult::NotFound if !warmed => (
                    CaptureState::QuotaFetch { endpoint },
                    CaptureAction::FetchQuota,
                ),
                _ => {
                    let key = dedup_key_for(req);
                    (CaptureState::Dedup { endpoint }, CaptureAction::CheckDedup { key })
                },
            }
        },
        (CaptureState::QuotaFetch { endpoint }, CaptureEvent::QuotaFetched) => {
            let key = quota_key_for(req, &endpoint);
            (CaptureState::Quota { endpoint, warmed: true }, CaptureAction::CheckQuota { key })
        },
        (CaptureState::Dedup { endpoint }, CaptureEvent::DedupChecked(first)) => {
            if first {
                let action = buffer_for(req, now);
                (CaptureState::Buffer { endpoint: Some(endpoint) }, action)
            } else {
                let outcome = accept(&Some(endpoint));
                (CaptureState::Done, CaptureAction::Reply(outcome))
            }
        },
        (CaptureState::Buffer { endpoint }, CaptureEvent::Buffered) => {
            let outcome = accept(&endpoint);
            (CaptureState::Done, CaptureAction::Reply(outcome))
        },
        (state, _) => (state, CaptureAction::Halt),
    }
}

/// A duplicate is answered as the first request was. From the wait for the
/// dedup index, the reply to a duplicate is the reply that follows the push of
/// a request seen for the first time, and a duplicate is not pushed.
pub proof fn lemma_duplicate_same_reply(
    endpoint: EndpointInfo,
    req: CaptureRequest,
    first_now: i64,
    later_now: i64,
    duplicate_now: i64,
)
    ensures
        ({
            let waiting = CaptureState::Dedup { endpoint };
            let pushed = capture_effect(waiting, CaptureEvent::DedupChecked(true), req, first_now);
            let replied = capture_effect(pushed.0, CaptureEvent::Buffered, req, later_now);
            let duplicate = capture_effect(
                waiting,
                CaptureEvent::DedupChecked(false),
                req,
                duplicate_now,
            );
            &&& pushed.1 is Buffer
            &&& duplicate.1 is Reply
            &&& duplicate.1 == replied.1
            &&& duplicate.0 == CaptureState::Done
            &&& replied.0 == CaptureState::Done
        }),
{
}

/// How many steps a capture has left at most.
pub open spec fn steps_left(state: CaptureState) -> nat {
    match state {
        CaptureState::Lookup => 7,
        CaptureState::Fetch => 6,
        CaptureState::Quota { warmed: false, .. } => 5,
        CaptureState::QuotaFetch { .. } => 4,
        CaptureState::Quota { warmed: true, .. } => 3,
        CaptureState::Dedup { .. } => 2,
        CaptureState::Buffer { .. } => 1,
        CaptureState::Done => 0,
    }
}

/// Every capture ends. A step that is taken brings the capture nearer to its
/// reply, which is given after seven steps at most; and a request is pushed
/// once at most, for after the push nothing is left but the reply.
pub proof fn lemma_capture_ends(
    state: CaptureState,
    event: CaptureEvent,
    req: CaptureRequest,
    now: i64,
)
    ensures
        ({
            let step = capture_effect(state, event, req, now);
            &&& !(step.1 is Halt) ==> steps_left(step.0) < steps_left(state)
            &&& step.1 is Halt ==> step.0 == state
            &&& step.1 is Reply <==> (step.0 is Done && !(state is Done) && !(step.1 is Halt))
            &&& step.1 is Buffer ==> step.0 is Buffer
            &&& state is Buffer ==> !(step.1 is Buffer)
        }),
{
}

/// No step refuses with 429 but on the quota script's word, and none buffers
/// while the script's word is awaited.
pub proof fn lemma_quota_refusal(
    state: CaptureState,
    event: CaptureEvent,
    req: CaptureRequest,
    now: i64,
)
    ensures
        capture_effect(state, event, req, now).1 == CaptureActionView::Reply(
            OutcomeView::QuotaExceeded,
        ) <==> (state is Quota && event == CaptureEvent::QuotaChecked(QuotaResult::Exceeded)),
        state is Quota ==> !(capture_effect(state, event, req, now).1 is Buffer),
{
}

} // verus!
