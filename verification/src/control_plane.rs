//! The client of the control plane: its errors, the steps of one exchange
//! with the circuit breaker around it, and what each answer does to the
//! caches.

use vstd::prelude::*;
use vstd::string::*;
use crate::quota::{plan_quota_write, quota_write_view, QuotaWrite, QuotaWriteView};
use crate::text::{lossy_string, push_decimal, push_prefix, dec_text, str_eq, utf8_lossy};
use crate::types::{CheckPeriodResponse, EndpointInfo, QuotaResponse};

verus! {

/// The largest response body that is read from the control plane, in bytes.
pub const MAX_RESPONSE_SIZE: usize = 1024 * 1024;

/// Seconds after which a request to the control plane is given up.
pub const HTTP_TIMEOUT_SECS: u64 = 30;

/// The most characters of a response body that an error message shows.
pub const MESSAGE_BODY_CHARS: usize = 200;

/// Why a call to the control plane gave no answer.
#[derive(Debug)]
pub enum ConvexError {
    /// The circuit breaker refused the call: nothing was sent.
    CircuitOpen,
    /// The transport failed.
    Network(String),
    /// A status of 500 or above, with the body.
    ServerError(u16, String),
    /// Another status that the call does not accept, with the body.
    ClientError(u16, String),
    /// The body could not be parsed.
    ParseError(String),
    /// The body is larger than `MAX_RESPONSE_SIZE`.
    ResponseTooLarge,
}

/// A `ConvexError` as plain values.
pub enum ErrorView {
    CircuitOpen,
    Network(Seq<char>),
    ServerError(u16, Seq<char>),
    ClientError(u16, Seq<char>),
    ParseError(Seq<char>),
    ResponseTooLarge,
}

impl View for ConvexError {
    type V = ErrorView;

    open spec fn view(&self) -> ErrorView {
        match self {
            ConvexError::CircuitOpen => ErrorView::CircuitOpen,
            ConvexError::Network(e) => ErrorView::Network(e@),
            ConvexError::ServerError(s, b) => ErrorView::ServerError(*s, b@),
            ConvexError::ClientError(s, b) => ErrorView::ClientError(*s, b@),
            ConvexError::ParseError(e) => ErrorView::ParseError(e@),
            ConvexError::ResponseTooLarge => ErrorView::ResponseTooLarge,
        }
    }
}

/// The first `MESSAGE_BODY_CHARS` characters of a body.
pub open spec fn shown_body(body: Seq<char>) -> Seq<char> {
    body.take(vstd::math::min(200, body.len() as int))
}

impl ConvexError {
    /// The text of the error for logs.
    pub open spec fn message_text(&self) -> Seq<char> {
        match self {
            ConvexError::CircuitOpen => "circuit breaker open"@,
            ConvexError::Network(e) => "network error: "@ + e@,
            ConvexError::ServerError(s, b) => "server error "@ + dec_text(*s as nat) + ": "@
                + shown_body(b@),
            ConvexError::ClientError(s, b) => "client error "@ + dec_text(*s as nat) + ": "@
                + shown_body(b@),
            ConvexError::ParseError(e) => "parse error: "@ + e@,
            ConvexError::ResponseTooLarge => "response too large"@,
        }
    }

    /// The text of the error for logs. A body is cut after 200 characters.
    pub fn message(&self) -> (m: String)
        ensures
            m@ == self.message_text(),
    {
        match self {
            ConvexError::CircuitOpen => String::from_str("circuit breaker open"),
            ConvexError::Network(e) => {
                let mut m = String::from_str("network error: ");
                m.append(e.as_str());
                m
            },
            ConvexError::ServerError(s, b) => {
                let mut m = String::from_str("server error ");
                push_decimal(&mut m, *s as u64);
                m.append(": ");
                push_prefix(&mut m, b.as_str(), MESSAGE_BODY_CHARS);
                m
            },
            ConvexError::ClientError(s, b) => {
                let mut m = String::from_str("client error ");
                push_decimal(&mut m, *s as u64);
                m.append(": ");
                push_prefix(&mut m, b.as_str(), MESSAGE_BODY_CHARS);
                m
            },
            ConvexError::ParseError(e) => {
                let mut m = String::from_str("parse error: ");
                m.append(e.as_str());
                m
            },
            ConvexError::ResponseTooLarge => String::from_str("response too large"),
        }
    }

    /// Whether the error says that nothing left this process, so that what
    /// was to be sent may be sent again.
    pub fn never_sent(&self) -> (r: bool)
        ensures
            r == (self is CircuitOpen),
    {
        match self {
            ConvexError::CircuitOpen => true,
            _ => false,
        }
    }
}

/// What an exchange tells the circuit breaker.
#[derive(Clone, Copy, Debug, PartialEq, Eq, Structural)]
pub enum BreakerUpdate {
    /// Nothing.
    Untouched,
    /// The control plane is reachable.
    Success,
    /// The control plane failed.
    Failure,
}

/// The calls that the control plane offers.
#[derive(Clone, Copy, Debug, PartialEq, Eq, Structural)]
pub enum CpCall {
    EndpointInfo,
    Quota,
    CheckPeriod,
    UsersByPlan,
    CaptureBatch,
}

impl CpCall {
    /// The statuses whose body the call parses: 200 and 429 for a period
    /// check, any 2xx for the others.
    pub open spec fn accepts(&self, status: u16) -> bool {
        match self {
            CpCall::CheckPeriod => status == 200 || status == 429,
            _ => 200 <= status < 300,
        }
    }

    /// Whether the call parses the body that comes with `status`.
    pub fn accepts_status(&self, status: u16) -> (r: bool)
        ensures
            r == self.accepts(status),
    {
        match self {
            CpCall::CheckPeriod => status == 200 || status == 429,
            _ => 200 <= status && status < 300,
        }
    }

    /// The path of the call below the control plane's base address.
    pub open spec fn path_text(&self) -> Seq<char> {
        match self {
            CpCall::EndpointInfo => "/endpoint-info"@,
            CpCall::Quota => "/quota"@,
            CpCall::CheckPeriod => "/check-period"@,
            CpCall::UsersByPlan => "/users-by-plan"@,
            CpCall::CaptureBatch => "/capture-batch"@,
        }
    }

    /// The path of the call below the control plane's base address.
    pub fn path(&self) -> (p: &'static str)
        ensures
            p@ == self.path_text(),
    {
        match self {
            CpCall::EndpointInfo => "/endpoint-info",
            CpCall::Quota => "/quota",
            CpCall::CheckPeriod => "/check-period",
            CpCall::UsersByPlan => "/users-by-plan",
            CpCall::CaptureBatch => "/capture-batch",
        }
    }
}

/// The header value that authorizes a call: `Bearer`, a space, the secret.
pub fn bearer(secret: &str) -> (value: String)
    ensures
        value@ == "Bearer "@ + secret@,
{
    let mut value = String::from_str("Bearer ");
    value.append(secret);
    value
}

/// The address of a call: the base address and the call's path.
pub fn call_url(base_url: &str, call: CpCall) -> (url: String)
    ensures
        url@ == base_url@ + call.path_text(),
{
    let mut url = String::from_str(base_url);
    url.append(call.path());
    url
}

/// Where an exchange stands.
#[derive(Clone, Copy, Debug, PartialEq, Eq, Structural)]
pub enum ExchangeState {
    /// The circuit breaker has been asked.
    Asked,
    /// The request has been sent.
    Sent,
    /// The head of the response has arrived with this status, and the body is
    /// being read.
    Reading(u16),
    /// The exchange is over.
    Done,
}

/// What the transport reports back.
#[derive(Debug)]
pub enum ExchangeEvent {
    /// The circuit breaker's answer.
    Admitted(bool),
    /// Sending failed, with the transport's message.
    SendFailed(String),
    /// The head of the response: its status and its declared length, if any.
    Head(u16, Option<u64>),
    /// Reading the body failed, with the transport's message.
    ReadFailed(String),
    /// The body.
    Body(Vec<u8>),
}

/// An `ExchangeEvent` as plain values.
pub enum EventView {
    Admitted(bool),
    SendFailed(Seq<char>),
    Head(u16, Option<u64>),
    ReadFailed(Seq<char>),
    Body(Seq<u8>),
}

impl View for ExchangeEvent {
    type V = EventView;

    open spec fn view(&self) -> EventView {
        match self {
            ExchangeEvent::Admitted(b) => EventView::Admitted(*b),
            ExchangeEvent::SendFailed(m) => EventView::SendFailed(m@),
            ExchangeEvent::Head(s, n) => EventView::Head(*s, *n),
            ExchangeEvent::ReadFailed(m) => EventView::ReadFailed(m@),
            ExchangeEvent::Body(b) => EventView::Body(b@),
        }
    }
}

/// What the transport is to do next.
#[derive(Debug)]
pub enum ExchangeAction {
    /// Send the request, and give up after `HTTP_TIMEOUT_SECS`.
    Send,
    /// Read the body.
    ReadBody,
    /// Update the circuit breaker in the background and fail.
    Fail(BreakerUpdate, ConvexError),
    /// Update the circuit breaker in the background and parse the body.
    Parse(BreakerUpdate, String),
    /// The event does not answer what was asked: nothing is done.
    Halt,
}

/// An `ExchangeAction` as plain values.
pub enum ActionView {
    Send,
    ReadBody,
    Fail(BreakerUpdate, ErrorView),
    Parse(BreakerUpdate, Seq<char>),
    Halt,
}

impl View for ExchangeAction {
    type V = ActionView;

    open spec fn view(&self) -> ActionView {
        match self {
            ExchangeAction::Send => ActionView::Send,
            ExchangeAction::ReadBody => ActionView::ReadBody,
            ExchangeAction::Fail(u, e) => ActionView::Fail(*u, e@),
            ExchangeAction::Parse(u, b) => ActionView::Parse(*u, b@),
            ExchangeAction::Halt => ActionView::Halt,
        }
    }
}

/// What becomes of a response with this status and body. A status of 500 or
/// above is a server error and a failure of the control plane; any other
/// status shows that it is reachable, and is a client error unless the call
/// accepts it.
pub open spec fn response_effect(call: CpCall, status: u16, body: Seq<char>) -> ActionView {
    if status >= 500 {
        ActionView::Fail(BreakerUpdate::Failure, ErrorView::ServerError(status, body))
    } else if !call.accepts(status) {
        ActionView::Fail(BreakerUpdate::Success, ErrorView::ClientError(status, body))
    } else {
        ActionView::Parse(BreakerUpdate::Success, body)
    }
}

/// Classifies a response whose body has been read as text.
pub fn classify_response(call: CpCall, status: u16, body: String) -> (action: ExchangeAction)
    ensures
        action@ == response_effect(call, status, body@),
{
    if status >= 500 {
        ExchangeAction::Fail(BreakerUpdate::Failure, ConvexError::ServerError(status, body))
    } else if !call.accepts_status(status) {
        ExchangeAction::Fail(BreakerUpdate::Success, ConvexError::ClientError(status, body))
    } else {
        ExchangeAction::Parse(BreakerUpdate::Success, body)
    }
}

/// Whether a response of this many bytes is too large to accept.
pub open spec fn too_large(len: int) -> bool {
    len > 1024 * 1024
}

/// One step of an exchange: the next state and what is to be done.
///
/// A call that the breaker refuses fails with `CircuitOpen` before anything is sent. A
/// transport failure is a failure of the control plane. A response that
/// declares or has more than `MAX_RESPONSE_SIZE` bytes is refused, the first
/// before its body is read, and leaves the circuit breaker untouched. Any
/// other response is classified by its status, its body read as text.
pub open spec fn exchange_effect(call: CpCall, state: ExchangeState, event: EventView) -> (
    ExchangeState,
    ActionView,
) {
    match (state, event) {
        (ExchangeState::Asked, EventView::Admitted(allowed)) => if allowed {
            (ExchangeState::Sent, ActionView::Send)
        } else {
            (
                ExchangeState::Done,
                ActionView::Fail(BreakerUpdate::Untouched, ErrorView::CircuitOpen),
            )
        },
        (ExchangeState::Sent, EventView::SendFailed(m)) => (
            ExchangeState::Done,
            ActionView::Fail(BreakerUpdate::Failure, ErrorView::Network(m)),
        ),
        (ExchangeState::Sent, EventView::Head(status, declared)) => if declared is Some
            && too_large(declared->0 as int) {
            (
                ExchangeState::Done,
                ActionView::Fail(BreakerUpdate::Untouched, ErrorView::ResponseTooLarge),
            )
        } else {
            (ExchangeState::Reading(status), ActionView::ReadBody)
        },
        (ExchangeState::Reading(_), EventView::ReadFailed(m)) => (
            ExchangeState::Done,
            ActionView::Fail(BreakerUpdate::Failure, ErrorView::Network(m)),
        ),
        (ExchangeState::Reading(status), EventView::Body(bytes)) => if too_large(
            bytes.len() as int,
        ) {
            (
                ExchangeState::Done,
                ActionView::Fail(BreakerUpdate::Untouched, ErrorView::ResponseTooLarge),
            )
        } else {
            (ExchangeState::Done, response_effect(call, status, utf8_lossy(bytes)))
        },
        _ => (state, ActionView::Halt),
    }
}

/// Takes one step of an exchange with the control plane.
pub fn exchange_step(call: CpCall, state: ExchangeState, event: ExchangeEvent) -> (r: (
    ExchangeState,
    ExchangeAction,
))
    ensures
        (r.0, r.1@) == exchange_effect(call, state, event@),
{
    match (state, event) {
        (ExchangeState::Asked, ExchangeEvent::Admitted(allowed)) => {
            if allowed {
                (ExchangeState::Sent, ExchangeAction::Send)
            } else {
                (
                    ExchangeState::Done,
                    ExchangeAction::Fail(BreakerUpdate::Untouched, ConvexError::CircuitOpen),
                )
            }
        },
        (ExchangeState::Sent, ExchangeEvent::SendFailed(m)) => (
            ExchangeState::Done,
            ExchangeAction::Fail(BreakerUpdate::Failure, ConvexError::Network(m)),
        ),
        (ExchangeState::Sent, ExchangeEvent::Head(status, declared)) => {
            let refuse = match declared {
                Some(n) => n > MAX_RESPONSE_SIZE as u64,
                None => false,
            };
            if refuse {
                (
                    ExchangeState::Done,
                    ExchangeAction::Fail(BreakerUpdate::Untouched, ConvexError::ResponseTooLarge),
                )
            } else {
                (ExchangeState::Reading(status), ExchangeAction::ReadBody)
            }
        },
        (ExchangeState::Reading(_), ExchangeEvent::ReadFailed(m)) => (
            ExchangeState::Done,
            ExchangeAction::Fail(BreakerUpdate::Failure, ConvexError::Network(m)),
        ),
        (ExchangeState::Reading(status), ExchangeEvent::Body(bytes)) => {
            if bytes.len() > MAX_RESPONSE_SIZE {
                (
                    ExchangeState::Done,
                    ExchangeAction::Fail(BreakerUpdate::Untouched, ConvexError::ResponseTooLarge),
                )
            } else {
                let body = lossy_string(bytes.as_slice());
                (ExchangeState::Done, classify_response(call, status, body))
            }
        },
        (state, _) => (state, ExchangeAction::Halt),
    }
}

/// The error of a body that could not be parsed, with the parser's message.
pub fn parse_failure(message: String) -> (e: ConvexError)
    ensures
        e@ == ErrorView::ParseError(message@),
{
    ConvexError::ParseError(message)
}

/// What an endpoint answer does: whether it is cached, and what the caller
/// sees.
pub struct EndpointAnswer {
    /// Whether the answer is stored in the endpoint cache.
    pub cache: bool,
    /// The endpoint, or `None` where the control plane knows none.
    pub endpoint: Option<EndpointInfo>,
}

/// Decides what becomes of a parsed endpoint answer. Only an answer without
/// an error is cached; `not_found` is handed on as absent and not cached.
pub fn endpoint_answer(info: EndpointInfo) -> (a: EndpointAnswer)
    ensures
        a.cache == (info.error@.len() == 0),
        a.endpoint == if info.error@ == "not_found"@ {
            None
        } else {
            Some(info)
        },
{
    let cache = info.error.as_str().is_empty();
    let absent = str_eq(info.error.as_str(), "not_found");
    EndpointAnswer {
        cache,
        endpoint: if absent {
            None
        } else {
            Some(info)
        },
    }
}

/// The user that a quota answer names, or the empty text.
pub open spec fn quota_user(quota: QuotaResponse) -> Seq<char> {
    match quota.user_id {
        Some(u) => u@,
        None => Seq::empty(),
    }
}

/// A quota answer asks for a period check where the user's period has not
/// started: the answer is no `not_found`, says so, and names a user.
pub open spec fn wants_period_check(quota: QuotaResponse) -> bool {
    &&& quota.error@ != "not_found"@
    &&& quota.needs_period_start
    &&& quota_user(quota).len() > 0
}

/// Whether a period check is to follow a quota answer.
pub fn needs_period_check(quota: &QuotaResponse) -> (r: bool)
    ensures
        r == wants_period_check(*quota),
{
    if str_eq(quota.error.as_str(), "not_found") {
        return false;
    }
    if !quota.needs_period_start {
        return false;
    }
    match &quota.user_id {
        Some(u) => !u.as_str().is_empty(),
        None => false,
    }
}

/// The numbers that a quota answer puts into the cache: what is left, the
/// limit, the period's end and whether the quota is unlimited. `period` is
/// the answer of the period check where one was made and answered.
pub open spec fn cached_quota(quota: QuotaResponse, period: Option<CheckPeriodResponse>) -> (
    i64,
    i64,
    i64,
    bool,
) {
    let own = (
        quota.remaining,
        quota.limit,
        match quota.period_end {
            Some(t) => t,
            None => 0,
        },
        quota.remaining == -1,
    );
    match period {
        Some(p) => {
            let end = match p.period_end {
                Some(t) => t,
                None => 0,
            };
            if !wants_period_check(quota) {
                own
            } else if p.error@.len() == 0 {
                (p.remaining, p.limit, end, false)
            } else if p.error@ == "quota_exceeded"@ {
                (0, p.limit, end, false)
            } else {
                own
            }
        },
        None => own,
    }
}

/// A quota cached from the quota answer's own numbers is unlimited exactly
/// where it has -1 left.
pub proof fn lemma_unlimited_is_minus_one(quota: QuotaResponse)
    ensures
        cached_quota(quota, None).3 == (cached_quota(quota, None).0 == -1),
{
}

/// The cache write that follows a quota answer; `None` where the control
/// plane does not know the slug.
pub open spec fn quota_cache_view(
    slug: Seq<char>,
    quota: QuotaResponse,
    period: Option<CheckPeriodResponse>,
    ttl_secs: u64,
) -> Option<QuotaWriteView> {
    if quota.error@ == "not_found"@ {
        None
    } else {
        let numbers = cached_quota(quota, period);
        Some(
            quota_write_view(
                slug,
                numbers.0,
                numbers.1,
                numbers.2,
                numbers.3,
                quota_user(quota),
                ttl_secs,
            ),
        )
    }
}

/// The view of an optional write.
pub open spec fn opt_write(w: Option<QuotaWrite>) -> Option<QuotaWriteView> {
    match w {
        Some(x) => Some(x@),
        None => None,
    }
}

/// Plans the cache write that follows a quota answer; `None` where the
/// control plane does not know the slug.
///
/// Where a period check was due and answered, its numbers are cached, with
/// nothing left where it says that the quota is exceeded. Otherwise the quota
/// answer's own numbers are cached, unlimited where it has -1 left.
pub fn plan_quota_cache(
    slug: &str,
    quota: &QuotaResponse,
    period: Option<&CheckPeriodResponse>,
    ttl_secs: u64,
) -> (w: Option<QuotaWrite>)
    ensures
        opt_write(w) == quota_cache_view(
            slug@,
            *quota,
            match period {
                Some(p) => Some(*p),
                None => None,
            },
            ttl_secs,
        ),
{
    if str_eq(quota.error.as_str(), "not_found") {
        return None;
    }
    let user_id: &str = match &quota.user_id {
        Some(u) => u.as_str(),
        None => "",
    };
    proof {
        reveal_strlit("");
        assert(""@ =~= Seq::<char>::empty());
    }
    let due = needs_period_check(quota);
    let own_end: i64 = match quota.period_end {
        Some(t) => t,
        None => 0,
    };
    match period {
        Some(p) => {
            let end: i64 = match p.period_end {
                Some(t) => t,
                None => 0,
            };
            if due && p.error.as_str().is_empty() {
                return Some(
                    plan_quota_write(slug, p.remaining, p.limit, end, false, user_id, ttl_secs),
                );
            }
            if due && str_eq(p.error.as_str(), "quota_exceeded") {
                return Some(plan_quota_write(slug, 0, p.limit, end, false, user_id, ttl_secs));
            }
        },
        None => {},
    }
    Some(
        plan_quota_write(
            slug,
            quota.remaining,
            quota.limit,
            own_end,
            quota.remaining == -1,
            user_id,
            ttl_secs,
        ),
    )
}

/// Where the fetch of a quota stands.
#[derive(Debug)]
pub enum QuotaFetchState {
    /// The quota is being asked for.
    Asking,
    /// The period of the quota's user is being checked.
    CheckingPeriod(QuotaResponse),
    /// The fetch is over.
    Done,
}

/// What the client's surroundings report back: the outcome of an exchange
/// with its body parsed.
#[derive(Debug)]
pub enum QuotaFetchEvent {
    Quota(Result<QuotaResponse, ConvexError>),
    Period(Result<CheckPeriodResponse, ConvexError>),
}

/// What the client does next.
#[derive(Debug)]
pub enum QuotaFetchAction {
    /// Check the period of this user.
    CheckPeriod(String),
    /// Make the cache write, if there is one, and end well.
    Finish(Option<QuotaWrite>),
    /// End with the error.
    Fail(ConvexError),
    /// The event does not answer what was asked: nothing is done.
    Halt,
}

/// A `QuotaFetchAction` as plain values.
pub enum QuotaFetchActionView {
    CheckPeriod(Seq<char>),
    Finish(Option<QuotaWriteView>),
    Fail(ErrorView),
    Halt,
}

impl View for QuotaFetchAction {
    type V = QuotaFetchActionView;

    open spec fn view(&self) -> QuotaFetchActionView {
        match self {
            QuotaFetchAction::CheckPeriod(u) => QuotaFetchActionView::CheckPeriod(u@),
            QuotaFetchAction::Finish(w) => QuotaFetchActionView::Finish(opt_write(*w)),
            QuotaFetchAction::Fail(e) => QuotaFetchActionView::Fail(e@),
            QuotaFetchAction::Halt => QuotaFetchActionView::Halt,
        }
    }
}

/// One step of the fetch of the quota of `slug`: the next state and what is
/// to be done. A failed quota call fails the fetch. A failed period check does
/// not: the quota answer's own numbers are cached then.
pub open spec fn quota_fetch_effect(
    slug: Seq<char>,
    ttl_secs: u64,
    state: QuotaFetchState,
    event: QuotaFetchEvent,
) -> (QuotaFetchState, QuotaFetchActionView) {
    match (state, event) {
        (QuotaFetchState::Asking, QuotaFetchEvent::Quota(Err(e))) => (
            QuotaFetchState::Done,
            QuotaFetchActionView::Fail(e@),
        ),
        (QuotaFetchState::Asking, QuotaFetchEvent::Quota(Ok(quota))) => if wants_period_check(
            quota,
        ) {
            (
                QuotaFetchState::CheckingPeriod(quota),
                QuotaFetchActionView::CheckPeriod(quota_user(quota)),
            )
        } else {
            (
                QuotaFetchState::Done,
                QuotaFetchActionView::Finish(quota_cache_view(slug, quota, None, ttl_secs)),
            )
        },
        (QuotaFetchState::CheckingPeriod(quota), QuotaFetchEvent::Period(Ok(period))) => (
            QuotaFetchState::Done,
            QuotaFetchActionView::Finish(quota_cache_view(slug, quota, Some(period), ttl_secs)),
        ),
        (QuotaFetchState::CheckingPeriod(quota), QuotaFetchEvent::Period(Err(_))) => (
            QuotaFetchState::Done,
            QuotaFetchActionView::Finish(quota_cache_view(slug, quota, None, ttl_secs)),
        ),
        _ => (state, QuotaFetchActionView::Halt),
    }
}

/// Takes one step of the fetch of a quota. `ttl_secs` is the time for which
/// a cached quota lives.
pub fn quota_fetch_step(
    slug: &str,
    ttl_secs: u64,
    state: QuotaFetchState,
    event: QuotaFetchEvent,
) -> (r: (QuotaFetchState, QuotaFetchAction))
    ensures
        (r.0, r.1@) == quota_fetch_effect(slug@, ttl_secs, state, event),
{
    match (state, event) {
        (QuotaFetchState::Asking, QuotaFetchEvent::Quota(Err(e))) => (
            QuotaFetchState::Done,
            QuotaFetchAction::Fail(e),
        ),
        (QuotaFetchState::Asking, QuotaFetchEvent::Quota(Ok(quota))) => {
            if needs_period_check(&quota) {
                let user = match &quota.user_id {
                    Some(u) => u.clone(),
                    None => String::new(),
                };
                (QuotaFetchState::CheckingPeriod(quota), QuotaFetchAction::CheckPeriod(user))
            } else {
                let write = plan_quota_cache(slug, &quota, None, ttl_secs);
                (QuotaFetchState::Done, QuotaFetchAction::Finish(write))
            }
        },
        (QuotaFetchState::CheckingPeriod(quota), QuotaFetchEvent::Period(Ok(period))) => {
            let write = plan_quota_cache(slug, &quota, Some(&period), ttl_secs);
            (QuotaFetchState::Done, QuotaFetchAction::Finish(write))
        },
        (QuotaFetchState::CheckingPeriod(quota), QuotaFetchEvent::Period(Err(_))) => {
            let write = plan_quota_cache(slug, &quota, None, ttl_secs);
            (QuotaFetchState::Done, QuotaFetchAction::Finish(write))
        },
        (state, _) => (state, QuotaFetchAction::Halt),
    }
}

/// The query of a page of users: the plan, the page size, and the cursor
/// where there is one.
pub fn users_by_plan_query(plan: &str, cursor: Option<&str>, limit: u32) -> (q: Vec<
    (String, String),
>)
    ensures
        q@.len() == if cursor is Some {
            3int
        } else {
            2int
        },
        q@[0].0@ == "plan"@ && q@[0].1@ == plan@,
        q@[1].0@ == "limit"@ && q@[1].1@ == dec_text(limit as nat),
        cursor matches Some(c) ==> q@[2].0@ == "cursor"@ && q@[2].1@ == c@,
{
    let mut q: Vec<(String, String)> = Vec::new();
    q.push((String::from_str("plan"), plan.to_owned()));
    let mut n = String::new();
    push_decimal(&mut n, limit as u64);
    assert(n@ =~= dec_text(limit as nat));
    q.push((String::from_str("limit"), n));
    match cursor {
        Some(c) => {
            q.push((String::from_str("cursor"), c.to_owned()));
        },
        None => {},
    }
    q
}

} // verus!
