//! The values exchanged with the control plane, and the clock.

use vstd::prelude::*;
use crate::string_map::{Entries, StringMap};

verus! {

/// The reply that an endpoint's owner has configured for captured requests.
#[derive(Clone, Debug)]
pub struct MockResponse {
    pub status: i32,
    pub body: String,
    pub headers: StringMap,
}

/// What the control plane knows of a slug.
#[derive(Clone, Debug)]
pub struct EndpointInfo {
    pub endpoint_id: String,
    pub user_id: Option<String>,
    pub is_ephemeral: bool,
    /// Epoch milliseconds after which the endpoint no longer captures.
    pub expires_at: Option<i64>,
    pub mock_response: Option<MockResponse>,
    /// Empty for a live endpoint; `not_found` marks a negative answer.
    pub error: String,
}

/// The control plane's answer to a quota query.
#[derive(Clone, Debug)]
pub struct QuotaResponse {
    pub error: String,
    pub user_id: Option<String>,
    pub remaining: i64,
    pub limit: i64,
    pub period_end: Option<i64>,
    pub plan: Option<String>,
    pub needs_period_start: bool,
}

/// The control plane's answer when a billing period is checked or started.
#[derive(Clone, Debug)]
pub struct CheckPeriodResponse {
    pub error: String,
    pub remaining: i64,
    pub limit: i64,
    pub period_end: Option<i64>,
    pub retry_after: Option<i64>,
}

/// One page of the users on a plan.
#[derive(Clone, Debug)]
pub struct UsersByPlanResponse {
    pub error: String,
    pub user_ids: Vec<String>,
    pub next_cursor: Option<String>,
    pub done: bool,
}

/// A captured request as it waits in a slug's buffer.
#[derive(Clone, Debug)]
pub struct BufferedRequest {
    pub method: String,
    pub path: String,
    pub headers: StringMap,
    pub body: String,
    pub query_params: StringMap,
    pub ip: String,
    /// Epoch milliseconds at which the request was received.
    pub received_at: i64,
}

/// A `BufferedRequest` as plain values.
pub struct BufferedRequestView {
    pub method: Seq<char>,
    pub path: Seq<char>,
    pub headers: Entries,
    pub body: Seq<char>,
    pub query_params: Entries,
    pub ip: Seq<char>,
    pub received_at: i64,
}

impl View for BufferedRequest {
    type V = BufferedRequestView;

    open spec fn view(&self) -> BufferedRequestView {
        BufferedRequestView {
            method: self.method@,
            path: self.path@,
            headers: self.headers@,
            body: self.body@,
            query_params: self.query_params@,
            ip: self.ip@,
            received_at: self.received_at,
        }
    }
}

/// The control plane's answer to a posted batch.
#[derive(Clone, Debug)]
pub struct CaptureResponse {
    pub success: bool,
    pub error: String,
    pub inserted: usize,
    pub mock_response: Option<MockResponse>,
}

/// The body of a batch post.
#[derive(Clone, Debug)]
pub struct BatchPayload {
    pub slug: String,
    pub requests: Vec<BufferedRequest>,
}

/// The `i64` nearest to `v`.
pub open spec fn clamp_i64(v: int) -> int {
    if v > i64::MAX {
        i64::MAX as int
    } else if v < i64::MIN {
        i64::MIN as int
    } else {
        v
    }
}

/// Milliseconds for a clock reading of whole seconds and a fraction in
/// milliseconds. The seconds are read as a two's-complement `i64`; the product
/// and the sum saturate.
pub open spec fn millis_of_reading(secs: u64, subsec_millis: u32) -> int {
    let signed: int = if secs <= i64::MAX as u64 {
        secs as int
    } else {
        secs as int - 0x1_0000_0000_0000_0000
    };
    clamp_i64(clamp_i64(signed * 1000) + subsec_millis as int)
}

/// The seconds and the millisecond fraction of the time since the Unix epoch.
///
/// Trusted: the body reads `SystemTime::now`, takes the `Duration` since
/// `UNIX_EPOCH` (zero where the clock stands before it) and returns `as_secs`
/// and `subsec_millis`. The fraction is below one thousand, as std documents;
/// nothing is claimed of the seconds.
#[verifier::external_body]
fn clock_reading() -> (r: (u64, u32))
    ensures
        r.1 < 1000,
{
    let d = std::time::SystemTime::now().duration_since(std::time::UNIX_EPOCH).unwrap_or_default();
    (d.as_secs(), d.subsec_millis())
}

/// Milliseconds since the Unix epoch for a clock reading.
pub fn millis_from_reading(secs: u64, subsec_millis: u32) -> (ms: i64)
    ensures
        ms == millis_of_reading(secs, subsec_millis),
{
    let wide: i128 = if secs <= i64::MAX as u64 {
        secs as i128
    } else {
        secs as i128 - 0x1_0000_0000_0000_0000i128
    };
    let product: i128 = wide * 1000;
    let scaled: i128 = if product > i64::MAX as i128 {
        i64::MAX as i128
    } else if product < i64::MIN as i128 {
        i64::MIN as i128
    } else {
        product
    };
    let sum: i128 = scaled + subsec_millis as i128;
    if sum > i64::MAX as i128 {
        i64::MAX
    } else {
        sum as i64
    }
}

/// The current time in milliseconds since the Unix epoch.
pub fn now_ms() -> (ms: i64)
    ensures
        exists|secs: u64, subsec_millis: u32|
            subsec_millis < 1000 && ms == #[trigger] millis_of_reading(secs, subsec_millis),
{
    let (secs, subsec_millis) = clock_reading();
    millis_from_reading(secs, subsec_millis)
}

impl EndpointInfo {
    /// An endpoint has expired once its expiry lies before `now`.
    pub open spec fn expired_at(&self, now: int) -> bool {
        match self.expires_at {
            Some(t) => t < now,
            None => false,
        }
    }

    /// Whether the endpoint has expired at `now`, in epoch milliseconds.
    pub fn is_expired_at(&self, now: i64) -> (r: bool)
        ensures
            r == self.expired_at(now as int),
    {
        match self.expires_at {
            Some(t) => t < now,
            None => false,
        }
    }

    /// Whether the endpoint has expired by the clock's current reading.
    pub fn is_expired(&self) -> (r: bool)
        ensures
            self.expires_at is None ==> !r,
            exists|now: i64| r == self.expired_at(now as int),
    {
        let now = now_ms();
        self.is_expired_at(now)
    }
}

} // verus!
