//! The client of the column store: what it sends, what it accepts, and which
//! rows follow a delivered batch.

use vstd::prelude::*;
use vstd::string::*;
use crate::rows::{buffered_row, rows_of, ClickHouseRequest};
use crate::sql::{push_table, table_text};
use crate::text::{chars_of, dec_text, push_decimal, string_of};
use crate::types::{BufferedRequest, EndpointInfo};

verus! {

/// The largest response body that is read from the column store, in bytes.
pub const MAX_RESPONSE_SIZE: usize = 10 * 1024 * 1024;

/// Seconds after which a request to the column store is given up.
pub const HTTP_TIMEOUT_SECS: u64 = 10;

/// Seconds after which a ping is given up.
pub const PING_TIMEOUT_SECS: u64 = 3;

/// The header that names the user.
pub const USER_HEADER: &'static str = "X-ClickHouse-User";

/// The header that holds the password.
pub const KEY_HEADER: &'static str = "X-ClickHouse-Key";

/// `s` without the slashes at its end.
pub open spec fn without_trailing_slashes(s: Seq<char>) -> Seq<char>
    decreases s.len(),
{
    if s.len() > 0 && s.last() == '/' {
        without_trailing_slashes(s.drop_last())
    } else {
        s
    }
}

/// The base address as the client keeps it: without the slashes at its end.
pub fn trim_base_url(base_url: &str) -> (r: String)
    ensures
        r@ == without_trailing_slashes(base_url@),
{
    let v = chars_of(base_url);
    let mut end: usize = v.len();
    assert(v@.take(end as int) =~= v@);
    while end > 0 && v[end - 1] == '/'
        invariant
            end <= v@.len(),
            without_trailing_slashes(v@) == without_trailing_slashes(v@.take(end as int)),
        decreases end,
    {
        assert(v@.take(end as int).drop_last() =~= v@.take(end - 1));
        end -= 1;
    }
    assert(v@.subrange(0, end as int) =~= v@.take(end as int));
    string_of(&v, 0, end)
}

/// The statement that inserts rows, one JSON object on each line of the body.
pub open spec fn insert_query_text(db: Seq<char>) -> Seq<char> {
    "INSERT INTO "@ + table_text(db) + " FORMAT JSONEachRow"@
}

/// The statement that inserts rows into the table of database `database`.
pub fn insert_query(database: &str) -> (q: String)
    ensures
        q@ == insert_query_text(database@),
{
    let mut q = String::from_str("INSERT INTO ");
    push_table(&mut q, database);
    q.append(" FORMAT JSONEachRow");
    q
}

/// Lines, each followed by a line feed.
pub open spec fn lines_text(lines: Seq<String>) -> Seq<char>
    decreases lines.len(),
{
    if lines.len() == 0 {
        Seq::empty()
    } else {
        lines_text(lines.drop_last()) + lines.last()@ + seq!['\n']
    }
}

/// The body of an insert: the rows' JSON objects, one on each line; `None`
/// for no rows, for which nothing is sent.
pub fn insert_body(lines: &Vec<String>) -> (body: Option<String>)
    ensures
        lines@.len() == 0 ==> body is None,
        lines@.len() > 0 ==> (body matches Some(b) && b@ == lines_text(lines@)),
{
    let n: usize = lines.len();
    if n == 0 {
        return None;
    }
    let mut body = String::new();
    let mut i: usize = 0;
    assert(lines@.take(0) =~= Seq::<String>::empty());
    while i < n
        invariant
            n == lines@.len(),
            i <= n,
            body@ == lines_text(lines@.take(i as int)),
        decreases n - i,
    {
        proof {
            assert(lines@.take(i + 1).drop_last() =~= lines@.take(i as int));
            assert(lines@.take(i + 1).last() == lines@[i as int]);
        }
        body.append(lines[i].as_str());
        crate::text::push_char(&mut body, '\n');
        i += 1;
    }
    assert(lines@.take(n as int) =~= lines@);
    Some(body)
}

/// The calls that the column store is used for.
#[derive(Clone, Copy, Debug, PartialEq, Eq, Structural)]
pub enum CsCall {
    Insert,
    Query,
    Delete,
}

impl CsCall {
    /// The content type that the call is sent with: JSON for rows, plain text
    /// for a statement.
    pub fn content_type(&self) -> (t: &'static str)
        ensures
            t@ == match self {
                CsCall::Insert => "application/json"@,
                _ => "text/plain"@,
            },
    {
        match self {
            CsCall::Insert => "application/json",
            _ => "text/plain",
        }
    }

    /// The word for the call in an error message.
    pub open spec fn word(&self) -> Seq<char> {
        match self {
            CsCall::Insert => "insert"@,
            CsCall::Query => "query"@,
            CsCall::Delete => "delete"@,
        }
    }

    fn word_str(&self) -> (w: &'static str)
        ensures
            w@ == self.word(),
    {
        match self {
            CsCall::Insert => "insert",
            CsCall::Query => "query",
            CsCall::Delete => "delete",
        }
    }
}

/// Why a call to the column store failed.
#[derive(Debug)]
pub enum ColumnStoreError {
    /// A row could not be serialized.
    Serialize(String),
    /// The transport failed.
    Network(String),
    /// The column store answered with a status that is no success; with the
    /// call, the status as text, and the body.
    Status(CsCall, String, String),
    /// The response declares more than `MAX_RESPONSE_SIZE` bytes.
    DeclaredTooLarge(u64),
    /// The response has more than `MAX_RESPONSE_SIZE` bytes.
    TooLarge(usize),
    /// Reading the body failed.
    Read(String),
    /// The body could not be parsed.
    Parse(String),
}

/// A `ColumnStoreError` as plain values.
pub enum CsErrorView {
    Serialize(Seq<char>),
    Network(Seq<char>),
    Status(CsCall, Seq<char>, Seq<char>),
    DeclaredTooLarge(u64),
    TooLarge(usize),
    Read(Seq<char>),
    Parse(Seq<char>),
}

impl View for ColumnStoreError {
    type V = CsErrorView;

    open spec fn view(&self) -> CsErrorView {
        match self {
            ColumnStoreError::Serialize(e) => CsErrorView::Serialize(e@),
            ColumnStoreError::Network(e) => CsErrorView::Network(e@),
            ColumnStoreError::Status(c, s, b) => CsErrorView::Status(*c, s@, b@),
            ColumnStoreError::DeclaredTooLarge(n) => CsErrorView::DeclaredTooLarge(*n),
            ColumnStoreError::TooLarge(n) => CsErrorView::TooLarge(*n),
            ColumnStoreError::Read(e) => CsErrorView::Read(e@),
            ColumnStoreError::Parse(e) => CsErrorView::Parse(e@),
        }
    }
}

/// The text of an error.
pub open spec fn error_text(e: CsErrorView) -> Seq<char> {
    match e {
        CsErrorView::Serialize(m) => "serialize: "@ + m,
        CsErrorView::Network(m) => "network: "@ + m,
        CsErrorView::Status(call, status, body) => "ClickHouse "@ + call.word() + " failed ("@
            + status + "): "@ + body,
        CsErrorView::DeclaredTooLarge(n) => "ClickHouse response too large: Content-Length "@
            + dec_text(n as nat) + " bytes (max 10485760)"@,
        CsErrorView::TooLarge(n) => "ClickHouse response too large: "@ + dec_text(n as nat)
            + " bytes (max 10485760)"@,
        CsErrorView::Read(m) => "read response: "@ + m,
        CsErrorView::Parse(m) => "parse response: "@ + m,
    }
}

impl ColumnStoreError {
    /// The text of the error.
    pub fn message(&self) -> (m: String)
        ensures
            m@ == error_text(self@),
    {
        match self {
            ColumnStoreError::Serialize(e) => {
                let mut m = String::from_str("serialize: ");
                m.append(e.as_str());
                m
            },
            ColumnStoreError::Network(e) => {
                let mut m = String::from_str("network: ");
                m.append(e.as_str());
                m
            },
            ColumnStoreError::Status(call, status, body) => {
                let mut m = String::from_str("ClickHouse ");
                m.append(call.word_str());
                m.append(" failed (");
                m.append(status.as_str());
                m.append("): ");
                m.append(body.as_str());
                m
            },
            ColumnStoreError::DeclaredTooLarge(n) => {
                let mut m = String::from_str("ClickHouse response too large: Content-Length ");
                push_decimal(&mut m, *n);
                m.append(" bytes (max 10485760)");
                m
            },
            ColumnStoreError::TooLarge(n) => {
                let mut m = String::from_str("ClickHouse response too large: ");
                push_decimal(&mut m, *n as u64);
                m.append(" bytes (max 10485760)");
                m
            },
            ColumnStoreError::Read(e) => {
                let mut m = String::from_str("read response: ");
                m.append(e.as_str());
                m
            },
            ColumnStoreError::Parse(e) => {
                let mut m = String::from_str("parse response: ");
                m.append(e.as_str());
                m
            },
        }
    }
}

/// Where a call to the column store stands.
#[derive(Debug)]
pub enum CallState {
    /// The request has been sent.
    Sent,
    /// The status was no success; the body is being read for the error.
    Refused(String),
    /// The body of a query's answer is being read.
    Reading,
    /// The call is over.
    Done,
}

/// What the transport reports back.
#[derive(Debug)]
pub enum CallEvent {
    /// Sending failed, with the transport's message.
    SendFailed(String),
    /// The head of the response: whether the status is a success, the status
    /// as text, and the declared length, if any.
    Head(bool, String, Option<u64>),
    /// The body of a refusal as text; empty where it could not be read.
    ErrorBody(String),
    /// Reading the body failed, with the transport's message.
    ReadFailed(String),
    /// The body.
    Body(Vec<u8>),
}

/// A `CallEvent` as plain values.
pub enum CallEventView {
    SendFailed(Seq<char>),
    Head(bool, Seq<char>, Option<u64>),
    ErrorBody(Seq<char>),
    ReadFailed(Seq<char>),
    Body(Seq<u8>),
}

impl View for CallEvent {
    type V = CallEventView;

    open spec fn view(&self) -> CallEventView {
        match self {
            CallEvent::SendFailed(m) => CallEventView::SendFailed(m@),
            CallEvent::Head(ok, s, n) => CallEventView::Head(*ok, s@, *n),
            CallEvent::ErrorBody(b) => CallEventView::ErrorBody(b@),
            CallEvent::ReadFailed(m) => CallEventView::ReadFailed(m@),
            CallEvent::Body(b) => CallEventView::Body(b@),
        }
    }
}

/// A `CallState` as plain values.
pub enum CallStateView {
    Sent,
    Refused(Seq<char>),
    Reading,
    Done,
}

impl View for CallState {
    type V = CallStateView;

    open spec fn view(&self) -> CallStateView {
        match self {
            CallState::Sent => CallStateView::Sent,
            CallState::Refused(s) => CallStateView::Refused(s@),
            CallState::Reading => CallStateView::Reading,
            CallState::Done => CallStateView::Done,
        }
    }
}

/// What the transport is to do next.
#[derive(Debug)]
pub enum CallAction {
    /// Read the body as text for the error.
    ReadErrorBody,
    /// Read the body.
    ReadBody,
    /// The call has succeeded; there is nothing to read.
    Succeed,
    /// Parse the body, which a query's answer holds.
    Parse(Vec<u8>),
    /// Fail.
    Fail(ColumnStoreError),
    /// The event does not answer what was asked: nothing is done.
    Halt,
}

/// A `CallAction` as plain values.
pub enum CallActionView {
    ReadErrorBody,
    ReadBody,
    Succeed,
    Parse(Seq<u8>),
    Fail(CsErrorView),
    Halt,
}

impl View for CallAction {
    type V = CallActionView;

    open spec fn view(&self) -> CallActionView {
        match self {
            CallAction::ReadErrorBody => CallActionView::ReadErrorBody,
            CallAction::ReadBody => CallActionView::ReadBody,
            CallAction::Succeed => CallActionView::Succeed,
            CallAction::Parse(b) => CallActionView::Parse(b@),
            CallAction::Fail(e) => CallActionView::Fail(e@),
            CallAction::Halt => CallActionView::Halt,
        }
    }
}

/// Whether a response of this many bytes is too large to accept.
pub open spec fn too_large(len: int) -> bool {
    len > 10 * 1024 * 1024
}

/// One step of a call: the next state and what is to be done. A status that
/// is no success fails the call with the body as its reason. An insert and a
/// delete are over with a success status. The answer of a query is refused
/// where it declares or has more than `MAX_RESPONSE_SIZE` bytes, the first
/// before its body is read.
pub open spec fn call_effect(call: CsCall, state: CallStateView, event: CallEventView) -> (
    CallStateView,
    CallActionView,
) {
    match (state, event) {
        (CallStateView::Sent, CallEventView::SendFailed(m)) => (
            CallStateView::Done,
            CallActionView::Fail(CsErrorView::Network(m)),
        ),
        (CallStateView::Sent, CallEventView::Head(ok, status, declared)) => if !ok {
            (CallStateView::Refused(status), CallActionView::ReadErrorBody)
        } else if call != CsCall::Query {
            (CallStateView::Done, CallActionView::Succeed)
        } else if declared is Some && too_large(declared->0 as int) {
            (
                CallStateView::Done,
                CallActionView::Fail(CsErrorView::DeclaredTooLarge(declared->0)),
            )
        } else {
            (CallStateView::Reading, CallActionView::ReadBody)
        },
        (CallStateView::Refused(status), CallEventView::ErrorBody(body)) => (
            CallStateView::Done,
            CallActionView::Fail(CsErrorView::Status(call, status, body)),
        ),
        (CallStateView::Reading, CallEventView::ReadFailed(m)) => (
            CallStateView::Done,
            CallActionView::Fail(CsErrorView::Read(m)),
        ),
        (CallStateView::Reading, CallEventView::Body(bytes)) => if too_large(bytes.len() as int) {
            (
                CallStateView::Done,
                CallActionView::Fail(CsErrorView::TooLarge(bytes.len() as usize)),
            )
        } else {
            (CallStateView::Done, CallActionView::Parse(bytes))
        },
        _ => (state, CallActionView::Halt),
    }
}

/// Takes one step of a call to the column store.
pub fn call_step(call: CsCall, state: CallState, event: CallEvent) -> (r: (CallState, CallAction))
    ensures
        (r.0@, r.1@) == call_effect(call, state@, event@),
{
    match (state, event) {
        (CallState::Sent, CallEvent::SendFailed(m)) => (
            CallState::Done,
            CallAction::Fail(ColumnStoreError::Network(m)),
        ),
        (CallState::Sent, CallEvent::Head(ok, status, declared)) => {
            if !ok {
                (CallState::Refused(status), CallAction::ReadErrorBody)
            } else {
                match call {
                    CsCall::Query => {
                        match declared {
                            Some(n) => {
                                if n > MAX_RESPONSE_SIZE as u64 {
                                    return (
                                        CallState::Done,
                                        CallAction::Fail(ColumnStoreError::DeclaredTooLarge(n)),
                                    );
                                }
                            },
                            None => {},
                        }
                        (CallState::Reading, CallAction::ReadBody)
                    },
                    _ => (CallState::Done, CallAction::Succeed),
                }
            }
        },
        (CallState::Refused(status), CallEvent::ErrorBody(body)) => (
            CallState::Done,
            CallAction::Fail(ColumnStoreError::Status(call, status, body)),
        ),
        (CallState::Reading, CallEvent::ReadFailed(m)) => (
            CallState::Done,
            CallAction::Fail(ColumnStoreError::Read(m)),
        ),
        (CallState::Reading, CallEvent::Body(bytes)) => {
            if bytes.len() > MAX_RESPONSE_SIZE {
                let n: usize = bytes.len();
                (CallState::Done, CallAction::Fail(ColumnStoreError::TooLarge(n)))
            } else {
                (CallState::Done, CallAction::Parse(bytes))
            }
        },
        (state, _) => (state, CallAction::Halt),
    }
}

/// Whether a ping found the column store: it answered, with a success status.
pub fn ping(outcome: Option<bool>) -> (reachable: bool)
    ensures
        reachable == (outcome == Some(true)),
{
    match outcome {
        Some(ok) => ok,
        None => false,
    }
}

/// The rows that follow a delivered batch into the column store; `None` where
/// nothing is written. `permit` says whether one of the
/// `CS_MAX_CONCURRENT_WRITES` permits was free: without one the batch is
/// dropped, so that the column store never holds up ingestion. `info` is the
/// slug's cached endpoint: without it the rows would lack their metadata, and
/// nothing is written.
pub fn dual_write_rows(
    permit: bool,
    info: Option<&EndpointInfo>,
    slug: &str,
    batch: &Vec<BufferedRequest>,
) -> (rows: Option<Vec<ClickHouseRequest>>)
    ensures
        rows is Some == (permit && info is Some),
        rows matches Some(r) ==> {
            &&& r@.len() == batch@.len()
            &&& forall|i: int|
                0 <= i < r@.len() ==> (#[trigger] r@[i])@ == buffered_row(
                    batch@[i]@,
                    slug@,
                    *info->0,
                )
        },
{
    if !permit {
        return None;
    }
    match info {
        Some(ep) => Some(rows_of(batch, slug, ep)),
        None => None,
    }
}

} // verus!
