//! The rows of the column store: how a captured request becomes a row, and
//! how a row becomes a search result.

use vstd::prelude::*;
use vstd::string::*;
use vstd::utf8::*;
use crate::digest::{sha256, sha256_digest};
use crate::json::{json_object_entries, json_object_text, read_json_object, write_json_object};
use crate::string_map::{collected, Entries, StringMap};
use crate::text::{
    hex_text, int_text, lower_text, push_char, push_hex, push_int, str_eq, to_ascii_lowercase,
};
use crate::timestamp::{
    ch_decimal_text, datetime_millis, decimal_millis, epoch_ms_to_ch_decimal,
    lemma_decimal_round_trip, parse_ch_decimal, parse_datetime_millis,
};
use crate::types::{BufferedRequest, BufferedRequestView, EndpointInfo};

verus! {

/// A row of a captured request, as it is inserted.
#[derive(Clone, Debug)]
pub struct ClickHouseRequest {
    pub endpoint_id: String,
    pub slug: String,
    pub user_id: String,
    pub method: String,
    pub path: String,
    /// The headers as a JSON object.
    pub headers: String,
    pub body: String,
    /// The query parameters as a JSON object.
    pub query_params: String,
    pub ip: String,
    pub content_type: String,
    /// The bytes of the body, up to the largest `u32`.
    pub size: u32,
    pub is_ephemeral: bool,
    /// The time of receipt as decimal seconds.
    pub received_at: String,
}

/// A `ClickHouseRequest` as plain values.
pub struct RowView {
    pub endpoint_id: Seq<char>,
    pub slug: Seq<char>,
    pub user_id: Seq<char>,
    pub method: Seq<char>,
    pub path: Seq<char>,
    pub headers: Seq<char>,
    pub body: Seq<char>,
    pub query_params: Seq<char>,
    pub ip: Seq<char>,
    pub content_type: Seq<char>,
    pub size: u32,
    pub is_ephemeral: bool,
    pub received_at: Seq<char>,
}

impl View for ClickHouseRequest {
    type V = RowView;

    open spec fn view(&self) -> RowView {
        RowView {
            endpoint_id: self.endpoint_id@,
            slug: self.slug@,
            user_id: self.user_id@,
            method: self.method@,
            path: self.path@,
            headers: self.headers@,
            body: self.body@,
            query_params: self.query_params@,
            ip: self.ip@,
            content_type: self.content_type@,
            size: self.size,
            is_ephemeral: self.is_ephemeral,
            received_at: self.received_at@,
        }
    }
}

/// The value of the first header called `content-type`, in any case of its
/// letters; empty where there is none.
pub open spec fn content_type_of(headers: Entries) -> Seq<char>
    decreases headers.len(),
{
    if headers.len() == 0 {
        Seq::empty()
    } else if lower_text(headers[0].0) == "content-type"@ {
        headers[0].1
    } else {
        content_type_of(headers.drop_first())
    }
}

/// The size of a body as a row holds it.
pub open spec fn body_size(body: Seq<char>) -> u32 {
    if encode_utf8(body).len() <= u32::MAX {
        encode_utf8(body).len() as u32
    } else {
        u32::MAX
    }
}

/// The row of a request of `slug`, whose endpoint is `info`, with the JSON
/// texts of its headers and of its query parameters.
pub open spec fn row_view(
    req: BufferedRequestView,
    slug: Seq<char>,
    info: EndpointInfo,
    headers_json: Seq<char>,
    query_json: Seq<char>,
) -> RowView {
    RowView {
        endpoint_id: info.endpoint_id@,
        slug,
        user_id: match info.user_id {
            Some(u) => u@,
            None => Seq::empty(),
        },
        method: req.method,
        path: req.path,
        headers: headers_json,
        body: req.body,
        query_params: query_json,
        ip: req.ip,
        content_type: content_type_of(req.headers),
        size: body_size(req.body),
        is_ephemeral: info.is_ephemeral,
        received_at: ch_decimal_text(req.received_at as int),
    }
}

/// The row of a request of `slug`, whose endpoint is `info`: its headers and
/// its query parameters stand in it as JSON objects.
pub open spec fn buffered_row(
    req: BufferedRequestView,
    slug: Seq<char>,
    info: EndpointInfo,
) -> RowView {
    row_view(
        req,
        slug,
        info,
        json_object_text(req.headers),
        json_object_text(req.query_params),
    )
}

fn find_content_type(headers: &StringMap) -> (r: String)
    ensures
        r@ == content_type_of(headers@),
{
    let n: usize = headers.len();
    let mut i: usize = 0;
    assert(headers@.skip(0) =~= headers@);
    while i < n
        invariant
            n == headers@.len(),
            i <= n,
            content_type_of(headers@) == content_type_of(headers@.skip(i as int)),
        decreases n - i,
    {
        let lowered = to_ascii_lowercase(headers.key_at(i));
        assert(headers@.skip(i as int)[0] == headers@[i as int]);
        if str_eq(lowered.as_str(), "content-type") {
            return headers.value_at(i).to_owned();
        }
        assert(headers@.skip(i as int).drop_first() =~= headers@.skip(i + 1));
        i += 1;
    }
    String::new()
}

impl ClickHouseRequest {
    /// Makes the row of a request from the request, its slug, its endpoint,
    /// and the JSON texts of its headers and of its query parameters.
    pub fn from_parts(
        req: &BufferedRequest,
        slug: &str,
        info: &EndpointInfo,
        headers_json: String,
        query_json: String,
    ) -> (row: ClickHouseRequest)
        ensures
            row@ == row_view(req@, slug@, *info, headers_json@, query_json@),
    {
        let len: usize = req.body.as_str().as_bytes().len();
        let size: u32 = if len <= u32::MAX as usize {
            len as u32
        } else {
            u32::MAX
        };
        ClickHouseRequest {
            endpoint_id: info.endpoint_id.clone(),
            slug: slug.to_owned(),
            user_id: match &info.user_id {
                Some(u) => u.clone(),
                None => String::new(),
            },
            method: req.method.clone(),
            path: req.path.clone(),
            headers: headers_json,
            body: req.body.clone(),
            query_params: query_json,
            ip: req.ip.clone(),
            content_type: find_content_type(&req.headers),
            size,
            is_ephemeral: info.is_ephemeral,
            received_at: epoch_ms_to_ch_decimal(req.received_at),
        }
    }

    /// Makes the row of a request. The headers and the query parameters are
    /// written as JSON objects.
    pub fn from_buffered(req: &BufferedRequest, slug: &str, info: &EndpointInfo) -> (row:
        ClickHouseRequest)
        ensures
            row@ == buffered_row(req@, slug@, *info),
    {
        let headers_json = write_json_object(req.headers.entries());
        let query_json = write_json_object(req.query_params.entries());
        ClickHouseRequest::from_parts(req, slug, info, headers_json, query_json)
    }
}

/// The rows of a batch: one for each request, in order.
pub fn rows_of(batch: &Vec<BufferedRequest>, slug: &str, info: &EndpointInfo) -> (rows: Vec<
    ClickHouseRequest,
>)
    ensures
        rows@.len() == batch@.len(),
        forall|i: int|
            0 <= i < rows@.len() ==> (#[trigger] rows@[i])@ == buffered_row(
                batch@[i]@,
                slug@,
                *info,
            ),
{
    let mut rows: Vec<ClickHouseRequest> = Vec::new();
    let n: usize = batch.len();
    let mut i: usize = 0;
    while i < n
        invariant
            n == batch@.len(),
            i <= n,
            rows@.len() == i,
            forall|k: int|
                0 <= k < i ==> (#[trigger] rows@[k])@ == buffered_row(
                    batch@[k]@,
                    slug@,
                    *info,
                ),
        decreases n - i,
    {
        rows.push(ClickHouseRequest::from_buffered(&batch[i], slug, info));
        i += 1;
    }
    rows
}

/// A row as the column store hands it back.
#[derive(Clone, Debug)]
pub struct ClickHouseResponseRow {
    pub endpoint_id: String,
    pub slug: String,
    pub user_id: String,
    pub method: String,
    pub path: String,
    pub headers: String,
    pub body: String,
    pub query_params: String,
    pub ip: String,
    pub content_type: String,
    pub size: u32,
    pub is_ephemeral: bool,
    pub received_at: String,
}

/// A captured request as a search hands it out. `received_at` is in epoch
/// milliseconds.
#[derive(Clone, Debug)]
pub struct SearchResultRequest {
    pub id: String,
    pub slug: String,
    pub method: String,
    pub path: String,
    pub headers: StringMap,
    pub body: Option<String>,
    pub query_params: StringMap,
    pub content_type: Option<String>,
    pub ip: String,
    pub size: u32,
    pub received_at: i64,
}

/// The epoch milliseconds that the column store's text of a time stands for:
/// decimal seconds with three decimals, for a time at or after the epoch that
/// an `i64` holds; for any other text a date and time; 0 for a text that is
/// neither.
pub open spec fn received_at_millis(text: Seq<char>) -> int {
    match decimal_millis(text) {
        Some(ms) if 0 <= ms <= i64::MAX => ms,
        _ => match datetime_millis(text) {
            Some(ms) => ms,
            None => 0,
        },
    }
}

/// Reads the column store's text of a time as epoch milliseconds.
pub fn parse_received_at(s: &str) -> (ms: i64)
    ensures
        ms == received_at_millis(s@),
{
    match parse_ch_decimal(s) {
        Some(ms) => {
            if ms >= 0 {
                return ms;
            }
        },
        None => {},
    }
    match parse_datetime_millis(s) {
        Some(ms) => ms,
        None => 0,
    }
}

/// The time of receipt comes back as it was written: the decimal seconds that
/// a row holds for a time at or after the epoch are read as that time.
pub proof fn lemma_received_at_round_trip(m: i64)
    requires
        m >= 0,
    ensures
        received_at_millis(ch_decimal_text(m as int)) == m,
{
    lemma_decimal_round_trip(m as int);
}

/// What is digested for the identifier of a row: method, path, headers, body,
/// query parameters and address, with a zero byte between each two.
pub open spec fn row_digest_input(row: ClickHouseResponseRow) -> Seq<u8> {
    encode_utf8(row.method@) + seq![0u8] + encode_utf8(row.path@) + seq![0u8] + encode_utf8(
        row.headers@,
    ) + seq![0u8] + encode_utf8(row.body@) + seq![0u8] + encode_utf8(row.query_params@) + seq![
        0u8,
    ] + encode_utf8(row.ip@)
}

/// The identifier of a row: its slug, the time of receipt in epoch
/// milliseconds, and the first eight bytes of the digest, read as a
/// little-endian number, in sixteen hexadecimal digits.
pub open spec fn row_id_text(row: ClickHouseResponseRow, received_at: i64) -> Seq<char> {
    row.slug@ + seq![':'] + int_text(received_at as int) + seq![':'] + hex_text(
        sha256(row_digest_input(row)).take(8).reverse(),
    )
}

/// A text, or `None` for an empty one.
pub open spec fn non_empty_text(s: Seq<char>) -> Option<Seq<char>> {
    if s.len() == 0 {
        None
    } else {
        Some(s)
    }
}

/// The entries that a JSON object of strings holds; none for a text that is
/// no such object.
pub open spec fn entries_of_json(text: Seq<char>) -> Entries {
    match json_object_entries(text) {
        Some(e) => collected(e),
        None => Seq::empty(),
    }
}

fn map_of_json(text: &str) -> (m: StringMap)
    ensures
        m@ == entries_of_json(text@),
{
    match read_json_object(text) {
        Some(pairs) => StringMap::from_pairs(&pairs),
        None => StringMap::new(),
    }
}

fn row_id(row: &ClickHouseResponseRow, received_at: i64) -> (id: String)
    ensures
        id@ == row_id_text(*row, received_at),
{
    let mut input: Vec<u8> = Vec::new();
    input.extend_from_slice(row.method.as_str().as_bytes());
    input.push(0);
    input.extend_from_slice(row.path.as_str().as_bytes());
    input.push(0);
    input.extend_from_slice(row.headers.as_str().as_bytes());
    input.push(0);
    input.extend_from_slice(row.body.as_str().as_bytes());
    input.push(0);
    input.extend_from_slice(row.query_params.as_str().as_bytes());
    input.push(0);
    input.extend_from_slice(row.ip.as_str().as_bytes());
    assert(input@ =~= row_digest_input(*row));
    let digest = sha256_digest(input.as_slice());
    let mut low: Vec<u8> = Vec::new();
    let mut i: usize = 8;
    while i > 0
        invariant
            i <= 8,
            digest@.len() == 32,
            low@ == digest@.take(8).reverse().take(8 - i),
        decreases i,
    {
        i -= 1;
        low.push(digest[i]);
        assert(low@ =~= digest@.take(8).reverse().take(8 - i));
    }
    assert(low@ =~= digest@.take(8).reverse());
    let mut id = row.slug.clone();
    push_char(&mut id, ':');
    push_int(&mut id, received_at);
    push_char(&mut id, ':');
    push_hex(&mut id, low.as_slice());
    assert(id@ =~= row_id_text(*row, received_at));
    id
}

impl SearchResultRequest {
    /// Makes a search result of a row and of its time of receipt in epoch
    /// milliseconds.
    pub fn from_parts(row: &ClickHouseResponseRow, received_at: i64) -> (r: SearchResultRequest)
        ensures
            r.id@ == row_id_text(*row, received_at),
            r.slug@ == row.slug@,
            r.method@ == row.method@,
            r.path@ == row.path@,
            r.headers@ == entries_of_json(row.headers@),
            crate::search::opt_text(r.body) == non_empty_text(row.body@),
            r.query_params@ == entries_of_json(row.query_params@),
            crate::search::opt_text(r.content_type) == non_empty_text(row.content_type@),
            r.ip@ == row.ip@,
            r.size == row.size,
            r.received_at == received_at,
    {
        SearchResultRequest {
            id: row_id(row, received_at),
            slug: row.slug.clone(),
            method: row.method.clone(),
            path: row.path.clone(),
            headers: map_of_json(row.headers.as_str()),
            body: if row.body.as_str().is_empty() {
                None
            } else {
                Some(row.body.clone())
            },
            query_params: map_of_json(row.query_params.as_str()),
            content_type: if row.content_type.as_str().is_empty() {
                None
            } else {
                Some(row.content_type.clone())
            },
            ip: row.ip.clone(),
            size: row.size,
            received_at,
        }
    }

    /// Makes a search result of a row.
    pub fn from_row(row: &ClickHouseResponseRow) -> (r: SearchResultRequest)
        ensures
            r.received_at == received_at_millis(row.received_at@),
            r.id@ == row_id_text(*row, r.received_at),
            r.slug@ == row.slug@,
            r.method@ == row.method@,
            r.path@ == row.path@,
            r.headers@ == entries_of_json(row.headers@),
            crate::search::opt_text(r.body) == non_empty_text(row.body@),
            r.query_params@ == entries_of_json(row.query_params@),
            crate::search::opt_text(r.content_type) == non_empty_text(row.content_type@),
            r.ip@ == row.ip@,
            r.size == row.size,
    {
        let received_at = parse_received_at(row.received_at.as_str());
        SearchResultRequest::from_parts(row, received_at)
    }
}

} // verus!
