//! The search endpoint: the query that it builds for the column store, and
//! what it replies.

use vstd::prelude::*;
use vstd::string::*;
use vstd::utf8::*;
use crate::auth::{token_accepted, verify_bearer_token};
use crate::slug::{is_valid_slug, valid_slug_bytes};
use crate::sql::{
    escaped_text, lemma_literal_closes, literal_end, push_escaped, push_table, table_text,
};
use crate::text::{dec_text, push_char, push_decimal, push_int, push_pad3, str_eq};
use crate::timestamp::ch_decimal_text;

verus! {

/// The rows of a page where the query names no limit.
pub const DEFAULT_LIMIT: u32 = 50;

/// The most rows of a page.
pub const MAX_LIMIT: u32 = 200;

/// The most rows that a query may skip.
pub const MAX_OFFSET: u32 = 10000;

/// Seconds after which a search query is given up.
pub const SEARCH_TIMEOUT_SECS: u64 = 5;

/// The condition that keeps a free plan's search within its retention.
pub const FREE_RETENTION_CLAUSE: &'static str = "received_at >= now() - INTERVAL 7 DAY";

/// The parameters of a search.
#[derive(Clone, Debug)]
pub struct SearchParams {
    pub user_id: String,
    pub plan: Option<String>,
    pub slug: Option<String>,
    pub method: Option<String>,
    pub q: Option<String>,
    /// Epoch milliseconds from which rows are wanted.
    pub from: Option<i64>,
    /// Epoch milliseconds up to which rows are wanted.
    pub to: Option<i64>,
    pub limit: Option<u32>,
    pub offset: Option<u32>,
    pub order: Option<String>,
}

/// Why no query was built.
#[derive(Clone, Copy, Debug, PartialEq, Eq, Structural)]
pub enum SearchSqlError {
    /// The plan is neither `free` nor `pro`.
    InvalidPlan,
    /// The slug is malformed.
    InvalidSlug,
}

/// The view of an optional string.
pub open spec fn opt_text(s: Option<String>) -> Option<Seq<char>> {
    match s {
        Some(t) => Some(t@),
        None => None,
    }
}

/// Whether a plan is one that searches are made for.
pub open spec fn known_plan(plan: Option<Seq<char>>) -> bool {
    match plan {
        Some(p) => p == "free"@ || p == "pro"@,
        None => true,
    }
}

/// The retention condition of a plan: the free plan's searches reach back
/// seven days, the pro plan's and those without a plan are not limited.
pub fn free_retention_clause_for_plan(plan: Option<&str>) -> (r: Result<
    Option<&'static str>,
    SearchSqlError,
>)
    ensures
        match plan {
            Some(p) => if p@ == "free"@ {
                r matches Ok(Some(c)) && c@ == FREE_RETENTION_CLAUSE@
            } else if p@ == "pro"@ {
                r == Ok::<Option<&'static str>, SearchSqlError>(None)
            } else {
                r == Err::<Option<&'static str>, SearchSqlError>(SearchSqlError::InvalidPlan)
            },
            None => r == Ok::<Option<&'static str>, SearchSqlError>(None),
        },
{
    match plan {
        Some(p) => {
            if str_eq(p, "free") {
                Ok(Some(FREE_RETENTION_CLAUSE))
            } else if str_eq(p, "pro") {
                Ok(None)
            } else {
                Err(SearchSqlError::InvalidPlan)
            }
        },
        None => Ok(None),
    }
}

/// A condition that follows the first one.
pub open spec fn and_also(condition: Seq<char>) -> Seq<char> {
    " AND "@ + condition
}

/// The condition on the plan, if the plan has one.
pub open spec fn plan_part(plan: Option<Seq<char>>) -> Seq<char> {
    if plan == Some("free"@) {
        and_also(FREE_RETENTION_CLAUSE@)
    } else {
        Seq::empty()
    }
}

/// The condition on the slug, if one is asked for.
pub open spec fn slug_part(slug: Option<Seq<char>>) -> Seq<char> {
    match slug {
        Some(s) => and_also("slug = '"@ + escaped_text(s) + "'"@),
        None => Seq::empty(),
    }
}

/// The condition on the method, if one other than `ALL` is asked for.
pub open spec fn method_part(method: Option<Seq<char>>) -> Seq<char> {
    match method {
        Some(m) => if m == "ALL"@ {
            Seq::empty()
        } else {
            and_also("method = '"@ + escaped_text(m) + "'"@)
        },
        None => Seq::empty(),
    }
}

/// The condition that finds `q` as a substring of the path, the body or the
/// headers, if a text is asked for.
pub open spec fn query_part(q: Option<Seq<char>>) -> Seq<char> {
    match q {
        Some(t) => if t.len() == 0 {
            Seq::empty()
        } else {
            and_also(
                "(multiSearchAny(path, ['"@ + escaped_text(t) + "']) OR multiSearchAny(body, ['"@
                    + escaped_text(t) + "']) OR multiSearchAny(headers, ['"@ + escaped_text(t)
                    + "']))"@,
            )
        },
        None => Seq::empty(),
    }
}

/// A bound on the time of receipt, if one is asked for; `op` is `>=` or `<=`.
pub open spec fn time_part(op: Seq<char>, bound: Option<i64>) -> Seq<char> {
    match bound {
        Some(ms) => and_also(
            "received_at "@ + op + " toDateTime64('"@ + ch_decimal_text(ms as int)
                + "', 3, 'UTC')"@,
        ),
        None => Seq::empty(),
    }
}

/// The rows of a page: 50 where none is named, and never more than 200.
pub open spec fn page_limit(limit: Option<u32>) -> u32 {
    match limit {
        Some(n) => if n < 200 {
            n
        } else {
            200
        },
        None => 50,
    }
}

/// The rows to skip: none where none is named, and never more than 10000.
pub open spec fn page_offset(offset: Option<u32>) -> u32 {
    match offset {
        Some(n) => if n < 10000 {
            n
        } else {
            10000
        },
        None => 0,
    }
}

/// The order of the rows: ascending for `asc`, descending for anything else.
pub open spec fn order_text(order: Option<Seq<char>>) -> Seq<char> {
    if order == Some("asc"@) {
        "ASC"@
    } else {
        "DESC"@
    }
}

/// What stands in a query before the text of the user: the columns, the
/// table, and the start of the first condition.
pub open spec fn before_user(db: Seq<char>) -> Seq<char> {
    "SELECT endpoint_id, slug, user_id, method, path, headers, body, query_params, ip, content_type, size, is_ephemeral, received_at FROM "@
        + table_text(db) + " WHERE user_id = '"@
}

/// The conditions that follow the one on the user, each after an `AND`.
pub open spec fn conditions_text(params: SearchParams) -> Seq<char> {
    plan_part(opt_text(params.plan)) + slug_part(opt_text(params.slug)) + method_part(
        opt_text(params.method),
    ) + query_part(opt_text(params.q)) + time_part(">="@, params.from) + time_part(
        "<="@,
        params.to,
    )
}

/// The order and the page of a search.
pub open spec fn page_text(params: SearchParams) -> Seq<char> {
    " ORDER BY received_at "@ + order_text(opt_text(params.order)) + " LIMIT "@ + dec_text(
        page_limit(params.limit) as nat,
    ) + " OFFSET "@ + dec_text(page_offset(params.offset) as nat)
}

/// What stands in a query after the literal of the user.
pub open spec fn after_user(params: SearchParams) -> Seq<char> {
    conditions_text(params) + page_text(params)
}

/// The query of a search in database `db`: the rows of the user that meet
/// all the conditions, in the order and on the page that are asked for.
pub open spec fn search_sql_text(params: SearchParams, db: Seq<char>) -> Seq<char> {
    before_user(db) + escaped_text(params.user_id@) + seq!['\''] + after_user(params)
}

/// Why a search has no query, if it has none: an unknown plan, else a
/// malformed slug.
pub open spec fn search_error(params: SearchParams) -> Option<SearchSqlError> {
    if !known_plan(opt_text(params.plan)) {
        Some(SearchSqlError::InvalidPlan)
    } else if params.slug matches Some(s) && !valid_slug_bytes(encode_utf8(s@)) {
        Some(SearchSqlError::InvalidSlug)
    } else {
        None
    }
}

fn push_time(sql: &mut String, op: &str, bound: Option<i64>)
    ensures
        final(sql)@ == old(sql)@ + time_part(op@, bound),
{
    match bound {
        Some(ms) => {
            let q: i64 = ms / 1000;
            let m: i64 = ms % 1000;
            let (secs, sub): (i64, i64) = if m < 0 {
                (q - 1, m + 1000)
            } else {
                (q, m)
            };
            sql.append(" AND ");
            sql.append("received_at ");
            sql.append(op);
            sql.append(" toDateTime64('");
            push_int(sql, secs);
            push_char(sql, '.');
            push_pad3(sql, sub as u16);
            sql.append("', 3, 'UTC')");
            assert(sql@ =~= old(sql)@ + time_part(op@, bound));
        },
        None => {
            assert(sql@ =~= old(sql)@ + time_part(op@, bound));
        },
    }
}

fn push_quoted_condition(sql: &mut String, column_eq: &str, value: &str)
    ensures
        final(sql)@ == old(sql)@ + and_also(column_eq@ + escaped_text(value@) + "'"@),
{
    sql.append(" AND ");
    sql.append(column_eq);
    push_escaped(sql, value);
    sql.append("'");
    assert(sql@ =~= old(sql)@ + and_also(column_eq@ + escaped_text(value@) + "'"@));
}

fn push_query(sql: &mut String, q: &str)
    requires
        q@.len() > 0,
    ensures
        final(sql)@ == old(sql)@ + query_part(Some(q@)),
{
    sql.append(" AND ");
    sql.append("(multiSearchAny(path, ['");
    push_escaped(sql, q);
    sql.append("']) OR multiSearchAny(body, ['");
    push_escaped(sql, q);
    sql.append("']) OR multiSearchAny(headers, ['");
    push_escaped(sql, q);
    sql.append("']))");
    assert(sql@ =~= old(sql)@ + query_part(Some(q@)));
}

fn push_plan(sql: &mut String, plan: &Option<String>) -> (r: Result<(), SearchSqlError>)
    ensures
        known_plan(opt_text(*plan)) ==> r is Ok && final(sql)@ == old(sql)@ + plan_part(
            opt_text(*plan),
        ),
        !known_plan(opt_text(*plan)) ==> r == Err::<(), SearchSqlError>(
            SearchSqlError::InvalidPlan,
        ),
{
    let name: Option<&str> = match plan {
        Some(p) => Some(p.as_str()),
        None => None,
    };
    match free_retention_clause_for_plan(name) {
        Ok(Some(clause)) => {
            sql.append(" AND ");
            sql.append(clause);
            assert(sql@ =~= old(sql)@ + plan_part(opt_text(*plan)));
            Ok(())
        },
        Ok(None) => {
            assert(sql@ =~= old(sql)@ + plan_part(opt_text(*plan)));
            Ok(())
        },
        Err(e) => Err(e),
    }
}

fn push_slug(sql: &mut String, slug: &Option<String>) -> (r: Result<(), SearchSqlError>)
    ensures
        match slug {
            Some(s) => if valid_slug_bytes(encode_utf8(s@)) {
                r is Ok && final(sql)@ == old(sql)@ + slug_part(opt_text(*slug))
            } else {
                r == Err::<(), SearchSqlError>(SearchSqlError::InvalidSlug)
            },
            None => r is Ok && final(sql)@ == old(sql)@ + slug_part(opt_text(*slug)),
        },
{
    match slug {
        Some(s) => {
            if !is_valid_slug(s.as_str()) {
                return Err(SearchSqlError::InvalidSlug);
            }
            push_quoted_condition(sql, "slug = '", s.as_str());
            Ok(())
        },
        None => {
            assert(sql@ =~= old(sql)@ + slug_part(opt_text(*slug)));
            Ok(())
        },
    }
}

fn push_method(sql: &mut String, method: &Option<String>)
    ensures
        final(sql)@ == old(sql)@ + method_part(opt_text(*method)),
{
    match method {
        Some(m) => {
            if !str_eq(m.as_str(), "ALL") {
                push_quoted_condition(sql, "method = '", m.as_str());
            } else {
                assert(sql@ =~= old(sql)@ + method_part(opt_text(*method)));
            }
        },
        None => {
            assert(sql@ =~= old(sql)@ + method_part(opt_text(*method)));
        },
    }
}

fn push_text_search(sql: &mut String, q: &Option<String>)
    ensures
        final(sql)@ == old(sql)@ + query_part(opt_text(*q)),
{
    match q {
        Some(t) => {
            if !t.as_str().is_empty() {
                push_query(sql, t.as_str());
            } else {
                assert(sql@ =~= old(sql)@ + query_part(opt_text(*q)));
            }
        },
        None => {
            assert(sql@ =~= old(sql)@ + query_part(opt_text(*q)));
        },
    }
}

fn push_conditions(sql: &mut String, params: &SearchParams) -> (r: Result<(), SearchSqlError>)
    ensures
        match search_error(*params) {
            Some(e) => r == Err::<(), SearchSqlError>(e),
            None => r is Ok && final(sql)@ == old(sql)@ + conditions_text(*params),
        },
{
    let ghost start = sql@;
    match push_plan(sql, &params.plan) {
        Ok(()) => {},
        Err(e) => {
            return Err(e);
        },
    }
    let ghost w1 = plan_part(opt_text(params.plan));
    match push_slug(sql, &params.slug) {
        Ok(()) => {},
        Err(e) => {
            return Err(e);
        },
    }
    let ghost w2 = w1 + slug_part(opt_text(params.slug));
    proof {
        lemma_append_assoc(start, w1, slug_part(opt_text(params.slug)));
    }
    push_method(sql, &params.method);
    let ghost w3 = w2 + method_part(opt_text(params.method));
    proof {
        lemma_append_assoc(start, w2, method_part(opt_text(params.method)));
    }
    push_text_search(sql, &params.q);
    let ghost w4 = w3 + query_part(opt_text(params.q));
    proof {
        lemma_append_assoc(start, w3, query_part(opt_text(params.q)));
    }
    push_time(sql, ">=", params.from);
    let ghost w5 = w4 + time_part(">="@, params.from);
    proof {
        lemma_append_assoc(start, w4, time_part(">="@, params.from));
    }
    push_time(sql, "<=", params.to);
    proof {
        lemma_append_assoc(start, w5, time_part("<="@, params.to));
        assert(conditions_text(*params) == w5 + time_part("<="@, params.to));
    }
    Ok(())
}

proof fn lemma_append_assoc(a: Seq<char>, b: Seq<char>, c: Seq<char>)
    ensures
        (a + b) + c == a + (b + c),
{
    assert((a + b) + c =~= a + (b + c));
}

fn push_page(sql: &mut String, params: &SearchParams)
    ensures
        final(sql)@ == old(sql)@ + page_text(*params),
{
    let limit: u32 = match params.limit {
        Some(n) => if n < MAX_LIMIT {
            n
        } else {
            MAX_LIMIT
        },
        None => DEFAULT_LIMIT,
    };
    let offset: u32 = match params.offset {
        Some(n) => if n < MAX_OFFSET {
            n
        } else {
            MAX_OFFSET
        },
        None => 0,
    };
    let ascending = match &params.order {
        Some(o) => str_eq(o.as_str(), "asc"),
        None => false,
    };
    sql.append(" ORDER BY received_at ");
    if ascending {
        sql.append("ASC");
    } else {
        sql.append("DESC");
    }
    sql.append(" LIMIT ");
    push_decimal(sql, limit as u64);
    sql.append(" OFFSET ");
    push_decimal(sql, offset as u64);
    assert(sql@ =~= old(sql)@ + page_text(*params));
}

fn query_head(db: &str) -> (sql: String)
    ensures
        sql@ == before_user(db@),
{
    let mut sql = String::from_str(
        "SELECT endpoint_id, slug, user_id, method, path, headers, body, query_params, ip, content_type, size, is_ephemeral, received_at FROM ",
    );
    push_table(&mut sql, db);
    sql.append(" WHERE user_id = '");
    sql
}

/// Builds the query of a search. Every text that the caller supplies stands
/// escaped inside a quoted string literal; the numbers are bounded.
pub fn build_search_sql(params: &SearchParams, db: &str) -> (r: Result<String, SearchSqlError>)
    ensures
        match search_error(*params) {
            Some(e) => r == Err::<String, SearchSqlError>(e),
            None => r matches Ok(sql) && sql@ == search_sql_text(*params, db@),
        },
{
    let mut sql = query_head(db);
    push_escaped(&mut sql, params.user_id.as_str());
    push_char(&mut sql, '\'');
    let ghost head = sql@;
    match push_conditions(&mut sql, params) {
        Ok(()) => {},
        Err(e) => {
            return Err(e);
        },
    }
    push_page(&mut sql, params);
    proof {
        lemma_append_assoc(head, conditions_text(*params), page_text(*params));
    }
    Ok(sql)
}

/// A text that is empty or begins with a space: what follows a literal in a
/// query is such a text, and so begins with no quote.
pub open spec fn spaced(s: Seq<char>) -> bool {
    s.len() == 0 || s[0] == ' '
}

proof fn lemma_parts_spaced(params: SearchParams)
    ensures
        spaced(plan_part(opt_text(params.plan))),
        spaced(slug_part(opt_text(params.slug))),
        spaced(method_part(opt_text(params.method))),
        spaced(query_part(opt_text(params.q))),
        spaced(time_part(">="@, params.from)),
        spaced(time_part("<="@, params.to)),
        " ORDER BY received_at "@.len() > 0,
        " ORDER BY received_at "@[0] == ' ',
{
    reveal_strlit(" AND ");
    reveal_strlit(" ORDER BY received_at ");
}

proof fn lemma_spaced_concat(a: Seq<char>, b: Seq<char>)
    requires
        spaced(a),
        spaced(b),
    ensures
        spaced(a + b),
        b.len() > 0 ==> (a + b).len() > 0,
{
}

/// The text of the user stands in its literal. In every query that is built,
/// the literal that begins after `user_id = '` ends at the quote that the
/// builder wrote after the escaped text, whatever the text holds.
pub proof fn lemma_user_literal_closes(params: SearchParams, db: Seq<char>)
    ensures
        literal_end(search_sql_text(params, db), before_user(db).len() as int) == Some(
            (before_user(db).len() + escaped_text(params.user_id@).len()) as int,
        ),
{
    let p0 = plan_part(opt_text(params.plan));
    let p1 = slug_part(opt_text(params.slug));
    let p2 = method_part(opt_text(params.method));
    let p3 = query_part(opt_text(params.q));
    let p4 = time_part(">="@, params.from);
    let p5 = time_part("<="@, params.to);
    lemma_parts_spaced(params);
    lemma_spaced_concat(p0, p1);
    lemma_spaced_concat(p0 + p1, p2);
    lemma_spaced_concat(p0 + p1 + p2, p3);
    lemma_spaced_concat(p0 + p1 + p2 + p3, p4);
    lemma_spaced_concat(p0 + p1 + p2 + p3 + p4, p5);
    assert(spaced(conditions_text(params)));
    let page = page_text(params);
    assert(page.len() > 0 && page[0] == ' ');
    lemma_spaced_concat(conditions_text(params), page);
    let after = after_user(params);
    assert(after.len() > 0 && after[0] == ' ');
    lemma_literal_closes(params.user_id@, before_user(db), after);
}

/// A condition on a text stands in its literal. Where a condition that ends
/// with a quoted text is followed by a text that begins with no quote, the
/// literal that begins after `opening` ends at the quote that the builder
/// wrote after the escaped text. The conditions on the slug and on the method
/// are made so, and each of the three searches for a text.
pub proof fn lemma_condition_literal_closes(
    before: Seq<char>,
    opening: Seq<char>,
    value: Seq<char>,
    after: Seq<char>,
)
    requires
        after.len() == 0 || after[0] != '\'',
    ensures
        literal_end(
            before + and_also(opening + escaped_text(value) + "'"@) + after,
            (before.len() + 5 + opening.len()) as int,
        ) == Some((before.len() + 5 + opening.len() + escaped_text(value).len()) as int),
{
    reveal_strlit("'");
    reveal_strlit(" AND ");
    assert("'"@ =~= seq!['\'']);
    let head = before + " AND "@ + opening;
    assert(before + and_also(opening + escaped_text(value) + "'"@) + after =~= head + escaped_text(
        value,
    ) + seq!['\''] + after);
    lemma_literal_closes(value, head, after);
}

/// What the search endpoint replies.
#[derive(Clone, Copy, Debug, PartialEq, Eq, Structural)]
pub enum SearchReply {
    /// 401: the token is wrong.
    Unauthorized,
    /// 400: no user is named.
    UserIdRequired,
    /// 503: no column store is configured.
    Unavailable,
    /// 400: the plan is unknown.
    InvalidPlan,
    /// 400: the slug is malformed.
    InvalidSlug,
    /// 500: the column store failed.
    QueryFailed,
    /// 504: the column store did not answer in time.
    TimedOut,
    /// 200, with the rows.
    Rows,
}

impl SearchReply {
    /// The status of the reply.
    pub fn status(&self) -> (code: u16)
        ensures
            code == match self {
                SearchReply::Unauthorized => 401u16,
                SearchReply::UserIdRequired => 400u16,
                SearchReply::Unavailable => 503u16,
                SearchReply::InvalidPlan => 400u16,
                SearchReply::InvalidSlug => 400u16,
                SearchReply::QueryFailed => 500u16,
                SearchReply::TimedOut => 504u16,
                SearchReply::Rows => 200u16,
            },
    {
        match self {
            SearchReply::Unauthorized => 401,
            SearchReply::UserIdRequired => 400,
            SearchReply::Unavailable => 503,
            SearchReply::InvalidPlan => 400,
            SearchReply::InvalidSlug => 400,
            SearchReply::QueryFailed => 500,
            SearchReply::TimedOut => 504,
            SearchReply::Rows => 200,
        }
    }

    /// The value of `error` in the reply's JSON body, for a refusal.
    pub fn error_text(&self) -> (text: Option<&'static str>)
        ensures
            match self {
                SearchReply::Unauthorized => text matches Some(t) && t@ == "unauthorized"@,
                SearchReply::UserIdRequired => text matches Some(t) && t@
                    == "user_id is required"@,
                SearchReply::Unavailable => text matches Some(t) && t@ == "search not available"@,
                SearchReply::InvalidPlan => text matches Some(t) && t@ == "invalid plan"@,
                SearchReply::InvalidSlug => text matches Some(t) && t@ == "invalid slug"@,
                SearchReply::QueryFailed => text matches Some(t) && t@ == "search query failed"@,
                SearchReply::TimedOut => text matches Some(t) && t@ == "search query timed out"@,
                SearchReply::Rows => text is None,
            },
    {
        match self {
            SearchReply::Unauthorized => Some("unauthorized"),
            SearchReply::UserIdRequired => Some("user_id is required"),
            SearchReply::Unavailable => Some("search not available"),
            SearchReply::InvalidPlan => Some("invalid plan"),
            SearchReply::InvalidSlug => Some("invalid slug"),
            SearchReply::QueryFailed => Some("search query failed"),
            SearchReply::TimedOut => Some("search query timed out"),
            SearchReply::Rows => None,
        }
    }
}

/// What a search request is refused with, if it is refused before any query
/// is sent: in this order, a wrong token, no user, no column store, an unknown
/// plan, a malformed slug.
pub open spec fn search_refusal(
    authorization: Seq<char>,
    secret: Seq<char>,
    params: SearchParams,
    column_store: bool,
) -> Option<SearchReply> {
    if !token_accepted(encode_utf8(authorization), secret) {
        Some(SearchReply::Unauthorized)
    } else if params.user_id@.len() == 0 {
        Some(SearchReply::UserIdRequired)
    } else if !column_store {
        Some(SearchReply::Unavailable)
    } else {
        match search_error(params) {
            Some(SearchSqlError::InvalidPlan) => Some(SearchReply::InvalidPlan),
            Some(SearchSqlError::InvalidSlug) => Some(SearchReply::InvalidSlug),
            None => None,
        }
    }
}

/// Decides what becomes of a search request: the query to send to the column
/// store, or the refusal. `authorization` is the value of the request's
/// `Authorization` header, empty where it has none; `column_store` says
/// whether a column store is configured.
pub fn search(
    authorization: &str,
    secret: &str,
    params: &SearchParams,
    column_store: bool,
    db: &str,
) -> (r: Result<String, SearchReply>)
    ensures
        match search_refusal(authorization@, secret@, *params, column_store) {
            Some(reply) => r == Err::<String, SearchReply>(reply),
            None => r matches Ok(sql) && sql@ == search_sql_text(*params, db@),
        },
{
    if !verify_bearer_token(authorization, secret) {
        return Err(SearchReply::Unauthorized);
    }
    if params.user_id.as_str().is_empty() {
        return Err(SearchReply::UserIdRequired);
    }
    if !column_store {
        return Err(SearchReply::Unavailable);
    }
    match build_search_sql(params, db) {
        Ok(sql) => Ok(sql),
        Err(SearchSqlError::InvalidPlan) => Err(SearchReply::InvalidPlan),
        Err(SearchSqlError::InvalidSlug) => Err(SearchReply::InvalidSlug),
    }
}

/// The reply to a search whose query was sent: `outcome` is `None` where the
/// column store did not answer within `SEARCH_TIMEOUT_SECS`, else whether it
/// answered with rows.
pub fn search_reply(outcome: Option<bool>) -> (reply: SearchReply)
    ensures
        reply == match outcome {
            Some(true) => SearchReply::Rows,
            Some(false) => SearchReply::QueryFailed,
            None => SearchReply::TimedOut,
        },
{
    match outcome {
        Some(true) => SearchReply::Rows,
        Some(false) => SearchReply::QueryFailed,
        None => SearchReply::TimedOut,
    }
}

} // verus!
