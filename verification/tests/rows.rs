use webhooks_receiver::column_store::dual_write_rows;
use webhooks_receiver::rows::{
    ClickHouseRequest, ClickHouseResponseRow, SearchResultRequest,
};
use webhooks_receiver::string_map::StringMap;
use webhooks_receiver::types::{BufferedRequest, EndpointInfo};

fn info() -> EndpointInfo {
    EndpointInfo {
        endpoint_id: "e1".to_string(),
        user_id: Some("u1".to_string()),
        is_ephemeral: true,
        expires_at: None,
        mock_response: None,
        error: String::new(),
    }
}

fn buffered() -> BufferedRequest {
    let mut headers = StringMap::new();
    headers.insert("x-first".to_string(), "1".to_string());
    headers.insert("Content-Type".to_string(), "application/json".to_string());
    headers.insert("content-type".to_string(), "text/plain".to_string());
    headers.insert("x-quote".to_string(), "say \"hi\"\n".to_string());
    let mut query = StringMap::new();
    query.insert("a".to_string(), "b".to_string());
    BufferedRequest {
        method: "POST".to_string(),
        path: "/x".to_string(),
        headers,
        body: "h\u{e9}llo".to_string(),
        query_params: query,
        ip: "1.2.3.4".to_string(),
        received_at: -1,
    }
}

#[test]
fn row_is_made_of_request_and_endpoint() {
    let row = ClickHouseRequest::from_buffered(&buffered(), "abc", &info());
    assert_eq!(row.endpoint_id, "e1");
    assert_eq!(row.slug, "abc");
    assert_eq!(row.user_id, "u1");
    assert_eq!(row.method, "POST");
    assert_eq!(row.path, "/x");
    assert_eq!(
        row.headers,
        "{\"x-first\":\"1\",\"Content-Type\":\"application/json\",\"content-type\":\"text/plain\",\"x-quote\":\"say \\\"hi\\\"\\n\"}"
    );
    assert_eq!(row.body, "h\u{e9}llo");
    assert_eq!(row.query_params, "{\"a\":\"b\"}");
    assert_eq!(row.ip, "1.2.3.4");
    assert_eq!(row.content_type, "application/json");
    assert_eq!(row.size, 6);
    assert!(row.is_ephemeral);
    assert_eq!(row.received_at, "-1.999");
}

#[test]
fn row_of_an_endpoint_without_user_has_an_empty_user() {
    let mut anonymous = info();
    anonymous.user_id = None;
    let mut req = buffered();
    req.headers = StringMap::new();
    req.query_params = StringMap::new();
    req.body = String::new();
    req.received_at = 1739800496789;
    let row = ClickHouseRequest::from_buffered(&req, "abc", &anonymous);
    assert_eq!(row.user_id, "");
    assert_eq!(row.content_type, "");
    assert_eq!(row.headers, "{}");
    assert_eq!(row.query_params, "{}");
    assert_eq!(row.size, 0);
    assert_eq!(row.received_at, "1739800496.789");
}

#[test]
fn row_from_parts_takes_the_json_as_given() {
    let row = ClickHouseRequest::from_parts(
        &buffered(),
        "abc",
        &info(),
        "H".to_string(),
        "Q".to_string(),
    );
    assert_eq!(row.headers, "H");
    assert_eq!(row.query_params, "Q");
    assert_eq!(row.content_type, "application/json");
}

#[test]
fn dual_write_needs_a_permit_and_the_cached_endpoint() {
    let batch = vec![buffered(), buffered()];
    let endpoint = info();
    assert!(dual_write_rows(false, Some(&endpoint), "abc", &batch).is_none());
    assert!(dual_write_rows(true, None, "abc", &batch).is_none());
    let rows = dual_write_rows(true, Some(&endpoint), "abc", &batch).expect("rows");
    assert_eq!(rows.len(), 2);
    assert_eq!(rows[1].slug, "abc");
    assert_eq!(rows[1].endpoint_id, "e1");
}

fn response_row() -> ClickHouseResponseRow {
    ClickHouseResponseRow {
        endpoint_id: "e1".to_string(),
        slug: "abc".to_string(),
        user_id: "u1".to_string(),
        method: "POST".to_string(),
        path: "/x".to_string(),
        headers: "{\"a\":\"b\"}".to_string(),
        body: "hi".to_string(),
        query_params: "{}".to_string(),
        ip: "1.2.3.4".to_string(),
        content_type: "text/plain".to_string(),
        size: 2,
        is_ephemeral: false,
        received_at: "2026-02-17 12:34:56.789".to_string(),
    }
}

#[test]
fn search_result_is_made_of_a_row() {
    let r = SearchResultRequest::from_row(&response_row());
    assert_eq!(r.received_at, 1771331696789);
    assert_eq!(r.id, "abc:1771331696789:71650394e9cfa4de");
    assert_eq!(r.slug, "abc");
    assert_eq!(r.method, "POST");
    assert_eq!(r.path, "/x");
    assert_eq!(r.headers.entries(), &vec![("a".to_string(), "b".to_string())]);
    assert_eq!(r.body.as_deref(), Some("hi"));
    assert!(r.query_params.entries().is_empty());
    assert_eq!(r.content_type.as_deref(), Some("text/plain"));
    assert_eq!(r.ip, "1.2.3.4");
    assert_eq!(r.size, 2);
}

#[test]
fn search_result_reads_what_it_can() {
    let mut row = response_row();
    row.headers = "not json".to_string();
    row.query_params = "{\"n\":1}".to_string();
    row.body = String::new();
    row.content_type = String::new();
    row.received_at = "never".to_string();
    let r = SearchResultRequest::from_row(&row);
    assert!(r.headers.entries().is_empty());
    assert!(r.query_params.entries().is_empty());
    assert_eq!(r.body, None);
    assert_eq!(r.content_type, None);
    assert_eq!(r.received_at, 0);
    assert!(r.id.starts_with("abc:0:"));
    assert_eq!(r.id.len(), "abc:0:".len() + 16);
}

#[test]
fn search_result_keeps_the_last_of_two_equal_keys_and_orders_by_key() {
    let mut row = response_row();
    row.headers = "{\"b\":\"1\",\"a\":\"2\",\"b\":\"3\"}".to_string();
    let r = SearchResultRequest::from_parts(&row, 5);
    assert_eq!(
        r.headers.entries(),
        &vec![("a".to_string(), "2".to_string()), ("b".to_string(), "3".to_string())]
    );
    assert_eq!(r.received_at, 5);
    assert!(r.id.starts_with("abc:5:"));
}
