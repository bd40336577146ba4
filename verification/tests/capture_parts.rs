use webhooks_receiver::capture::{
    buffer_request, build_mock_response, capture_headers, cf_connecting_ip, header_value,
    normalize_path, real_ip, sanitize_ip, CaptureRequest, HeaderLine,
};
use webhooks_receiver::string_map::StringMap;
use webhooks_receiver::types::MockResponse;

fn line(name: &str, value: &str) -> HeaderLine {
    HeaderLine { name: name.to_string(), value: Some(value.to_string()) }
}

fn opaque(name: &str) -> HeaderLine {
    HeaderLine { name: name.to_string(), value: None }
}

#[test]
fn path_gets_a_leading_slash() {
    assert_eq!(normalize_path(""), "/");
    assert_eq!(normalize_path("foo"), "/foo");
    assert_eq!(normalize_path("/foo"), "/foo");
    assert_eq!(normalize_path("//"), "//");
    assert_eq!(normalize_path("a/b"), "/a/b");
}

#[test]
fn first_header_of_a_name_is_read() {
    let headers = vec![line("X-Real-IP", "1.1.1.1"), line("x-real-ip", "2.2.2.2")];
    assert_eq!(header_value(&headers, "x-real-ip"), Some("1.1.1.1"));
    assert_eq!(header_value(&headers, "x-forwarded-for"), None);
    let headers = vec![opaque("x-real-ip"), line("x-real-ip", "2.2.2.2")];
    assert_eq!(header_value(&headers, "x-real-ip"), None);
}

#[test]
fn address_is_kept_only_where_it_looks_like_one() {
    assert_eq!(sanitize_ip("1.2.3.4"), "1.2.3.4");
    assert_eq!(sanitize_ip("[2001:db8::1%25]"), "[2001:db8::1%25]");
    assert_eq!(sanitize_ip("[2001:db8::1%25eth0]"), "");
    assert_eq!(sanitize_ip("ABCDEFabcdef0123456789"), "ABCDEFabcdef0123456789");
    assert_eq!(sanitize_ip("<script>"), "");
    assert_eq!(sanitize_ip("1.2.3.4g"), "");
    assert_eq!(sanitize_ip(""), "");
    assert_eq!(sanitize_ip(&"1".repeat(45)), "1".repeat(45));
    assert_eq!(sanitize_ip(&"1".repeat(46)), "");
}

#[test]
fn client_address_prefers_the_cdn_header() {
    let all = vec![
        line("x-forwarded-for", "9.9.9.9, 8.8.8.8"),
        line("x-real-ip", "7.7.7.7"),
        line("cf-connecting-ip", "1.2.3.4"),
    ];
    assert_eq!(real_ip(&all), "1.2.3.4");
    assert_eq!(real_ip(&all[..2].to_vec()), "7.7.7.7");
    assert_eq!(real_ip(&all[..1].to_vec()), "9.9.9.9");
    assert_eq!(real_ip(&vec![line("x-forwarded-for", "  5.6.7.8  ,1.1.1.1")]), "5.6.7.8");
    assert_eq!(real_ip(&vec![line("x-forwarded-for", "bad host")]), "");
    assert_eq!(real_ip(&Vec::new()), "");
    assert_eq!(real_ip(&vec![line("cf-connecting-ip", "evil<>"), line("x-real-ip", "7.7.7.7")]), "");
}

#[test]
fn dedup_address_is_the_cdn_header_as_it_came() {
    assert_eq!(cf_connecting_ip(&vec![line("cf-connecting-ip", "evil<>")]), "evil<>");
    assert_eq!(cf_connecting_ip(&vec![line("x-real-ip", "7.7.7.7")]), "7.7.7.7");
    assert_eq!(cf_connecting_ip(&vec![opaque("cf-connecting-ip"), line("x-real-ip", "7.7.7.7")]), "7.7.7.7");
    assert_eq!(cf_connecting_ip(&Vec::new()), "");
}

#[test]
fn proxy_headers_are_not_stored() {
    let denied = [
        "accept-encoding",
        "cdn-loop",
        "cf-connecting-ip",
        "cf-ipcountry",
        "cf-ray",
        "cf-visitor",
        "via",
        "x-forwarded-for",
        "x-forwarded-host",
        "x-forwarded-proto",
        "x-real-ip",
        "true-client-ip",
    ];
    let mut headers: Vec<HeaderLine> = denied.iter().map(|n| line(n, "v")).collect();
    headers.push(line("Content-Type", "text/plain"));
    headers.push(opaque("x-binary"));
    headers.push(line("X-Custom", "1"));
    headers.push(line("x-custom", "2"));
    headers.push(line("CF-Ray", "upper"));
    let stored = capture_headers(&headers);
    assert_eq!(
        stored.entries(),
        &vec![
            ("content-type".to_string(), "text/plain".to_string()),
            ("x-custom".to_string(), "2".to_string()),
        ]
    );
}

#[test]
fn buffered_request_holds_what_was_received() {
    let mut query = StringMap::new();
    query.insert("a".to_string(), "1".to_string());
    let req = CaptureRequest {
        method: "PUT".to_string(),
        slug: "abc".to_string(),
        path: "hook".to_string(),
        headers: vec![line("User-Agent", "curl"), line("x-real-ip", "7.7.7.7")],
        query,
        body: vec![b'o', b'k', 0xff],
    };
    let b = buffer_request(&req, 1234);
    assert_eq!(b.method, "PUT");
    assert_eq!(b.path, "/hook");
    assert_eq!(b.headers.entries(), &vec![("user-agent".to_string(), "curl".to_string())]);
    assert_eq!(b.body, "ok\u{fffd}");
    assert_eq!(b.query_params.entries(), &vec![("a".to_string(), "1".to_string())]);
    assert_eq!(b.ip, "7.7.7.7");
    assert_eq!(b.received_at, 1234);
}

fn mock(status: i32, headers: Vec<(&str, &str)>) -> MockResponse {
    let mut map = StringMap::new();
    for (k, v) in headers {
        map.insert(k.to_string(), v.to_string());
    }
    MockResponse { status, body: "body".to_string(), headers: map }
}

#[test]
fn mock_status_falls_back_to_200() {
    assert_eq!(build_mock_response(&mock(418, vec![])).status, 418);
    assert_eq!(build_mock_response(&mock(100, vec![])).status, 100);
    assert_eq!(build_mock_response(&mock(999, vec![])).status, 999);
    assert_eq!(build_mock_response(&mock(99, vec![])).status, 200);
    assert_eq!(build_mock_response(&mock(1000, vec![])).status, 200);
    assert_eq!(build_mock_response(&mock(0, vec![])).status, 200);
    assert_eq!(build_mock_response(&mock(-1, vec![])).status, 200);
    assert_eq!(build_mock_response(&mock(70000, vec![])).status, 200);
    assert_eq!(build_mock_response(&mock(i32::MAX, vec![])).status, 200);
}

#[test]
fn mock_headers_are_filtered() {
    let long_key = "k".repeat(257);
    let ok_key = "k".repeat(256);
    let long_value = "v".repeat(8193);
    let ok_value = "v".repeat(8192);
    let reply = build_mock_response(&mock(
        200,
        vec![
            ("X-Mock", "1"),
            ("Set-Cookie", "x=y"),
            ("STRICT-TRANSPORT-SECURITY", "max-age=1"),
            ("content-security-policy", "x"),
            ("X-Frame-Options", "DENY"),
            ("x-injected", "a\r\nb: c"),
            ("x-line", "a\nb"),
            ("bad\rname", "v"),
            (&long_key, "v"),
            (&ok_key, "v"),
            ("x-long", &long_value),
            ("x-ok", &ok_value),
        ],
    ));
    let names: Vec<&str> = reply.headers.iter().map(|(k, _)| k.as_str()).collect();
    assert_eq!(names, vec!["X-Mock", ok_key.as_str(), "x-ok"]);
    assert_eq!(reply.body, "body");
}
