use std::collections::HashMap;

use webhooks_receiver::buffer::SlugBuffer;
use webhooks_receiver::capture::{
    capture_begin, capture_step, CaptureAction, CaptureEvent, CaptureOutcome, CaptureRequest,
    CaptureState, HeaderLine,
};
use webhooks_receiver::control_plane::{
    endpoint_answer, quota_fetch_step, ConvexError, QuotaFetchAction, QuotaFetchEvent,
    QuotaFetchState,
};
use webhooks_receiver::dedup::mark_seen;
use webhooks_receiver::quota::{check_and_decrement, set_if_absent, QuotaEntry, QuotaResult};
use webhooks_receiver::string_map::StringMap;
use webhooks_receiver::types::{BufferedRequest, EndpointInfo, MockResponse, QuotaResponse};

struct World {
    now: i64,
    endpoints: HashMap<String, EndpointInfo>,
    quotas: HashMap<String, QuotaEntry>,
    buffers: HashMap<String, SlugBuffer<BufferedRequest>>,
    dedup: HashMap<String, i64>,
    cp_endpoint: Result<Option<EndpointInfo>, ()>,
    cp_quota: Option<QuotaResponse>,
    warm_in_background: bool,
    actions: Vec<String>,
}

fn endpoint(mock: Option<MockResponse>) -> EndpointInfo {
    EndpointInfo {
        endpoint_id: "e1".to_string(),
        user_id: Some("u1".to_string()),
        is_ephemeral: false,
        expires_at: None,
        mock_response: mock,
        error: String::new(),
    }
}

fn quota(remaining: i64) -> QuotaResponse {
    QuotaResponse {
        error: String::new(),
        user_id: Some("u1".to_string()),
        remaining,
        limit: 100,
        period_end: Some(1_800_000_000_000),
        plan: None,
        needs_period_start: false,
    }
}

fn world() -> World {
    World {
        now: 1_700_000_000_000,
        endpoints: HashMap::new(),
        quotas: HashMap::new(),
        buffers: HashMap::new(),
        dedup: HashMap::new(),
        cp_endpoint: Ok(Some(endpoint(None))),
        cp_quota: Some(quota(10)),
        warm_in_background: false,
        actions: Vec::new(),
    }
}

fn request(slug: &str, path: &str, body: &[u8], headers: Vec<(&str, &str)>) -> CaptureRequest {
    CaptureRequest {
        method: "POST".to_string(),
        slug: slug.to_string(),
        path: path.to_string(),
        headers: headers
            .into_iter()
            .map(|(n, v)| HeaderLine { name: n.to_string(), value: Some(v.to_string()) })
            .collect(),
        query: StringMap::new(),
        body: body.to_vec(),
    }
}

impl World {
    fn fetch_quota(&mut self, slug: &str) {
        let answer = match &self.cp_quota {
            Some(q) => Ok(q.clone()),
            None => Err(ConvexError::Network("down".to_string())),
        };
        let (_, action) =
            quota_fetch_step(slug, 300, QuotaFetchState::Asking, QuotaFetchEvent::Quota(answer));
        if let QuotaFetchAction::Finish(Some(write)) = action {
            let mut cell = self.quotas.remove(&write.key);
            set_if_absent(&mut cell, write.entry);
            self.quotas.insert(write.key, cell.unwrap());
        }
    }

    fn capture(&mut self, req: &CaptureRequest) -> CaptureOutcome {
        let (mut state, mut action) = capture_begin(req);
        loop {
            let event = match action {
                CaptureAction::Reply(outcome) => {
                    assert!(matches!(state, CaptureState::Done));
                    return outcome;
                }
                CaptureAction::LookupEndpoint { key } => {
                    self.actions.push(format!("lookup {key}"));
                    CaptureEvent::Cached(self.endpoints.get(&key).cloned())
                }
                CaptureAction::FetchEndpoint => {
                    self.actions.push("fetch endpoint".to_string());
                    if self.warm_in_background {
                        self.fetch_quota(&req.slug);
                    }
                    match self.cp_endpoint.clone() {
                        Ok(Some(info)) => {
                            let answer = endpoint_answer(info);
                            if answer.cache {
                                self.endpoints.insert(
                                    format!("ep:{}", req.slug),
                                    answer.endpoint.clone().unwrap(),
                                );
                            }
                            CaptureEvent::Fetched(Ok(answer.endpoint))
                        }
                        Ok(None) => CaptureEvent::Fetched(Ok(None)),
                        Err(()) => CaptureEvent::Fetched(Err(ConvexError::CircuitOpen)),
                    }
                }
                CaptureAction::CheckQuota { key } => {
                    self.actions.push(format!("quota {key}"));
                    let mut cell = self.quotas.remove(&key);
                    let code = check_and_decrement(&mut cell);
                    if let Some(e) = cell {
                        self.quotas.insert(key, e);
                    }
                    CaptureEvent::QuotaChecked(QuotaResult::from_code(Some(code)))
                }
                CaptureAction::FetchQuota => {
                    self.actions.push("fetch quota".to_string());
                    self.fetch_quota(&req.slug);
                    CaptureEvent::QuotaFetched
                }
                CaptureAction::CheckDedup { key } => {
                    self.actions.push("dedup".to_string());
                    let mut cell = self.dedup.remove(&key);
                    let first = mark_seen(&mut cell, self.now);
                    self.dedup.insert(key, cell.unwrap());
                    CaptureEvent::DedupChecked(first)
                }
                CaptureAction::Buffer { key, request } => {
                    self.actions.push(format!("buffer {key}"));
                    self.buffers.entry(key).or_insert_with(SlugBuffer::new).push_request(request);
                    CaptureEvent::Buffered
                }
                CaptureAction::Halt => panic!("the driver sent an event that was not asked for"),
            };
            let (next, act) = capture_step(state, event, req, self.now);
            state = next;
            action = act;
        }
    }

    fn buffered(&self, slug: &str) -> usize {
        self.buffers.get(&format!("buf:{slug}")).map(|b| b.items.len()).unwrap_or(0)
    }
}

#[test]
fn happy_path_capture() {
    for warm in [false, true] {
        let mut w = world();
        w.warm_in_background = warm;
        let req = request("abc", "foo", b"hi", vec![]);
        let outcome = w.capture(&req);
        assert!(matches!(outcome, CaptureOutcome::Accepted(None)));
        assert_eq!(outcome.status(), 200);
        assert!(w.endpoints.contains_key("ep:abc"));
        assert_eq!(w.quotas["quota:user:u1"].remaining, Some(9));
        assert_eq!(w.buffered("abc"), 1);
        let buffer = &w.buffers["buf:abc"];
        assert!(buffer.active);
        let stored = &buffer.items[0];
        assert_eq!(stored.method, "POST");
        assert_eq!(stored.path, "/foo");
        assert_eq!(stored.body, "hi");
        assert_eq!(stored.received_at, w.now);
    }
}

#[test]
fn invalid_slug_is_refused_before_anything_is_asked() {
    let mut w = world();
    let outcome = w.capture(&request("../bad", "", b"", vec![]));
    assert!(matches!(outcome, CaptureOutcome::InvalidSlug));
    assert_eq!(outcome.status(), 400);
    assert_eq!(outcome.error_code(), Some("invalid_slug"));
    assert!(w.actions.is_empty());
}

#[test]
fn unknown_endpoint_is_404() {
    let mut w = world();
    w.cp_endpoint = Ok(None);
    let outcome = w.capture(&request("abc", "", b"", vec![]));
    assert!(matches!(outcome, CaptureOutcome::NotFound));
    assert_eq!(outcome.status(), 404);
    assert_eq!(outcome.error_code(), Some("not_found"));
    assert_eq!(w.buffered("abc"), 0);
    assert!(!w.endpoints.contains_key("ep:abc"));
}

#[test]
fn cached_not_found_is_404_without_a_fetch() {
    let mut w = world();
    let mut negative = endpoint(None);
    negative.error = "not_found".to_string();
    w.endpoints.insert("ep:abc".to_string(), negative);
    let outcome = w.capture(&request("abc", "", b"", vec![]));
    assert!(matches!(outcome, CaptureOutcome::NotFound));
    assert_eq!(w.actions, vec!["lookup ep:abc".to_string()]);
}

#[test]
fn negative_answer_is_not_cached() {
    let mut negative = endpoint(None);
    negative.error = "not_found".to_string();
    let answer = endpoint_answer(negative);
    assert!(!answer.cache);
    assert!(answer.endpoint.is_none());
    let mut other = endpoint(None);
    other.error = "boom".to_string();
    let answer = endpoint_answer(other);
    assert!(!answer.cache);
    assert!(answer.endpoint.is_some());
}

#[test]
fn expired_endpoint_is_410() {
    let mut w = world();
    let mut ep = endpoint(None);
    ep.expires_at = Some(w.now - 1);
    w.cp_endpoint = Ok(Some(ep));
    let outcome = w.capture(&request("abc", "", b"", vec![]));
    assert!(matches!(outcome, CaptureOutcome::Expired));
    assert_eq!(outcome.status(), 410);
    assert_eq!(outcome.error_code(), Some("expired"));
    assert_eq!(w.buffered("abc"), 0);
}

#[test]
fn endpoint_that_expires_now_is_still_live() {
    let mut w = world();
    let mut ep = endpoint(None);
    ep.expires_at = Some(w.now);
    w.cp_endpoint = Ok(Some(ep));
    let outcome = w.capture(&request("abc", "", b"", vec![]));
    assert!(matches!(outcome, CaptureOutcome::Accepted(None)));
}

#[test]
fn quota_exhausted() {
    let mut w = world();
    w.endpoints.insert("ep:abc".to_string(), endpoint(None));
    w.quotas.insert(
        "quota:user:u1".to_string(),
        QuotaEntry {
            remaining: Some(0),
            limit: 100,
            period_end: 0,
            is_unlimited: false,
            user_id: "u1".to_string(),
            ttl_secs: 300,
        },
    );
    let outcome = w.capture(&request("abc", "x", b"a", vec![]));
    assert!(matches!(outcome, CaptureOutcome::QuotaExceeded));
    assert_eq!(outcome.status(), 429);
    assert_eq!(outcome.error_code(), Some("quota_exceeded"));
    assert_eq!(w.buffered("abc"), 0);
    assert_eq!(w.quotas["quota:user:u1"].remaining, Some(0));
}

#[test]
fn quota_exhausted_after_the_blocking_fetch() {
    let mut w = world();
    w.cp_quota = Some(quota(0));
    let outcome = w.capture(&request("abc", "x", b"a", vec![]));
    assert!(matches!(outcome, CaptureOutcome::QuotaExceeded));
    assert!(w.actions.contains(&"fetch quota".to_string()));
    assert_eq!(w.buffered("abc"), 0);
}

#[test]
fn quota_that_stays_unknown_lets_the_request_in() {
    let mut w = world();
    w.cp_quota = None;
    let outcome = w.capture(&request("abc", "x", b"a", vec![]));
    assert!(matches!(outcome, CaptureOutcome::Accepted(None)));
    assert_eq!(w.buffered("abc"), 1);
    assert_eq!(w.actions.iter().filter(|a| a.as_str() == "fetch quota").count(), 1);
}

#[test]
fn dedup() {
    let mut w = world();
    let req = request("abc", "x", b"a", vec![("cf-connecting-ip", "1.2.3.4")]);
    let first = w.capture(&req);
    w.now += 500;
    let second = w.capture(&req);
    assert_eq!(first.status(), 200);
    assert_eq!(second.status(), 200);
    assert!(matches!(first, CaptureOutcome::Accepted(None)));
    assert!(matches!(second, CaptureOutcome::Accepted(None)));
    assert_eq!(w.buffered("abc"), 1);
    w.now += 2000;
    let third = w.capture(&req);
    assert!(matches!(third, CaptureOutcome::Accepted(None)));
    assert_eq!(w.buffered("abc"), 2);
}

#[test]
fn requests_from_different_clients_are_no_duplicates() {
    let mut w = world();
    w.capture(&request("abc", "x", b"a", vec![("cf-connecting-ip", "1.2.3.4")]));
    w.capture(&request("abc", "x", b"a", vec![("cf-connecting-ip", "1.2.3.5")]));
    assert_eq!(w.buffered("abc"), 2);
}

#[test]
fn mock_response() {
    let mut headers = StringMap::new();
    headers.insert("X-Mock".to_string(), "1".to_string());
    headers.insert("Set-Cookie".to_string(), "x=y".to_string());
    let mock = MockResponse { status: 418, body: "teapot".to_string(), headers };
    let mut w = world();
    w.cp_endpoint = Ok(Some(endpoint(Some(mock))));
    let req = request("abc", "", b"", vec![]);
    let outcome = w.capture(&req);
    assert_eq!(outcome.status(), 418);
    assert_eq!(outcome.error_code(), None);
    match &outcome {
        CaptureOutcome::Accepted(Some(reply)) => {
            assert_eq!(reply.status, 418);
            assert_eq!(reply.body, "teapot");
            assert_eq!(reply.headers, vec![("X-Mock".to_string(), "1".to_string())]);
        }
        other => panic!("unexpected {:?}", other),
    }
    let duplicate = w.capture(&req);
    match duplicate {
        CaptureOutcome::Accepted(Some(reply)) => {
            assert_eq!(reply.status, 418);
            assert_eq!(reply.body, "teapot");
        }
        other => panic!("unexpected {:?}", other),
    }
    assert_eq!(w.buffered("abc"), 1);
    assert_eq!(w.buffers["buf:abc"].items[0].path, "/");
}

#[test]
fn failed_endpoint_fetch_buffers_without_a_quota_check() {
    let mut w = world();
    w.cp_endpoint = Err(());
    let outcome = w.capture(&request("abc", "/x", b"a", vec![]));
    assert!(matches!(outcome, CaptureOutcome::Accepted(None)));
    assert_eq!(w.buffered("abc"), 1);
    assert!(w.quotas.is_empty());
    assert!(!w.actions.iter().any(|a| a.starts_with("quota")));
    assert!(!w.actions.contains(&"dedup".to_string()));
}

#[test]
fn event_that_was_not_asked_for_changes_nothing() {
    let req = request("abc", "", b"", vec![]);
    let (state, _) = capture_begin(&req);
    let (state, action) = capture_step(state, CaptureEvent::Buffered, &req, 0);
    assert!(matches!(state, CaptureState::Lookup));
    assert!(matches!(action, CaptureAction::Halt));
}
