use webhooks_receiver::control_plane::{
    bearer, call_url, classify_response, endpoint_answer, exchange_step, needs_period_check,
    parse_failure, plan_quota_cache, quota_fetch_step, users_by_plan_query, BreakerUpdate,
    ConvexError, CpCall, ExchangeAction, ExchangeEvent, ExchangeState, QuotaFetchAction,
    QuotaFetchEvent, QuotaFetchState, HTTP_TIMEOUT_SECS, MAX_RESPONSE_SIZE,
};
use webhooks_receiver::types::{CheckPeriodResponse, QuotaResponse};

#[test]
fn refused_call_is_never_sent() {
    let (state, action) =
        exchange_step(CpCall::Quota, ExchangeState::Asked, ExchangeEvent::Admitted(false));
    assert_eq!(state, ExchangeState::Done);
    assert!(matches!(
        action,
        ExchangeAction::Fail(BreakerUpdate::Untouched, ConvexError::CircuitOpen)
    ));
    let (state, action) =
        exchange_step(CpCall::Quota, ExchangeState::Asked, ExchangeEvent::Admitted(true));
    assert_eq!(state, ExchangeState::Sent);
    assert!(matches!(action, ExchangeAction::Send));
}

#[test]
fn transport_failures_count_against_the_control_plane() {
    let (state, action) = exchange_step(
        CpCall::Quota,
        ExchangeState::Sent,
        ExchangeEvent::SendFailed("timeout".to_string()),
    );
    assert_eq!(state, ExchangeState::Done);
    match action {
        ExchangeAction::Fail(BreakerUpdate::Failure, ConvexError::Network(m)) => {
            assert_eq!(m, "timeout")
        }
        other => panic!("unexpected {:?}", other),
    }
    let (_, action) = exchange_step(
        CpCall::Quota,
        ExchangeState::Reading(200),
        ExchangeEvent::ReadFailed("reset".to_string()),
    );
    assert!(matches!(action, ExchangeAction::Fail(BreakerUpdate::Failure, ConvexError::Network(_))));
}

#[test]
fn oversized_responses_are_refused_at_both_places() {
    let max = MAX_RESPONSE_SIZE as u64;
    assert_eq!(max, 1_048_576);
    let (state, action) =
        exchange_step(CpCall::Quota, ExchangeState::Sent, ExchangeEvent::Head(200, Some(max + 1)));
    assert_eq!(state, ExchangeState::Done);
    assert!(matches!(
        action,
        ExchangeAction::Fail(BreakerUpdate::Untouched, ConvexError::ResponseTooLarge)
    ));
    let (state, action) =
        exchange_step(CpCall::Quota, ExchangeState::Sent, ExchangeEvent::Head(200, Some(max)));
    assert_eq!(state, ExchangeState::Reading(200));
    assert!(matches!(action, ExchangeAction::ReadBody));
    let (_, action) = exchange_step(
        CpCall::Quota,
        ExchangeState::Reading(200),
        ExchangeEvent::Body(vec![b' '; MAX_RESPONSE_SIZE + 1]),
    );
    assert!(matches!(
        action,
        ExchangeAction::Fail(BreakerUpdate::Untouched, ConvexError::ResponseTooLarge)
    ));
    let (_, action) = exchange_step(
        CpCall::Quota,
        ExchangeState::Reading(200),
        ExchangeEvent::Body(vec![b' '; MAX_RESPONSE_SIZE]),
    );
    assert!(matches!(action, ExchangeAction::Parse(BreakerUpdate::Success, _)));
}

#[test]
fn responses_are_classified_by_status() {
    for call in [CpCall::EndpointInfo, CpCall::Quota, CpCall::UsersByPlan, CpCall::CaptureBatch] {
        for (status, ok) in [(199u16, false), (200, true), (204, true), (299, true), (300, false), (404, false), (429, false), (499, false)] {
            match classify_response(call, status, "b".to_string()) {
                ExchangeAction::Parse(BreakerUpdate::Success, body) => {
                    assert!(ok);
                    assert_eq!(body, "b");
                }
                ExchangeAction::Fail(BreakerUpdate::Success, ConvexError::ClientError(s, b)) => {
                    assert!(!ok);
                    assert_eq!((s, b.as_str()), (status, "b"));
                }
                other => panic!("unexpected {:?}", other),
            }
        }
        for status in [500u16, 502, 599, 65535] {
            assert!(matches!(
                classify_response(call, status, String::new()),
                ExchangeAction::Fail(BreakerUpdate::Failure, ConvexError::ServerError(_, _))
            ));
        }
    }
}

#[test]
fn period_check_accepts_200_and_429_only() {
    for (status, ok) in [(200u16, true), (429, true), (201, false), (204, false), (404, false)] {
        let parsed = matches!(
            classify_response(CpCall::CheckPeriod, status, String::new()),
            ExchangeAction::Parse(_, _)
        );
        assert_eq!(parsed, ok);
    }
}

#[test]
fn body_is_read_leniently() {
    let (_, action) = exchange_step(
        CpCall::Quota,
        ExchangeState::Reading(200),
        ExchangeEvent::Body(vec![b'o', b'k', 0xff, b'!']),
    );
    match action {
        ExchangeAction::Parse(_, body) => assert_eq!(body, "ok\u{fffd}!"),
        other => panic!("unexpected {:?}", other),
    }
}

#[test]
fn unexpected_events_are_halted() {
    let (state, action) =
        exchange_step(CpCall::Quota, ExchangeState::Done, ExchangeEvent::Admitted(true));
    assert_eq!(state, ExchangeState::Done);
    assert!(matches!(action, ExchangeAction::Halt));
    let (state, action) =
        exchange_step(CpCall::Quota, ExchangeState::Asked, ExchangeEvent::Body(vec![]));
    assert_eq!(state, ExchangeState::Asked);
    assert!(matches!(action, ExchangeAction::Halt));
}

#[test]
fn error_messages_cut_the_body_after_200_characters() {
    assert_eq!(ConvexError::CircuitOpen.message(), "circuit breaker open");
    assert_eq!(ConvexError::Network("x".to_string()).message(), "network error: x");
    assert_eq!(ConvexError::ParseError("eof".to_string()).message(), "parse error: eof");
    assert_eq!(ConvexError::ResponseTooLarge.message(), "response too large");
    assert_eq!(
        ConvexError::ServerError(502, "bad gateway".to_string()).message(),
        "server error 502: bad gateway"
    );
    let long = "\u{e9}".repeat(250);
    let shown = "\u{e9}".repeat(200);
    assert_eq!(
        ConvexError::ClientError(404, long).message(),
        format!("client error 404: {shown}")
    );
    assert_eq!(parse_failure("eof".to_string()).message(), "parse error: eof");
}

#[test]
fn request_parts_follow_the_interface() {
    assert_eq!(bearer("s3cret"), "Bearer s3cret");
    assert_eq!(call_url("https://cp.example", CpCall::EndpointInfo), "https://cp.example/endpoint-info");
    assert_eq!(call_url("https://cp.example", CpCall::Quota), "https://cp.example/quota");
    assert_eq!(call_url("https://cp.example", CpCall::CheckPeriod), "https://cp.example/check-period");
    assert_eq!(call_url("https://cp.example", CpCall::UsersByPlan), "https://cp.example/users-by-plan");
    assert_eq!(call_url("https://cp.example", CpCall::CaptureBatch), "https://cp.example/capture-batch");
    assert_eq!(HTTP_TIMEOUT_SECS, 30);
    assert_eq!(
        users_by_plan_query("free", None, 250),
        vec![("plan".to_string(), "free".to_string()), ("limit".to_string(), "250".to_string())]
    );
    assert_eq!(
        users_by_plan_query("free", Some("c2"), 250),
        vec![
            ("plan".to_string(), "free".to_string()),
            ("limit".to_string(), "250".to_string()),
            ("cursor".to_string(), "c2".to_string()),
        ]
    );
}

fn quota(remaining: i64, user: Option<&str>, needs_period_start: bool) -> QuotaResponse {
    QuotaResponse {
        error: String::new(),
        user_id: user.map(|u| u.to_string()),
        remaining,
        limit: 100,
        period_end: Some(77),
        plan: Some("free".to_string()),
        needs_period_start,
    }
}

fn period(error: &str) -> CheckPeriodResponse {
    CheckPeriodResponse {
        error: error.to_string(),
        remaining: 42,
        limit: 50,
        period_end: None,
        retry_after: None,
    }
}

#[test]
fn unknown_slug_caches_no_quota() {
    let mut q = quota(10, Some("u1"), false);
    q.error = "not_found".to_string();
    assert!(plan_quota_cache("abc", &q, None, 300).is_none());
    assert!(!needs_period_check(&q));
}

#[test]
fn quota_answer_is_cached_as_it_is() {
    let w = plan_quota_cache("abc", &quota(10, Some("u1"), false), None, 300).unwrap();
    assert_eq!(w.key, "quota:user:u1");
    assert_eq!(w.pointer_key.as_deref(), Some("quota:abc"));
    assert_eq!((w.entry.remaining, w.entry.limit, w.entry.period_end), (Some(10), 100, 77));
    assert!(!w.entry.is_unlimited);
    assert_eq!(w.entry.ttl_secs, 300);

    let w = plan_quota_cache("abc", &quota(-1, None, true), None, 300).unwrap();
    assert_eq!(w.key, "quota:abc");
    assert!(w.pointer_key.is_none());
    assert!(w.entry.is_unlimited);
    assert_eq!(w.entry.remaining, Some(-1));
    let mut no_end = quota(3, None, false);
    no_end.period_end = None;
    assert_eq!(plan_quota_cache("abc", &no_end, None, 300).unwrap().entry.period_end, 0);
}

#[test]
fn started_period_replaces_the_numbers() {
    let q = quota(0, Some("u1"), true);
    assert!(needs_period_check(&q));
    let w = plan_quota_cache("abc", &q, Some(&period("")), 300).unwrap();
    assert_eq!((w.entry.remaining, w.entry.limit, w.entry.period_end), (Some(42), 50, 0));
    assert!(!w.entry.is_unlimited);
    let w = plan_quota_cache("abc", &q, Some(&period("quota_exceeded")), 300).unwrap();
    assert_eq!((w.entry.remaining, w.entry.limit), (Some(0), 50));
    let w = plan_quota_cache("abc", &q, Some(&period("other")), 300).unwrap();
    assert_eq!((w.entry.remaining, w.entry.limit, w.entry.period_end), (Some(0), 100, 77));
}

#[test]
fn period_is_checked_only_for_a_named_user_who_needs_it() {
    assert!(!needs_period_check(&quota(1, Some("u1"), false)));
    assert!(!needs_period_check(&quota(1, None, true)));
    assert!(!needs_period_check(&quota(1, Some(""), true)));
    assert!(needs_period_check(&quota(1, Some("u1"), true)));
}

#[test]
fn quota_fetch_follows_up_with_a_period_check() {
    let (state, action) = quota_fetch_step(
        "abc",
        300,
        QuotaFetchState::Asking,
        QuotaFetchEvent::Quota(Ok(quota(0, Some("u1"), true))),
    );
    match action {
        QuotaFetchAction::CheckPeriod(user) => assert_eq!(user, "u1"),
        other => panic!("unexpected {:?}", other),
    }
    let (state, action) =
        quota_fetch_step("abc", 300, state, QuotaFetchEvent::Period(Ok(period(""))));
    assert!(matches!(state, QuotaFetchState::Done));
    match action {
        QuotaFetchAction::Finish(Some(w)) => assert_eq!(w.entry.remaining, Some(42)),
        other => panic!("unexpected {:?}", other),
    }
}

#[test]
fn failed_period_check_falls_back_to_the_quota_answer() {
    let (state, _) = quota_fetch_step(
        "abc",
        300,
        QuotaFetchState::Asking,
        QuotaFetchEvent::Quota(Ok(quota(7, Some("u1"), true))),
    );
    let (_, action) = quota_fetch_step(
        "abc",
        300,
        state,
        QuotaFetchEvent::Period(Err(ConvexError::CircuitOpen)),
    );
    match action {
        QuotaFetchAction::Finish(Some(w)) => assert_eq!(w.entry.remaining, Some(7)),
        other => panic!("unexpected {:?}", other),
    }
}

#[test]
fn failed_quota_call_fails_the_fetch() {
    let (state, action) = quota_fetch_step(
        "abc",
        300,
        QuotaFetchState::Asking,
        QuotaFetchEvent::Quota(Err(ConvexError::ResponseTooLarge)),
    );
    assert!(matches!(state, QuotaFetchState::Done));
    assert!(matches!(action, QuotaFetchAction::Fail(ConvexError::ResponseTooLarge)));
    let (_, action) = quota_fetch_step(
        "abc",
        300,
        QuotaFetchState::Done,
        QuotaFetchEvent::Period(Ok(period(""))),
    );
    assert!(matches!(action, QuotaFetchAction::Halt));
}

#[test]
fn endpoint_answer_is_cached_only_without_error() {
    let info = webhooks_receiver::types::EndpointInfo {
        endpoint_id: "e1".to_string(),
        user_id: None,
        is_ephemeral: false,
        expires_at: None,
        mock_response: None,
        error: String::new(),
    };
    let answer = endpoint_answer(info);
    assert!(answer.cache);
    assert_eq!(answer.endpoint.unwrap().endpoint_id, "e1");
}
