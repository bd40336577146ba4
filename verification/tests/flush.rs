use webhooks_receiver::buffer::SlugBuffer;
use webhooks_receiver::circuit_breaker::CircuitBreaker;
use webhooks_receiver::control_plane::{
    exchange_step, BreakerUpdate, ConvexError, CpCall, ExchangeAction, ExchangeEvent,
    ExchangeState,
};
use webhooks_receiver::flush::{
    counts_as_work, shuffle, slug_step, worker_share, worker_step, SlugAction, SlugEvent,
    SlugState, WorkerAction, WorkerEvent, WorkerState, CIRCUIT_OPEN_BACKOFF_MS,
    CS_MAX_CONCURRENT_WRITES,
};
use webhooks_receiver::string_map::StringMap;
use webhooks_receiver::types::{BufferedRequest, CaptureResponse};

fn request(n: i64) -> BufferedRequest {
    BufferedRequest {
        method: "POST".to_string(),
        path: format!("/{n}"),
        headers: StringMap::new(),
        body: String::new(),
        query_params: StringMap::new(),
        ip: String::new(),
        received_at: n,
    }
}

fn paths(batch: &[BufferedRequest]) -> Vec<String> {
    batch.iter().map(|r| r.path.clone()).collect()
}

fn delivered() -> Result<CaptureResponse, ConvexError> {
    Ok(CaptureResponse { success: true, error: String::new(), inserted: 3, mock_response: None })
}

fn post(
    breaker: &mut CircuitBreaker,
    now: i64,
    status: u16,
    body: &[u8],
) -> Result<String, ConvexError> {
    let allowed = breaker.allow_request(now);
    let (state, action) =
        exchange_step(CpCall::CaptureBatch, ExchangeState::Asked, ExchangeEvent::Admitted(allowed));
    let state = match action {
        ExchangeAction::Send => state,
        ExchangeAction::Fail(_, e) => return Err(e),
        other => panic!("unexpected {:?}", other),
    };
    let (state, action) =
        exchange_step(CpCall::CaptureBatch, state, ExchangeEvent::Head(status, None));
    assert!(matches!(action, ExchangeAction::ReadBody));
    let (_, action) =
        exchange_step(CpCall::CaptureBatch, state, ExchangeEvent::Body(body.to_vec()));
    let (update, result) = match action {
        ExchangeAction::Parse(u, text) => (u, Ok(text)),
        ExchangeAction::Fail(u, e) => (u, Err(e)),
        other => panic!("unexpected {:?}", other),
    };
    match update {
        BreakerUpdate::Failure => {
            breaker.record_failure(now);
        }
        BreakerUpdate::Success => breaker.record_success(),
        BreakerUpdate::Untouched => {}
    }
    result
}

#[test]
fn flush_drops_on_5xx() {
    let mut buffer: SlugBuffer<BufferedRequest> = SlugBuffer::new();
    for n in 1..=3 {
        buffer.push_request(request(n));
    }
    let mut breaker = CircuitBreaker::new();
    let before = breaker.failures;

    let batch = buffer.take_batch(50);
    let (state, action) = slug_step(SlugState::Taking, SlugEvent::Taken(batch), true);
    assert!(matches!(action, SlugAction::Post));
    let answer = post(&mut breaker, 1000, 500, b"boom");
    assert!(matches!(answer, Err(ConvexError::ServerError(500, _))));
    let result = answer.map(|_| CaptureResponse {
        success: true,
        error: String::new(),
        inserted: 0,
        mock_response: None,
    });
    let (state, action) = slug_step(state, SlugEvent::Posted(result), true);
    assert!(matches!(action, SlugAction::Dropped));
    assert!(matches!(state, SlugState::Done));
    assert!(counts_as_work(&action));
    assert_eq!(buffer.buffer_len(), 0);
    assert_eq!(breaker.failures, before + 1);
}

#[test]
fn flush_with_open_breaker_requeues() {
    let mut buffer: SlugBuffer<BufferedRequest> = SlugBuffer::new();
    for n in 1..=3 {
        buffer.push_request(request(n));
    }
    let mut breaker = CircuitBreaker::new();
    for t in 0..5 {
        breaker.record_failure(t);
    }
    let batch = buffer.take_batch(50);
    assert_eq!(paths(&batch), vec!["/1", "/2", "/3"]);
    buffer.push_request(request(4));
    let (state, _) = slug_step(SlugState::Taking, SlugEvent::Taken(batch), true);
    let answer = post(&mut breaker, 100, 200, b"{}");
    assert!(matches!(answer, Err(ConvexError::CircuitOpen)));
    let (_, action) = slug_step(state, SlugEvent::Posted(Err(ConvexError::CircuitOpen)), true);
    match action {
        SlugAction::Requeue(batch) => {
            assert_eq!(batch.len(), 3);
            buffer.requeue(batch);
        }
        other => panic!("unexpected {:?}", other),
    }
    assert!(buffer.active);
    assert_eq!(paths(&buffer.items), vec!["/4", "/3", "/2", "/1"]);
    assert_eq!(paths(&buffer.take_batch(50)), vec!["/1", "/2", "/3", "/4"]);
}

#[test]
fn every_other_error_drops_the_batch() {
    let errors = vec![
        ConvexError::Network("reset".to_string()),
        ConvexError::ServerError(503, "down".to_string()),
        ConvexError::ClientError(400, "bad".to_string()),
        ConvexError::ParseError("eof".to_string()),
        ConvexError::ResponseTooLarge,
    ];
    for e in errors {
        assert!(!e.never_sent());
        let state = SlugState::Posting(vec![request(1)]);
        let (state, action) = slug_step(state, SlugEvent::Posted(Err(e)), true);
        assert!(matches!(action, SlugAction::Dropped));
        let (_, again) = slug_step(state, SlugEvent::Posted(delivered()), true);
        assert!(matches!(again, SlugAction::Halt));
    }
    assert!(ConvexError::CircuitOpen.never_sent());
}

#[test]
fn delivered_batch_goes_to_the_column_store_if_there_is_one() {
    let (_, action) =
        slug_step(SlugState::Posting(vec![request(1), request(2)]), SlugEvent::Posted(delivered()), true);
    match action {
        SlugAction::Forward(batch) => assert_eq!(paths(&batch), vec!["/1", "/2"]),
        other => panic!("unexpected {:?}", other),
    }
    let (_, action) =
        slug_step(SlugState::Posting(vec![request(1)]), SlugEvent::Posted(delivered()), false);
    assert!(matches!(action, SlugAction::Delivered));
    let refused = Ok(CaptureResponse {
        success: false,
        error: "endpoint_not_found".to_string(),
        inserted: 0,
        mock_response: None,
    });
    let (_, action) = slug_step(SlugState::Posting(vec![request(1)]), SlugEvent::Posted(refused), true);
    assert!(matches!(action, SlugAction::Refused));
}

#[test]
fn empty_take_removes_the_slug_and_is_no_work() {
    let (state, action) = slug_step(SlugState::Taking, SlugEvent::Taken(Vec::new()), true);
    assert!(matches!(state, SlugState::Done));
    assert!(matches!(action, SlugAction::RemoveActive));
    assert!(!counts_as_work(&action));
}

#[test]
fn shuffle_keeps_the_slugs() {
    for seed in [0u64, 1, 42, u64::MAX, 0xdead_beef] {
        for n in 0..20usize {
            let slugs: Vec<String> = (0..n).map(|i| format!("s{i}")).collect();
            let mut shuffled = slugs.clone();
            shuffle(&mut shuffled, seed);
            let mut sorted = shuffled.clone();
            sorted.sort();
            let mut expected = slugs.clone();
            expected.sort();
            assert_eq!(sorted, expected);
        }
    }
}

#[test]
fn shuffle_follows_the_generator() {
    let mut slugs: Vec<String> = ["a", "b", "c", "d"].iter().map(|s| s.to_string()).collect();
    let mut expected = slugs.clone();
    let mut state: u64 = 7;
    for i in (1..expected.len()).rev() {
        state = state.wrapping_mul(6364136223846793005).wrapping_add(1442695040888963407);
        let j = (state >> 33) as usize % (i + 1);
        expected.swap(i, j);
    }
    shuffle(&mut slugs, 7);
    assert_eq!(slugs, expected);
}

#[test]
fn shares_partition_the_slugs() {
    for n in 0..25usize {
        let slugs: Vec<String> = (0..n).map(|i| format!("s{i}")).collect();
        for workers in 1..6usize {
            let mut seen: Vec<String> = Vec::new();
            for id in 0..workers {
                let share = worker_share(&slugs, id, workers);
                let expected: Vec<String> =
                    (id..n).step_by(workers).map(|i| format!("s{i}")).collect();
                assert_eq!(share, expected);
                seen.extend(share);
            }
            seen.sort();
            let mut all = slugs.clone();
            all.sort();
            assert_eq!(seen, all);
        }
    }
    assert!(worker_share(&vec!["a".to_string()], 3, 4).is_empty());
    assert_eq!(worker_share(&vec!["a".to_string()], 0, usize::MAX), vec!["a".to_string()]);
}

#[test]
fn worker_loop_follows_shutdown_and_breaker() {
    type S = WorkerState;
    type E = WorkerEvent;
    type A = WorkerAction;
    assert_eq!(worker_step(S::Idle, E::Round(false), 100), (S::Checking, A::AskBreaker));
    assert_eq!(worker_step(S::Checking, E::Degraded(true), 100), (S::Idle, A::Sleep(5000)));
    assert_eq!(worker_step(S::Checking, E::Degraded(false), 100), (S::Passing, A::Drain));
    assert_eq!(worker_step(S::Passing, E::Passed(true), 100), (S::Idle, A::Again));
    assert_eq!(worker_step(S::Passing, E::Passed(false), 100), (S::Idle, A::Sleep(100)));
    assert_eq!(worker_step(S::Idle, E::Round(true), 100), (S::Stopping, A::AskBreaker));
    assert_eq!(worker_step(S::Stopping, E::Degraded(true), 100), (S::Stopped, A::Exit));
    assert_eq!(worker_step(S::Stopping, E::Degraded(false), 100), (S::LastPass, A::Drain));
    assert_eq!(worker_step(S::LastPass, E::Passed(true), 100), (S::Stopped, A::Exit));
    assert_eq!(worker_step(S::LastPass, E::Passed(false), 100), (S::Stopped, A::Exit));
    assert_eq!(worker_step(S::Stopped, E::Round(false), 100), (S::Stopped, A::Halt));
    assert_eq!(worker_step(S::Idle, E::Passed(true), 100), (S::Idle, A::Halt));
    assert_eq!(CIRCUIT_OPEN_BACKOFF_MS, 5000);
    assert_eq!(CS_MAX_CONCURRENT_WRITES, 16);
}
