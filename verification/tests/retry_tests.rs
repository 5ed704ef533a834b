use autowallpaper::backoff::{cap_decision, compute_backoff_secs, RetryDecision, MAX_RETRY_SLEEP_SECS};
use autowallpaper::classify::{
    classify_failure, retryable_http_status, retryable_io_error, FailureClass, IoErrorKind,
    RawFailure,
};
use autowallpaper::engine::{
    run_scripted, AttemptOutcome, EngineState, FetchEngine, FetchError, FetchRequest, StopReason,
};

fn request(max_attempts: u32, base_delay_secs: u64) -> FetchRequest {
    FetchRequest {
        url: String::from("https://example.test/resource"),
        destination: String::from("out.jpg"),
        max_attempts,
        base_delay_secs,
    }
}

fn http_failure(code: u16) -> AttemptOutcome {
    let (class, retryable) = classify_failure(RawFailure::HttpResponse(code));
    AttemptOutcome::Failure {
        class,
        message: format!("server returned status {code}"),
        retryable,
    }
}

fn transport_failure() -> AttemptOutcome {
    let (class, retryable) = classify_failure(RawFailure::Transport);
    AttemptOutcome::Failure {
        class,
        message: String::from("connection refused"),
        retryable,
    }
}

#[test]
fn backoff_doubles_from_base() {
    assert_eq!(compute_backoff_secs(2, 0), 2);
    assert_eq!(compute_backoff_secs(2, 1), 4);
    assert_eq!(compute_backoff_secs(2, 2), 8);
    assert_eq!(compute_backoff_secs(30, 0), 30);
    assert_eq!(compute_backoff_secs(30, 1), 60);
}

#[test]
fn backoff_saturates_instead_of_overflowing() {
    assert_eq!(compute_backoff_secs(u64::MAX, 1), u64::MAX);
    assert_eq!(compute_backoff_secs(5, 63), u64::MAX);
    assert_eq!(compute_backoff_secs(5, u32::MAX), u64::MAX);
    // The exponent is clamped at 62, so small bases stay exact.
    assert_eq!(compute_backoff_secs(1, 62), 1u64 << 62);
    assert_eq!(compute_backoff_secs(3, u32::MAX), 3 * (1u64 << 62));
}

#[test]
fn backoff_is_monotonic_in_attempt_index() {
    let mut prev = 0u64;
    for attempt in 0..80u32 {
        let cur = compute_backoff_secs(3, attempt);
        assert!(cur >= prev);
        prev = cur;
    }
}

#[test]
fn retryable_status_codes() {
    for code in [408u16, 425, 429, 500, 503] {
        assert!(retryable_http_status(code), "code {code} must be retryable");
    }
    for code in [400u16, 401, 403, 404] {
        assert!(!retryable_http_status(code), "code {code} must be terminal");
    }
}

#[test]
fn retryable_io_conditions() {
    for kind in [
        IoErrorKind::Interrupted,
        IoErrorKind::WouldBlock,
        IoErrorKind::TimedOut,
        IoErrorKind::PermissionDenied,
        IoErrorKind::Other,
    ] {
        assert!(retryable_io_error(kind));
    }
    for kind in [
        IoErrorKind::NotFound,
        IoErrorKind::AlreadyExists,
        IoErrorKind::BrokenPipe,
        IoErrorKind::InvalidInput,
        IoErrorKind::InvalidData,
        IoErrorKind::WriteZero,
        IoErrorKind::UnexpectedEof,
        IoErrorKind::StorageFull,
        IoErrorKind::Unsupported,
        IoErrorKind::Unrecognized,
    ] {
        assert!(!retryable_io_error(kind));
    }
}

#[test]
fn classification_is_total_and_exact() {
    assert_eq!(
        classify_failure(RawFailure::Transport),
        (FailureClass::NetworkTransport, true)
    );
    assert_eq!(
        classify_failure(RawFailure::HttpResponse(503)),
        (FailureClass::HttpStatus(503), true)
    );
    assert_eq!(
        classify_failure(RawFailure::HttpResponse(404)),
        (FailureClass::HttpStatus(404), false)
    );
    assert_eq!(
        classify_failure(RawFailure::BodyRead),
        (FailureClass::LocalIo, true)
    );
    assert_eq!(
        classify_failure(RawFailure::LocalWrite(IoErrorKind::Interrupted)),
        (FailureClass::LocalIo, true)
    );
    assert_eq!(
        classify_failure(RawFailure::LocalWrite(IoErrorKind::NotFound)),
        (FailureClass::LocalIo, false)
    );
}

#[test]
fn cap_rule_is_asymmetric() {
    assert_eq!(
        cap_decision(MAX_RETRY_SLEEP_SECS, FailureClass::HttpStatus(500)),
        RetryDecision::Stop
    );
    assert_eq!(
        cap_decision(MAX_RETRY_SLEEP_SECS + 1, FailureClass::HttpStatus(429)),
        RetryDecision::Stop
    );
    assert_eq!(
        cap_decision(MAX_RETRY_SLEEP_SECS, FailureClass::NetworkTransport),
        RetryDecision::Sleep(MAX_RETRY_SLEEP_SECS)
    );
    assert_eq!(
        cap_decision(1000, FailureClass::LocalIo),
        RetryDecision::Sleep(MAX_RETRY_SLEEP_SECS)
    );
    assert_eq!(
        cap_decision(59, FailureClass::HttpStatus(500)),
        RetryDecision::Sleep(59)
    );
}

#[test]
fn zero_attempts_is_a_configuration_error() {
    let r = FetchEngine::start(&request(0, 3));
    assert!(matches!(r, Err(FetchError::Configuration)));
}

#[test]
fn success_is_terminal() {
    let mut engine = FetchEngine::start(&request(3, 2)).unwrap();
    engine.on_outcome(&AttemptOutcome::Success(vec![1, 2, 3]));
    assert_eq!(engine.state, EngineState::Succeeded);
    assert_eq!(engine.result(), Some(Ok(())));
}

#[test]
fn non_retryable_status_stops_immediately() {
    let mut engine = FetchEngine::start(&request(10, 2)).unwrap();
    engine.on_outcome(&http_failure(404));
    assert_eq!(
        engine.state,
        EngineState::Failed {
            reason: StopReason::NonRetryable,
            class: FailureClass::HttpStatus(404),
        }
    );
}

// Three attempts, base delay 2, a retryable 503 every time: two sleeps
// (2 s then 4 s), then the budget is exhausted with no further sleep and
// the failure surfaces as terminal.
#[test]
fn exhausts_attempts_after_two_sleeps() {
    let mut engine = FetchEngine::start(&request(3, 2)).unwrap();
    let mut sleeps: Vec<u64> = Vec::new();

    engine.on_outcome(&http_failure(503));
    match engine.state {
        EngineState::Waiting { sleep_secs, next_attempt } => {
            sleeps.push(sleep_secs);
            assert_eq!(next_attempt, 2);
        }
        other => panic!("expected a wait, got {other:?}"),
    }
    engine.on_wake(); // no real sleep: the engine only schedules it
    assert_eq!(engine.state, EngineState::Attempting { attempt: 2 });

    engine.on_outcome(&http_failure(503));
    match engine.state {
        EngineState::Waiting { sleep_secs, next_attempt } => {
            sleeps.push(sleep_secs);
            assert_eq!(next_attempt, 3);
        }
        other => panic!("expected a wait, got {other:?}"),
    }
    engine.on_wake();

    engine.on_outcome(&http_failure(503));
    assert_eq!(
        engine.state,
        EngineState::Failed {
            reason: StopReason::AttemptsExhausted,
            class: FailureClass::HttpStatus(503),
        }
    );
    assert_eq!(sleeps, vec![2, 4]);
    assert_eq!(
        engine.result(),
        Some(Err(FetchError::Terminal(
            StopReason::AttemptsExhausted,
            FailureClass::HttpStatus(503),
        )))
    );
}

// Five attempts, base delay 30, HTTP 500 every time: one 30 s sleep, then
// the uncapped backoff reaches the 60 s cap and the engine stops at once,
// with four attempts still in the budget.
#[test]
fn http_failures_stop_at_the_cap() {
    let mut engine = FetchEngine::start(&request(5, 30)).unwrap();
    let mut sleeps: Vec<u64> = Vec::new();

    engine.on_outcome(&http_failure(500));
    match engine.state {
        EngineState::Waiting { sleep_secs, next_attempt } => {
            sleeps.push(sleep_secs);
            assert_eq!(next_attempt, 2);
        }
        other => panic!("expected a wait, got {other:?}"),
    }
    engine.on_wake();

    engine.on_outcome(&http_failure(500));
    assert_eq!(
        engine.state,
        EngineState::Failed {
            reason: StopReason::BackoffCapReached,
            class: FailureClass::HttpStatus(500),
        }
    );
    assert_eq!(sleeps, vec![30]);
}

// The same pattern with transport failures keeps retrying at the capped
// sleep until the attempts are exhausted.
#[test]
fn transport_failures_keep_retrying_at_the_cap() {
    let mut engine = FetchEngine::start(&request(5, 30)).unwrap();
    let mut sleeps: Vec<u64> = Vec::new();

    for attempt in 1..=4u32 {
        engine.on_outcome(&transport_failure());
        match engine.state {
            EngineState::Waiting { sleep_secs, next_attempt } => {
                sleeps.push(sleep_secs);
                assert_eq!(next_attempt, attempt + 1);
            }
            other => panic!("expected a wait, got {other:?}"),
        }
        engine.on_wake();
    }
    engine.on_outcome(&transport_failure());
    assert_eq!(
        engine.state,
        EngineState::Failed {
            reason: StopReason::AttemptsExhausted,
            class: FailureClass::NetworkTransport,
        }
    );
    // First sleep is below the cap, all later ones exactly at it.
    assert_eq!(sleeps, vec![30, 60, 60, 60]);
}

// The same two scenarios end to end, through the scripted runner.
#[test]
fn scripted_run_exhausts_after_two_sleeps() {
    let outcomes = vec![http_failure(503), http_failure(503), http_failure(503)];
    let (state, sleeps) = run_scripted(&request(3, 2), &outcomes).unwrap();
    assert_eq!(
        state,
        EngineState::Failed {
            reason: StopReason::AttemptsExhausted,
            class: FailureClass::HttpStatus(503),
        }
    );
    assert_eq!(sleeps, vec![2, 4]);
}

#[test]
fn scripted_run_stops_at_the_cap_after_one_sleep() {
    let outcomes = vec![
        http_failure(500),
        http_failure(500),
        http_failure(500),
        http_failure(500),
        http_failure(500),
    ];
    let (state, sleeps) = run_scripted(&request(5, 30), &outcomes).unwrap();
    assert_eq!(
        state,
        EngineState::Failed {
            reason: StopReason::BackoffCapReached,
            class: FailureClass::HttpStatus(500),
        }
    );
    assert_eq!(sleeps, vec![30]);
}

#[test]
fn scripted_run_succeeds_mid_script() {
    let outcomes = vec![
        transport_failure(),
        AttemptOutcome::Success(vec![42; 8]),
        http_failure(500),
    ];
    let (state, sleeps) = run_scripted(&request(4, 1), &outcomes).unwrap();
    assert_eq!(state, EngineState::Succeeded);
    assert_eq!(sleeps, vec![1]);
}

#[test]
fn scripted_run_refuses_zero_attempts() {
    let r = run_scripted(&request(0, 1), &Vec::new());
    assert!(matches!(r, Err(FetchError::Configuration)));
}

#[test]
fn base_delay_is_raised_to_one_second() {
    let engine = FetchEngine::start(&request(2, 0)).unwrap();
    assert_eq!(engine.base_delay_secs, 1);
    let mut engine = engine;
    engine.on_outcome(&transport_failure());
    assert_eq!(
        engine.state,
        EngineState::Waiting { sleep_secs: 1, next_attempt: 2 }
    );
}
