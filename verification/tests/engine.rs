use paine::config::{Policy, RunConfig, ValidationError};
use paine::dispatch::{expected_total, pacing_interval_micros, pool_cap, RatePacer, MAX_WORKERS};
use paine::outcome::{classify, FetchResult, Outcome, TransportFailure};

fn rate_config(rate: u16, duration_secs: u64, timeout_secs: u64) -> RunConfig {
    RunConfig {
        url: String::from("http://localhost:8080/"),
        timeout_secs,
        policy: Policy::RatePaced { rate, duration_secs },
    }
}

fn fixed_config(concurrency: usize, iterations: usize, timeout_secs: u64) -> RunConfig {
    RunConfig {
        url: String::from("http://localhost:8080/"),
        timeout_secs,
        policy: Policy::FixedIterations { concurrency, iterations },
    }
}

#[test]
fn classify_2xx_is_success_with_latency() {
    assert_eq!(
        classify(FetchResult::Response { status: 200, latency_ms: 42 }),
        Outcome::Success { status: 200, latency_ms: 42 }
    );
    assert_eq!(
        classify(FetchResult::Response { status: 204, latency_ms: 1 }),
        Outcome::Success { status: 204, latency_ms: 1 }
    );
    assert_eq!(
        classify(FetchResult::Response { status: 299, latency_ms: 0 }),
        Outcome::Success { status: 299, latency_ms: 0 }
    );
}

#[test]
fn classify_non_2xx_is_http_error_discarding_latency() {
    assert_eq!(
        classify(FetchResult::Response { status: 500, latency_ms: 42 }),
        Outcome::HttpError { status: 500 }
    );
    assert_eq!(
        classify(FetchResult::Response { status: 404, latency_ms: 3 }),
        Outcome::HttpError { status: 404 }
    );
    assert_eq!(
        classify(FetchResult::Response { status: 199, latency_ms: 3 }),
        Outcome::HttpError { status: 199 }
    );
    assert_eq!(
        classify(FetchResult::Response { status: 300, latency_ms: 3 }),
        Outcome::HttpError { status: 300 }
    );
}

#[test]
fn classify_transport_failures_by_cause() {
    assert_eq!(classify(FetchResult::Failure(TransportFailure::Timeout)), Outcome::Timeout);
    assert_eq!(
        classify(FetchResult::Failure(TransportFailure::Connect)),
        Outcome::ConnectFailure
    );
    assert_eq!(classify(FetchResult::Failure(TransportFailure::Other)), Outcome::OtherFailure);
}

#[test]
fn validate_accepts_positive_parameters() {
    assert_eq!(rate_config(10, 60, 10).validate(), Ok(()));
    assert_eq!(fixed_config(10, 10, 10).validate(), Ok(()));
}

#[test]
fn validate_rejects_zero_timeout() {
    assert_eq!(rate_config(10, 60, 0).validate(), Err(ValidationError::ZeroTimeout));
    assert_eq!(fixed_config(10, 10, 0).validate(), Err(ValidationError::ZeroTimeout));
}

#[test]
fn validate_rejects_zero_rate() {
    assert_eq!(rate_config(0, 60, 10).validate(), Err(ValidationError::ZeroRate));
}

#[test]
fn validate_rejects_zero_duration() {
    assert_eq!(rate_config(10, 0, 10).validate(), Err(ValidationError::ZeroDuration));
}

#[test]
fn validate_rejects_zero_concurrency() {
    assert_eq!(fixed_config(0, 10, 10).validate(), Err(ValidationError::ZeroConcurrency));
}

#[test]
fn validate_rejects_zero_iterations() {
    assert_eq!(fixed_config(10, 0, 10).validate(), Err(ValidationError::ZeroIterations));
}

#[test]
fn pool_is_capped_at_the_maximum() {
    assert_eq!(MAX_WORKERS, 50);
    assert_eq!(pool_cap(10), 10);
    assert_eq!(pool_cap(50), 50);
    assert_eq!(pool_cap(2000), 50);
}

#[test]
fn pacing_interval_is_the_inverse_of_the_rate() {
    assert_eq!(pacing_interval_micros(1), 1_000_000);
    assert_eq!(pacing_interval_micros(10), 100_000);
    assert_eq!(pacing_interval_micros(3), 333_333);
    assert_eq!(pacing_interval_micros(u16::MAX), 15);
}

#[test]
fn expected_total_is_the_product() {
    assert_eq!(expected_total(10, 10), Some(100));
    assert_eq!(expected_total(7, 3), Some(21));
    assert_eq!(expected_total(usize::MAX, 2), None);
}

#[test]
fn one_worker_one_iteration_is_one_request() {
    let total = expected_total(1, 1);
    assert_eq!(total, Some(1));
    let outcomes = vec![Outcome::Success { status: 200, latency_ms: 5 }];
    let stats = paine::stats::aggregate_up_to(&outcomes, total.unwrap());
    assert_eq!(stats.total_requests, 1);
    assert_eq!(stats.total_success(), 1);
    assert_eq!(stats.total_errors(), 0);
}

#[test]
fn rate_one_duration_one_submits_at_most_two() {
    // A run at one request per second for one second: the dispatch loop
    // submits one request at the start, sleeps the pacing interval, and
    // checks the clock again. Even if the sleep undershoots slightly, at
    // most one more submission fits before the one-second boundary.
    let interval = pacing_interval_micros(1) as u128;
    let mut pacer = RatePacer::new(1);
    let mut clock: u128 = 0;
    while pacer.should_submit(clock) {
        pacer.note_submitted();
        // A sleep may wake a little early; model a 1% undershoot.
        clock += interval - interval / 100;
    }
    assert!(pacer.submitted <= 2);
    assert_eq!(pacer.submitted, 2);

    // With exact sleeps, exactly one submission fits.
    let mut pacer = RatePacer::new(1);
    let mut clock: u128 = 0;
    while pacer.should_submit(clock) {
        pacer.note_submitted();
        clock += interval;
    }
    assert_eq!(pacer.submitted, 1);
}

#[test]
fn pacer_stops_exactly_at_the_duration() {
    let pacer = RatePacer::new(2);
    assert!(pacer.should_submit(0));
    assert!(pacer.should_submit(1_999_999));
    assert!(!pacer.should_submit(2_000_000));
    assert!(!pacer.should_submit(2_000_001));
}
