use paine::outcome::{classify, FetchResult, Outcome, TransportFailure};
use paine::snapshot::Snapshot;
use paine::stats::{aggregate, aggregate_up_to, Stats};

fn snapshots_agree(a: &Snapshot, b: &Snapshot) -> bool {
    a.avg_ms == b.avg_ms
        && a.min_ms == b.min_ms
        && a.max_ms == b.max_ms
        && a.total_success == b.total_success
        && a.total_errors == b.total_errors
        && a.total_requests == b.total_requests
        && a.connect_errors == b.connect_errors
        && a.timeout_errors == b.timeout_errors
        && a.other_errors == b.other_errors
        && a.status_codes == b.status_codes
        && a.elapsed_ms == b.elapsed_ms
        && a.throughput_rps == b.throughput_rps
        && a.success_pct == b.success_pct
        && a.error_pct == b.error_pct
}

#[test]
fn empty_stats_snapshot_is_all_zero() {
    let s = Stats::new();
    let snap = s.snapshot();
    assert_eq!(snap.avg_ms, 0);
    assert_eq!(snap.min_ms, 0);
    assert_eq!(snap.max_ms, 0);
    assert_eq!(snap.total_success, 0);
    assert_eq!(snap.total_errors, 0);
    assert_eq!(snap.total_requests, 0);
    assert_eq!(snap.throughput_rps, 0);
    assert_eq!(snap.success_pct, 0);
    assert_eq!(snap.error_pct, 0);
    assert!(snap.status_codes.is_empty());
}

#[test]
fn each_outcome_is_recorded_once() {
    // One outcome per submitted request: after the drain, successes and
    // errors together account for every outcome.
    let outcomes = vec![
        Outcome::Success { status: 200, latency_ms: 12 },
        Outcome::HttpError { status: 500 },
        Outcome::Timeout,
        Outcome::ConnectFailure,
        Outcome::OtherFailure,
        Outcome::Success { status: 201, latency_ms: 8 },
    ];
    let s = aggregate(&outcomes);
    assert_eq!(s.total_requests, 6);
    assert_eq!(s.total_success(), 2);
    assert_eq!(s.total_errors(), 4);
    assert_eq!(s.total_success() + s.total_errors(), 6);
    assert_eq!(s.connect_errors, 1);
    assert_eq!(s.timeout_errors, 1);
    assert_eq!(s.other_errors, 2);
    assert_eq!(s.response_times, vec![12, 8]);
}

#[test]
fn a_known_total_bounds_consumption() {
    // A fixed-iteration run knows its total upfront and consumes no more
    // than that, even if the stream unexpectedly carries extra outcomes.
    let outcomes = vec![
        Outcome::Success { status: 200, latency_ms: 1 },
        Outcome::Success { status: 200, latency_ms: 2 },
        Outcome::Timeout,
        Outcome::Success { status: 200, latency_ms: 9 },
    ];
    let s = aggregate_up_to(&outcomes, 3);
    assert_eq!(s.total_requests, 3);
    assert_eq!(s.total_success(), 2);
    assert_eq!(s.timeout_errors, 1);
    assert_eq!(s.response_times, vec![1, 2]);

    // Where the stream closes early, everything delivered is consumed.
    let s = aggregate_up_to(&outcomes, 10);
    assert_eq!(s.total_requests, 4);
    assert_eq!(s.total_success(), 3);
}

#[test]
fn totals_are_bounded_until_the_drain_completes() {
    // Dispatch three requests but record only two outcomes: successes and
    // errors stay below the attempts until the run drains.
    let mut s = Stats::new();
    s.record_attempt();
    s.record_attempt();
    s.record_attempt();
    s.record_outcome(Outcome::Success { status: 200, latency_ms: 5 });
    s.record_outcome(Outcome::Timeout);
    assert!(s.total_success() + s.total_errors() <= s.total_requests());
    assert_eq!(s.total_success() + s.total_errors(), 2);
    assert_eq!(s.total_requests(), 3);
    s.record_outcome(Outcome::ConnectFailure);
    assert_eq!(s.total_success() + s.total_errors(), s.total_requests());
}

#[test]
fn average_lies_between_min_and_max() {
    let mut s = Stats::new();
    s.consume(Outcome::Success { status: 200, latency_ms: 10 });
    s.consume(Outcome::Success { status: 200, latency_ms: 30 });
    s.consume(Outcome::Success { status: 200, latency_ms: 21 });
    let (avg, min, max) = s.response_avg_min_max();
    assert_eq!(min, 10);
    assert_eq!(max, 30);
    assert_eq!(avg, 20);
    assert!(min <= avg && avg <= max);
}

#[test]
fn average_of_nothing_is_zero() {
    let s = Stats::new();
    assert_eq!(s.response_avg_min_max(), (0, 0, 0));
}

#[test]
fn snapshot_is_idempotent() {
    let mut s = Stats::new();
    s.consume(Outcome::Success { status: 200, latency_ms: 10 });
    s.consume(Outcome::HttpError { status: 503 });
    s.consume(Outcome::Timeout);
    s.set_elapsed_ms(1500);
    let first = s.snapshot();
    let second = s.snapshot();
    assert!(snapshots_agree(&first, &second));
}

#[test]
fn all_500s_count_as_other_errors_with_no_latencies() {
    let outcomes: Vec<Outcome> = (0..25)
        .map(|_| classify(FetchResult::Response { status: 500, latency_ms: 7 }))
        .collect();
    let s = aggregate(&outcomes);
    assert_eq!(s.status_codes, vec![(500, 25)]);
    assert_eq!(s.status_count(500), 25);
    assert_eq!(s.other_errors, 25);
    assert!(s.response_times.is_empty());
    assert_eq!(s.connect_errors, 0);
    assert_eq!(s.timeout_errors, 0);
    let snap = s.snapshot();
    assert_eq!(snap.success_pct, 0);
    assert_eq!(snap.error_pct, 100);
}

#[test]
fn slow_responses_all_classify_as_timeouts() {
    // A target that blows through its timeout on every request: the
    // transport reports a timeout each time, never a connection failure.
    let outcomes: Vec<Outcome> =
        (0..40).map(|_| classify(FetchResult::Failure(TransportFailure::Timeout))).collect();
    assert!(outcomes.iter().all(|o| *o == Outcome::Timeout));
    let s = aggregate(&outcomes);
    assert_eq!(s.timeout_errors, 40);
    assert_eq!(s.connect_errors, 0);
    assert_eq!(s.other_errors, 0);
    assert!(s.response_times.is_empty());
}

#[test]
fn mixed_run_of_one_hundred() {
    // Ten workers, ten iterations each: 70 successes at 50 ms and 30
    // connection failures.
    let mut outcomes = Vec::new();
    for _ in 0..70 {
        outcomes.push(classify(FetchResult::Response { status: 200, latency_ms: 50 }));
    }
    for _ in 0..30 {
        outcomes.push(classify(FetchResult::Failure(TransportFailure::Connect)));
    }
    let s = aggregate(&outcomes);
    assert_eq!(s.total_requests, 100);
    assert_eq!(s.response_times.len(), 70);
    assert_eq!(s.connect_errors, 30);
    let (avg, min, max) = s.response_avg_min_max();
    assert_eq!(avg, 50);
    assert_eq!(min, 50);
    assert_eq!(max, 50);
    let snap = s.snapshot();
    assert_eq!(snap.success_pct, 70);
    assert_eq!(snap.error_pct, 30);
    assert_eq!(snap.status_codes, vec![(200, 70)]);
}

#[test]
fn status_codes_merge_successes_and_http_errors() {
    let outcomes = vec![
        Outcome::Success { status: 200, latency_ms: 4 },
        Outcome::HttpError { status: 404 },
        Outcome::Success { status: 200, latency_ms: 6 },
        Outcome::HttpError { status: 500 },
        Outcome::HttpError { status: 404 },
    ];
    let s = aggregate(&outcomes);
    assert_eq!(s.status_count(200), 2);
    assert_eq!(s.status_count(404), 2);
    assert_eq!(s.status_count(500), 1);
    assert_eq!(s.status_count(302), 0);
    assert_eq!(s.status_codes.len(), 3);
}

#[test]
fn throughput_counts_successes_per_second() {
    let mut s = Stats::new();
    for _ in 0..6 {
        s.consume(Outcome::Success { status: 200, latency_ms: 100 });
    }
    s.set_elapsed_ms(2000);
    let snap = s.snapshot();
    assert_eq!(snap.throughput_rps, 3);
    assert_eq!(snap.elapsed_ms, 2000);

    // Before any time has elapsed the throughput is reported as zero
    // rather than dividing by zero.
    let mut s = Stats::new();
    s.consume(Outcome::Success { status: 200, latency_ms: 1 });
    let snap = s.snapshot();
    assert_eq!(snap.elapsed_ms, 0);
    assert_eq!(snap.throughput_rps, 0);
}

#[test]
fn percentages_truncate() {
    let mut s = Stats::new();
    s.consume(Outcome::Success { status: 200, latency_ms: 1 });
    s.consume(Outcome::Success { status: 200, latency_ms: 1 });
    s.consume(Outcome::ConnectFailure);
    let snap = s.snapshot();
    assert_eq!(snap.total_requests, 3);
    assert_eq!(snap.success_pct, 66);
    assert_eq!(snap.error_pct, 33);
}
