use vstd::prelude::*;

verus! {

/// Upper bound on the size of the worker pool, whatever level of
/// parallelism is requested.
pub const MAX_WORKERS: usize = 50;

/// Size of the worker pool for a requested level of parallelism: the
/// request, capped at `MAX_WORKERS` to bound resource usage.
pub fn pool_cap(requested: usize) -> (r: usize)
    ensures
        r == if requested < MAX_WORKERS { requested as int } else { MAX_WORKERS as int },
        r <= MAX_WORKERS,
        r <= requested,
{
    if requested < MAX_WORKERS {
        requested
    } else {
        MAX_WORKERS
    }
}

/// The pause between consecutive submissions when pacing `rate` requests
/// per second: `1/rate` seconds, expressed in microseconds (truncated).
pub fn pacing_interval_micros(rate: u16) -> (r: u64)
    requires
        rate > 0,
    ensures
        r == 1_000_000int / rate as int,
        r > 0,
{
    proof {
        vstd::arithmetic::div_mod::lemma_div_non_zero(1_000_000int, rate as int);
    }
    1_000_000u64 / (rate as u64)
}

/// The scheduling state of a rate-paced run: the dispatch loop asks it, at
/// each tick of its own clock, whether one more request may be submitted
/// before the configured duration elapses, and tells it when one was.
///
/// The decisions live here; the host performs the submissions, the pacing
/// sleeps and the clock reads, and closes the outcome stream as soon as
/// `should_submit` first answers no.
pub struct RatePacer {
    /// The configured duration of the run, in microseconds.
    pub duration_micros: u128,
    /// How many requests have been submitted so far.
    pub submitted: usize,
}

impl RatePacer {
    /// A pacer for a run of `duration_secs` seconds, with nothing
    /// submitted yet.
    pub fn new(duration_secs: u64) -> (p: RatePacer)
        ensures
            p.duration_micros == duration_secs * 1_000_000int,
            p.submitted == 0,
    {
        RatePacer { duration_micros: (duration_secs as u128) * 1_000_000, submitted: 0 }
    }

    /// Whether one more request may be submitted: yes exactly while the
    /// elapsed time has not yet reached the configured duration. Once this
    /// answers no, no further request is submitted and in-flight requests
    /// are left to drain.
    pub fn should_submit(&self, elapsed_micros: u128) -> (b: bool)
        ensures
            b <==> elapsed_micros < self.duration_micros,
    {
        elapsed_micros < self.duration_micros
    }

    /// Notes that one request was submitted to the worker pool.
    pub fn note_submitted(&mut self)
        requires
            old(self).submitted < usize::MAX,
        ensures
            final(self).submitted == old(self).submitted + 1,
            final(self).duration_micros == old(self).duration_micros,
    {
        self.submitted = self.submitted + 1;
    }
}

/// The number of requests a fixed-iteration run performs in total:
/// `concurrency * iterations`, known before the run starts, or `None`
/// where that product does not fit in `usize`. The aggregator consumes
/// exactly this many outcomes before declaring the run complete.
pub fn expected_total(concurrency: usize, iterations: usize) -> (r: Option<usize>)
    ensures
        match r {
            Some(n) => n == concurrency * iterations,
            None => concurrency * iterations > usize::MAX,
        },
{
    concurrency.checked_mul(iterations)
}

} // verus!
