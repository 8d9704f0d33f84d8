use vstd::arithmetic::div_mod::{lemma_div_is_ordered, lemma_div_multiples_vanish};
use vstd::prelude::*;

use crate::stats::Stats;

verus! {

/// The sum of a sequence of latencies.
pub open spec fn sum_of(s: Seq<u64>) -> int
    decreases s.len(),
{
    if s.len() == 0 {
        0
    } else {
        sum_of(s.drop_last()) + s.last()
    }
}

/// The least latency of `s`, or 0 where `s` is empty.
pub open spec fn min_of(s: Seq<u64>) -> int
    decreases s.len(),
{
    if s.len() == 0 {
        0
    } else if s.len() == 1 {
        s[0] as int
    } else {
        let rest = min_of(s.drop_last());
        if s.last() < rest {
            s.last() as int
        } else {
            rest
        }
    }
}

/// The greatest latency of `s`, or 0 where `s` is empty.
pub open spec fn max_of(s: Seq<u64>) -> int
    decreases s.len(),
{
    if s.len() == 0 {
        0
    } else if s.len() == 1 {
        s[0] as int
    } else {
        let rest = max_of(s.drop_last());
        if s.last() > rest {
            s.last() as int
        } else {
            rest
        }
    }
}

/// The mean latency of `s`, truncated, or 0 where `s` is empty.
pub open spec fn avg_of(s: Seq<u64>) -> int {
    if s.len() == 0 {
        0
    } else {
        sum_of(s) / s.len() as int
    }
}

/// `part` out of `total` as a truncated percentage, or 0 where `total`
/// is 0.
pub open spec fn percent_of(part: int, total: int) -> int {
    if total == 0 {
        0
    } else {
        part * 100 / total
    }
}

/// Completed requests per second, truncated: `success` successes over
/// `elapsed_ms` milliseconds, or 0 where no time has elapsed yet.
pub open spec fn throughput_of(success: int, elapsed_ms: int) -> int {
    if elapsed_ms == 0 {
        0
    } else {
        success * 1000 / elapsed_ms
    }
}

/// A non-empty sequence's extremes are elements, so they lie within the
/// latency type's range, in order.
proof fn lemma_min_max_range(s: Seq<u64>)
    ensures
        s.len() > 0 ==> 0 <= min_of(s) <= max_of(s) <= u64::MAX,
        s.len() == 0 ==> min_of(s) == 0 && max_of(s) == 0,
    decreases s.len(),
{
    if s.len() > 1 {
        lemma_min_max_range(s.drop_last());
    }
}

/// The sum of a non-empty sequence lies between its length times its
/// least element and its length times its greatest.
proof fn lemma_sum_bounds(s: Seq<u64>)
    requires
        s.len() > 0,
    ensures
        min_of(s) * s.len() <= sum_of(s) <= max_of(s) * s.len(),
    decreases s.len(),
{
    let n = s.len() as int;
    let mn = min_of(s);
    let mx = max_of(s);
    if s.len() == 1 {
        assert(sum_of(s.drop_last()) == 0);
    } else {
        let rest = s.drop_last();
        lemma_sum_bounds(rest);
        lemma_min_max_range(rest);
        assert(mn * (n - 1) <= min_of(rest) * (n - 1)) by (nonlinear_arith)
            requires
                mn <= min_of(rest),
                n >= 2,
        ;
        assert(max_of(rest) * (n - 1) <= mx * (n - 1)) by (nonlinear_arith)
            requires
                max_of(rest) <= mx,
                n >= 2,
        ;
        assert(mn * (n - 1) + mn == mn * n) by (nonlinear_arith);
        assert(mx * (n - 1) + mx == mx * n) by (nonlinear_arith);
    }
}

/// Law: the mean latency lies between the least and the greatest latency
/// whenever any latency was observed, and all three are 0 where none was.
pub proof fn lemma_avg_between_min_max(s: Seq<u64>)
    ensures
        s.len() > 0 ==> min_of(s) <= avg_of(s) <= max_of(s),
        s.len() == 0 ==> min_of(s) == 0 && max_of(s) == 0 && avg_of(s) == 0,
{
    if s.len() > 0 {
        let n = s.len() as int;
        let mn = min_of(s);
        let mx = max_of(s);
        lemma_min_max_range(s);
        lemma_sum_bounds(s);
        assert(mn * n == n * mn) by (nonlinear_arith);
        assert(mx * n == n * mx) by (nonlinear_arith);
        lemma_div_multiples_vanish(mn, n);
        lemma_div_multiples_vanish(mx, n);
        lemma_div_is_ordered(n * mn, sum_of(s), n);
        lemma_div_is_ordered(sum_of(s), n * mx, n);
    }
}

/// An immutable, derived view of the statistics at one point in time:
/// the latency distribution, the outcome totals, the per-status counts,
/// and the derived ratios. Recomputed from `Stats` on demand and never
/// mutated.
#[derive(Clone, Debug)]
pub struct Snapshot {
    /// Mean latency of the successful requests, in milliseconds, 0 when
    /// none succeeded.
    pub avg_ms: u64,
    /// Least observed latency, 0 when none succeeded.
    pub min_ms: u64,
    /// Greatest observed latency, 0 when none succeeded.
    pub max_ms: u64,
    /// How many requests succeeded.
    pub total_success: usize,
    /// How many requests failed, of all kinds together.
    pub total_errors: usize,
    /// How many requests were dispatched.
    pub total_requests: usize,
    /// How many attempts failed to establish a connection.
    pub connect_errors: usize,
    /// How many attempts timed out.
    pub timeout_errors: usize,
    /// How many attempts ended in an HTTP error status or another
    /// transport failure.
    pub other_errors: usize,
    /// Occurrence count per HTTP status code seen.
    pub status_codes: Vec<(u16, usize)>,
    /// Wall-clock time since the run started, in milliseconds.
    pub elapsed_ms: u64,
    /// Successful requests per second, truncated, 0 while no time has
    /// elapsed.
    pub throughput_rps: u128,
    /// Successes out of dispatched requests, as a truncated percentage.
    pub success_pct: u64,
    /// Errors out of dispatched requests, as a truncated percentage.
    pub error_pct: u64,
}

/// What it means for a snapshot to be the one derived from `s`: every
/// field is pinned to its formula over `s`.
pub open spec fn spec_matches(snap: Snapshot, s: Stats) -> bool {
    &&& snap.avg_ms == avg_of(s.response_times@)
    &&& snap.min_ms == min_of(s.response_times@)
    &&& snap.max_ms == max_of(s.response_times@)
    &&& snap.total_success == s.response_times@.len()
    &&& snap.total_errors == s.spec_total_errors()
    &&& snap.total_requests == s.total_requests
    &&& snap.connect_errors == s.connect_errors
    &&& snap.timeout_errors == s.timeout_errors
    &&& snap.other_errors == s.other_errors
    &&& snap.status_codes@ == s.status_codes@
    &&& snap.elapsed_ms == s.elapsed_ms
    &&& snap.throughput_rps == throughput_of(s.response_times@.len() as int, s.elapsed_ms as int)
    &&& snap.success_pct == percent_of(s.response_times@.len() as int, s.total_requests as int)
    &&& snap.error_pct == percent_of(s.spec_total_errors(), s.total_requests as int)
}

/// Law: deriving a snapshot is idempotent — two snapshots taken from the
/// same statistics, with no outcome recorded in between, agree in every
/// field.
pub proof fn lemma_snapshot_idempotent(a: Snapshot, b: Snapshot, s: Stats)
    requires
        spec_matches(a, s),
        spec_matches(b, s),
    ensures
        a.avg_ms == b.avg_ms,
        a.min_ms == b.min_ms,
        a.max_ms == b.max_ms,
        a.total_success == b.total_success,
        a.total_errors == b.total_errors,
        a.total_requests == b.total_requests,
        a.connect_errors == b.connect_errors,
        a.timeout_errors == b.timeout_errors,
        a.other_errors == b.other_errors,
        a.status_codes@ == b.status_codes@,
        a.elapsed_ms == b.elapsed_ms,
        a.throughput_rps == b.throughput_rps,
        a.success_pct == b.success_pct,
        a.error_pct == b.error_pct,
{
}

/// `part` out of `total` as a truncated percentage, 0 where `total` is 0.
fn percent(part: usize, total: usize) -> (r: u64)
    requires
        part <= total,
    ensures
        r == percent_of(part as int, total as int),
        r <= 100,
{
    if total == 0 {
        0
    } else {
        let p: u128 = (part as u128) * 100 / (total as u128);
        proof {
            assert(part * 100 <= total * 100) by (nonlinear_arith)
                requires
                    part <= total,
            ;
            lemma_div_is_ordered(part as int * 100, total as int * 100, total as int);
            assert(total as int * 100 == total as int * 100int);
            lemma_div_multiples_vanish(100, total as int);
            assert(total as int * 100 / total as int == 100);
        }
        p as u64
    }
}

/// A copy of the per-status entries, handed out so the renderer owns its
/// own list.
fn copy_entries(v: &Vec<(u16, usize)>) -> (r: Vec<(u16, usize)>)
    ensures
        r@ == v@,
{
    let n = v.len();
    let mut r: Vec<(u16, usize)> = Vec::new();
    let mut i: usize = 0;
    while i < n
        invariant
            n == v@.len(),
            0 <= i <= n,
            r@ == v@.take(i as int),
        decreases n - i,
    {
        r.push(v[i]);
        proof {
            assert(v@.take(i + 1) =~= v@.take(i as int).push(v@[i as int]));
        }
        i = i + 1;
    }
    proof {
        assert(v@.take(n as int) =~= v@);
    }
    r
}

impl Stats {
    /// The mean, least and greatest latency of the successful requests so
    /// far, each 0 when none succeeded.
    pub fn response_avg_min_max(&self) -> (r: (u64, u64, u64))
        ensures
            r.0 == avg_of(self.response_times@),
            r.1 == min_of(self.response_times@),
            r.2 == max_of(self.response_times@),
    {
        let v = &self.response_times;
        let n = v.len();
        if n == 0 {
            return (0, 0, 0);
        }
        let mut sum: u128 = v[0] as u128;
        let mut mn: u64 = v[0];
        let mut mx: u64 = v[0];
        let mut i: usize = 1;
        proof {
            let t = v@.take(1);
            assert(t.len() == 1);
            assert(t.drop_last() =~= Seq::<u64>::empty());
            assert(sum_of(Seq::<u64>::empty()) == 0);
            assert(t.last() == v@[0]);
            assert(sum_of(t) == v@[0]);
        }
        while i < n
            invariant
                n == v@.len(),
                1 <= i <= n,
                sum == sum_of(v@.take(i as int)),
                sum <= i * 0xffff_ffff_ffff_ffffu64,
                mn == min_of(v@.take(i as int)),
                mx == max_of(v@.take(i as int)),
            decreases n - i,
        {
            proof {
                assert(v@.take(i + 1).drop_last() =~= v@.take(i as int));
                assert(v@.take(i + 1).last() == v@[i as int]);
            }
            let x = v[i];
            sum = sum + (x as u128);
            if x < mn {
                mn = x;
            }
            if x > mx {
                mx = x;
            }
            i = i + 1;
        }
        proof {
            assert(v@.take(n as int) =~= v@);
            lemma_avg_between_min_max(v@);
            lemma_min_max_range(v@);
        }
        let avg: u128 = sum / (n as u128);
        ((avg as u64), mn, mx)
    }

    /// Derives the summary metrics from the current statistics: a pure
    /// computation, callable at any time, including mid-run for live
    /// display.
    pub fn snapshot(&self) -> (snap: Snapshot)
        requires
            self.wf(),
        ensures
            spec_matches(snap, *self),
    {
        let (avg_ms, min_ms, max_ms) = self.response_avg_min_max();
        let total_success = self.total_success();
        let total_errors = self.total_errors();
        let total_requests = self.total_requests();
        let throughput_rps: u128 = if self.elapsed_ms == 0 {
            0
        } else {
            (total_success as u128) * 1000 / (self.elapsed_ms as u128)
        };
        Snapshot {
            avg_ms,
            min_ms,
            max_ms,
            total_success,
            total_errors,
            total_requests,
            connect_errors: self.connect_errors,
            timeout_errors: self.timeout_errors,
            other_errors: self.other_errors,
            status_codes: copy_entries(&self.status_codes),
            elapsed_ms: self.elapsed_ms,
            throughput_rps,
            success_pct: percent(total_success, total_requests),
            error_pct: percent(total_errors, total_requests),
        }
    }
}

} // verus!
