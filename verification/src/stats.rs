use vstd::prelude::*;

use crate::outcome::Outcome;

verus! {

/// The occurrence count that a sequence of `(status code, count)` entries
/// records for `code`: the count of the entry carrying `code`, or 0 where
/// no entry does.
pub open spec fn spec_status_count(entries: Seq<(u16, usize)>, code: u16) -> int
    decreases entries.len(),
{
    if entries.len() == 0 {
        0
    } else if entries.last().0 == code {
        entries.last().1 as int
    } else {
        spec_status_count(entries.drop_last(), code)
    }
}

/// No status code appears in two entries.
pub open spec fn status_keys_unique(entries: Seq<(u16, usize)>) -> bool {
    forall|i: int, j: int|
        0 <= i < j < entries.len() ==> (#[trigger] entries[i]).0 != (#[trigger] entries[j]).0
}

/// The latencies of the successful outcomes of `os`, in delivery order.
pub open spec fn success_latencies(os: Seq<Outcome>) -> Seq<u64>
    decreases os.len(),
{
    if os.len() == 0 {
        Seq::empty()
    } else {
        let rest = success_latencies(os.drop_last());
        match os.last() {
            Outcome::Success { latency_ms, .. } => rest.push(latency_ms),
            _ => rest,
        }
    }
}

/// How many outcomes of `os` are connection failures.
pub open spec fn connect_count(os: Seq<Outcome>) -> int
    decreases os.len(),
{
    if os.len() == 0 {
        0
    } else {
        connect_count(os.drop_last()) + if os.last() is ConnectFailure {
            1int
        } else {
            0int
        }
    }
}

/// How many outcomes of `os` are timeouts.
pub open spec fn timeout_count(os: Seq<Outcome>) -> int
    decreases os.len(),
{
    if os.len() == 0 {
        0
    } else {
        timeout_count(os.drop_last()) + if os.last() is Timeout {
            1int
        } else {
            0int
        }
    }
}

/// How many outcomes of `os` feed the "other errors" counter: HTTP error
/// statuses and other transport failures both do.
pub open spec fn other_count(os: Seq<Outcome>) -> int
    decreases os.len(),
{
    if os.len() == 0 {
        0
    } else {
        other_count(os.drop_last()) + if os.last() is HttpError || os.last() is OtherFailure {
            1int
        } else {
            0int
        }
    }
}

/// How many outcomes of `os` carry the status `code`: successes and HTTP
/// errors both record their status.
pub open spec fn status_occurrences(os: Seq<Outcome>, code: u16) -> int
    decreases os.len(),
{
    if os.len() == 0 {
        0
    } else {
        status_occurrences(os.drop_last(), code) + match os.last() {
            Outcome::Success { status, .. } => if status == code {
                1int
            } else {
                0int
            },
            Outcome::HttpError { status } => if status == code {
                1int
            } else {
                0int
            },
            _ => 0int,
        }
    }
}

/// The running aggregate of every outcome seen so far in one run. Created
/// empty at run start, mutated only through its methods — one call per
/// dispatched request or consumed outcome, each an atomic unit of work —
/// and read repeatedly by the report path.
pub struct Stats {
    /// Latencies of the successful requests, in milliseconds, append-only,
    /// in delivery order.
    pub response_times: Vec<u64>,
    /// Occurrence count per HTTP status code seen, keys unique. Both 2xx
    /// and error statuses are recorded here.
    pub status_codes: Vec<(u16, usize)>,
    /// How many attempts failed to establish a connection.
    pub connect_errors: usize,
    /// How many attempts timed out.
    pub timeout_errors: usize,
    /// How many attempts ended in an HTTP error status or another
    /// transport failure.
    pub other_errors: usize,
    /// How many requests have been dispatched.
    pub total_requests: usize,
    /// Wall-clock time since the run started, in milliseconds, set by the
    /// host for throughput computation.
    pub elapsed_ms: u64,
}

impl Stats {
    /// How many outcomes have been recorded: one per success, one per
    /// error of any kind.
    pub open spec fn recorded_total(self) -> int {
        self.response_times@.len() + self.connect_errors + self.timeout_errors
            + self.other_errors
    }

    /// The errors recorded so far, of all kinds.
    pub open spec fn spec_total_errors(self) -> int {
        self.connect_errors + self.timeout_errors + self.other_errors
    }

    /// Well-formedness, established by `new` and preserved by every
    /// method: status-code keys are unique and carry positive counts, no
    /// more outcomes are recorded than requests were dispatched, and no
    /// status code occurs more often than outcomes that record a status.
    pub open spec fn wf(self) -> bool {
        &&& status_keys_unique(self.status_codes@)
        &&& forall|i: int|
            0 <= i < self.status_codes@.len() ==> (#[trigger] self.status_codes@[i]).1 > 0
        &&& self.recorded_total() <= self.total_requests
        &&& forall|code: u16|
            #[trigger] spec_status_count(self.status_codes@, code) <= self.response_times@.len()
                + self.other_errors
    }

    /// Whether every dispatched request has had its outcome recorded.
    pub open spec fn drained(self) -> bool {
        self.recorded_total() == self.total_requests
    }

    /// The empty aggregate of a run that has not dispatched anything.
    pub fn new() -> (s: Stats)
        ensures
            s.wf(),
            s.response_times@ =~= Seq::<u64>::empty(),
            s.status_codes@ =~= Seq::<(u16, usize)>::empty(),
            s.connect_errors == 0,
            s.timeout_errors == 0,
            s.other_errors == 0,
            s.total_requests == 0,
            s.elapsed_ms == 0,
    {
        Stats {
            response_times: Vec::new(),
            status_codes: Vec::new(),
            connect_errors: 0,
            timeout_errors: 0,
            other_errors: 0,
            total_requests: 0,
            elapsed_ms: 0,
        }
    }

    /// Notes that one more request was dispatched, before its outcome is
    /// known. Rate-paced dispatch counts attempts here; nothing else
    /// changes.
    pub fn record_attempt(&mut self)
        requires
            old(self).wf(),
            old(self).total_requests < usize::MAX,
        ensures
            final(self).wf(),
            final(self).total_requests == old(self).total_requests + 1,
            final(self).response_times@ == old(self).response_times@,
            final(self).status_codes@ == old(self).status_codes@,
            final(self).connect_errors == old(self).connect_errors,
            final(self).timeout_errors == old(self).timeout_errors,
            final(self).other_errors == old(self).other_errors,
            final(self).elapsed_ms == old(self).elapsed_ms,
    {
        self.total_requests = self.total_requests + 1;
    }

    /// Records the outcome of one already-dispatched request, as a single
    /// atomic unit of work: a success appends its latency and counts its
    /// status; an HTTP error counts its status and one "other" error; each
    /// transport failure bumps its own counter. Nothing else changes.
    pub fn record_outcome(&mut self, o: Outcome)
        requires
            old(self).wf(),
            old(self).recorded_total() < old(self).total_requests,
        ensures
            final(self).wf(),
            final(self).total_requests == old(self).total_requests,
            final(self).elapsed_ms == old(self).elapsed_ms,
            final(self).recorded_total() == old(self).recorded_total() + 1,
            match o {
                Outcome::Success { status, latency_ms } => {
                    &&& final(self).response_times@ == old(self).response_times@.push(latency_ms)
                    &&& final(self).connect_errors == old(self).connect_errors
                    &&& final(self).timeout_errors == old(self).timeout_errors
                    &&& final(self).other_errors == old(self).other_errors
                    &&& spec_status_count(final(self).status_codes@, status)
                        == spec_status_count(old(self).status_codes@, status) + 1
                    &&& forall|c: u16|
                        c != status ==> #[trigger] spec_status_count(final(self).status_codes@, c)
                            == spec_status_count(old(self).status_codes@, c)
                },
                Outcome::HttpError { status } => {
                    &&& final(self).response_times@ == old(self).response_times@
                    &&& final(self).connect_errors == old(self).connect_errors
                    &&& final(self).timeout_errors == old(self).timeout_errors
                    &&& final(self).other_errors == old(self).other_errors + 1
                    &&& spec_status_count(final(self).status_codes@, status)
                        == spec_status_count(old(self).status_codes@, status) + 1
                    &&& forall|c: u16|
                        c != status ==> #[trigger] spec_status_count(final(self).status_codes@, c)
                            == spec_status_count(old(self).status_codes@, c)
                },
                Outcome::Timeout => {
                    &&& final(self).response_times@ == old(self).response_times@
                    &&& final(self).status_codes@ == old(self).status_codes@
                    &&& final(self).connect_errors == old(self).connect_errors
                    &&& final(self).timeout_errors == old(self).timeout_errors + 1
                    &&& final(self).other_errors == old(self).other_errors
                },
                Outcome::ConnectFailure => {
                    &&& final(self).response_times@ == old(self).response_times@
                    &&& final(self).status_codes@ == old(self).status_codes@
                    &&& final(self).connect_errors == old(self).connect_errors + 1
                    &&& final(self).timeout_errors == old(self).timeout_errors
                    &&& final(self).other_errors == old(self).other_errors
                },
                Outcome::OtherFailure => {
                    &&& final(self).response_times@ == old(self).response_times@
                    &&& final(self).status_codes@ == old(self).status_codes@
                    &&& final(self).connect_errors == old(self).connect_errors
                    &&& final(self).timeout_errors == old(self).timeout_errors
                    &&& final(self).other_errors == old(self).other_errors + 1
                },
            },
    {
        match o {
            Outcome::Success { status, latency_ms } => {
                self.response_times.push(latency_ms);
                bump_status(&mut self.status_codes, status);
            }
            Outcome::HttpError { status } => {
                self.other_errors = self.other_errors + 1;
                bump_status(&mut self.status_codes, status);
            }
            Outcome::Timeout => {
                self.timeout_errors = self.timeout_errors + 1;
            }
            Outcome::ConnectFailure => {
                self.connect_errors = self.connect_errors + 1;
            }
            Outcome::OtherFailure => {
                self.other_errors = self.other_errors + 1;
            }
        }
    }

    /// Consumes one outcome at the aggregator's single consumption point,
    /// counting the request and recording its outcome in one step.
    pub fn consume(&mut self, o: Outcome)
        requires
            old(self).wf(),
            old(self).total_requests < usize::MAX,
        ensures
            final(self).wf(),
            final(self).total_requests == old(self).total_requests + 1,
            final(self).elapsed_ms == old(self).elapsed_ms,
            final(self).recorded_total() == old(self).recorded_total() + 1,
            match o {
                Outcome::Success { status, latency_ms } => {
                    &&& final(self).response_times@ == old(self).response_times@.push(latency_ms)
                    &&& final(self).connect_errors == old(self).connect_errors
                    &&& final(self).timeout_errors == old(self).timeout_errors
                    &&& final(self).other_errors == old(self).other_errors
                    &&& spec_status_count(final(self).status_codes@, status)
                        == spec_status_count(old(self).status_codes@, status) + 1
                    &&& forall|c: u16|
                        c != status ==> #[trigger] spec_status_count(final(self).status_codes@, c)
                            == spec_status_count(old(self).status_codes@, c)
                },
                Outcome::HttpError { status } => {
                    &&& final(self).response_times@ == old(self).response_times@
                    &&& final(self).connect_errors == old(self).connect_errors
                    &&& final(self).timeout_errors == old(self).timeout_errors
                    &&& final(self).other_errors == old(self).other_errors + 1
                    &&& spec_status_count(final(self).status_codes@, status)
                        == spec_status_count(old(self).status_codes@, status) + 1
                    &&& forall|c: u16|
                        c != status ==> #[trigger] spec_status_count(final(self).status_codes@, c)
                            == spec_status_count(old(self).status_codes@, c)
                },
                Outcome::Timeout => {
                    &&& final(self).response_times@ == old(self).response_times@
                    &&& final(self).status_codes@ == old(self).status_codes@
                    &&& final(self).connect_errors == old(self).connect_errors
                    &&& final(self).timeout_errors == old(self).timeout_errors + 1
                    &&& final(self).other_errors == old(self).other_errors
                },
                Outcome::ConnectFailure => {
                    &&& final(self).response_times@ == old(self).response_times@
                    &&& final(self).status_codes@ == old(self).status_codes@
                    &&& final(self).connect_errors == old(self).connect_errors + 1
                    &&& final(self).timeout_errors == old(self).timeout_errors
                    &&& final(self).other_errors == old(self).other_errors
                },
                Outcome::OtherFailure => {
                    &&& final(self).response_times@ == old(self).response_times@
                    &&& final(self).status_codes@ == old(self).status_codes@
                    &&& final(self).connect_errors == old(self).connect_errors
                    &&& final(self).timeout_errors == old(self).timeout_errors
                    &&& final(self).other_errors == old(self).other_errors + 1
                },
            },
    {
        self.record_attempt();
        self.record_outcome(o);
    }

    /// How many requests have been dispatched so far.
    pub fn total_requests(&self) -> (r: usize)
        ensures
            r == self.total_requests,
    {
        self.total_requests
    }

    /// How many requests succeeded: one latency is kept per success.
    pub fn total_success(&self) -> (r: usize)
        ensures
            r == self.response_times@.len(),
    {
        self.response_times.len()
    }

    /// How many requests failed, of all kinds together.
    pub fn total_errors(&self) -> (r: usize)
        requires
            self.wf(),
        ensures
            r == self.spec_total_errors(),
    {
        self.connect_errors + self.timeout_errors + self.other_errors
    }

    /// The recorded occurrence count of one status code.
    pub fn status_count(&self, code: u16) -> (r: usize)
        requires
            status_keys_unique(self.status_codes@),
        ensures
            r == spec_status_count(self.status_codes@, code),
    {
        status_lookup(&self.status_codes, code)
    }

    /// Sets the wall-clock time elapsed since the run started, for
    /// throughput computation. Nothing else changes.
    pub fn set_elapsed_ms(&mut self, ms: u64)
        ensures
            *final(self) == (Stats { elapsed_ms: ms, ..*old(self) }),
    {
        self.elapsed_ms = ms;
    }
}

/// The count recorded for `code`, read off the unique entry carrying it.
fn status_lookup(entries: &Vec<(u16, usize)>, code: u16) -> (r: usize)
    requires
        status_keys_unique(entries@),
    ensures
        r == spec_status_count(entries@, code),
{
    let n = entries.len();
    let mut i: usize = 0;
    while i < n
        invariant
            n == entries@.len(),
            0 <= i <= n,
            status_keys_unique(entries@),
            forall|j: int| 0 <= j < i ==> (#[trigger] entries@[j]).0 != code,
        decreases n - i,
    {
        if entries[i].0 == code {
            proof {
                lemma_status_count_at_index(entries@, i as int);
            }
            return entries[i].1;
        }
        i = i + 1;
    }
    proof {
        lemma_status_count_absent(entries@, code);
    }
    0
}

/// Increments the count recorded for `code` by one, adding an entry where
/// none carried it yet; every other code's count is untouched.
fn bump_status(entries: &mut Vec<(u16, usize)>, code: u16)
    requires
        status_keys_unique(old(entries)@),
        spec_status_count(old(entries)@, code) < usize::MAX,
        forall|i: int| 0 <= i < old(entries)@.len() ==> (#[trigger] old(entries)@[i]).1 > 0,
    ensures
        status_keys_unique(final(entries)@),
        spec_status_count(final(entries)@, code) == spec_status_count(old(entries)@, code) + 1,
        forall|c: u16|
            c != code ==> #[trigger] spec_status_count(final(entries)@, c) == spec_status_count(
                old(entries)@,
                c,
            ),
        forall|i: int| 0 <= i < final(entries)@.len() ==> (#[trigger] final(entries)@[i]).1 > 0,
{
    let n = entries.len();
    let mut i: usize = 0;
    while i < n
        invariant
            n == entries@.len(),
            0 <= i <= n,
            entries@ == old(entries)@,
            status_keys_unique(entries@),
            spec_status_count(entries@, code) < usize::MAX,
            forall|j: int| 0 <= j < entries@.len() ==> (#[trigger] entries@[j]).1 > 0,
            forall|j: int| 0 <= j < i ==> (#[trigger] entries@[j]).0 != code,
        decreases n - i,
    {
        if entries[i].0 == code {
            proof {
                lemma_status_count_at_index(entries@, i as int);
            }
            let count = entries[i].1;
            entries.set(i, (code, count + 1));
            proof {
                lemma_status_count_update(old(entries)@, i as int, (count + 1) as usize);
            }
            return ;
        }
        i = i + 1;
    }
    proof {
        lemma_status_count_absent(entries@, code);
    }
    entries.push((code, 1));
    proof {
        lemma_status_count_push(old(entries)@, code, 1);
    }
}

/// With unique keys, the count recorded for the code of entry `i` is that
/// entry's own count.
proof fn lemma_status_count_at_index(entries: Seq<(u16, usize)>, i: int)
    requires
        status_keys_unique(entries),
        0 <= i < entries.len(),
    ensures
        spec_status_count(entries, entries[i].0) == entries[i].1,
    decreases entries.len(),
{
    if i == entries.len() - 1 {
    } else {
        lemma_status_count_at_index(entries.drop_last(), i);
    }
}

/// A code carried by no entry has count 0.
proof fn lemma_status_count_absent(entries: Seq<(u16, usize)>, code: u16)
    requires
        forall|j: int| 0 <= j < entries.len() ==> (#[trigger] entries[j]).0 != code,
    ensures
        spec_status_count(entries, code) == 0,
    decreases entries.len(),
{
    if entries.len() > 0 {
        lemma_status_count_absent(entries.drop_last(), code);
    }
}

/// Replacing entry `i`'s count changes only its own code's recorded count.
proof fn lemma_status_count_update(entries: Seq<(u16, usize)>, i: int, count: usize)
    requires
        status_keys_unique(entries),
        0 <= i < entries.len(),
    ensures
        status_keys_unique(entries.update(i, (entries[i].0, count))),
        spec_status_count(entries.update(i, (entries[i].0, count)), entries[i].0) == count,
        forall|c: u16|
            c != entries[i].0 ==> #[trigger] spec_status_count(
                entries.update(i, (entries[i].0, count)),
                c,
            ) == spec_status_count(entries, c),
    decreases entries.len(),
{
    let key = entries[i].0;
    let updated = entries.update(i, (key, count));
    assert forall|a: int, b: int| 0 <= a < b < updated.len() implies (#[trigger] updated[a]).0 != (
    #[trigger] updated[b]).0 by {
        assert(updated[a].0 == entries[a].0);
        assert(updated[b].0 == entries[b].0);
        assert(entries[a].0 != entries[b].0);
    }
    if i == entries.len() - 1 {
        assert(updated.drop_last() =~= entries.drop_last());
    } else {
        let rest = entries.drop_last();
        assert forall|a: int, b: int| 0 <= a < b < rest.len() implies (#[trigger] rest[a]).0 != (
        #[trigger] rest[b]).0 by {
            assert(rest[a] == entries[a]);
            assert(rest[b] == entries[b]);
        }
        assert(rest[i] == entries[i]);
        lemma_status_count_update(rest, i, count);
        assert(updated.drop_last() =~= rest.update(i, (key, count)));
        assert(updated.last() == entries.last());
        assert(entries.last().0 != key);
        assert(spec_status_count(updated, key) == spec_status_count(updated.drop_last(), key));
        assert(spec_status_count(updated, key) == count);
        assert forall|c: u16| c != key implies #[trigger] spec_status_count(updated, c)
            == spec_status_count(entries, c) by {
            if entries.last().0 == c {
                assert(spec_status_count(updated, c) == updated.last().1);
                assert(spec_status_count(entries, c) == entries.last().1);
            } else {
                assert(spec_status_count(updated, c) == spec_status_count(
                    updated.drop_last(),
                    c,
                ));
                assert(spec_status_count(updated.drop_last(), c) == spec_status_count(rest, c));
                assert(spec_status_count(entries, c) == spec_status_count(rest, c));
            }
        }
    }
}

/// Appending an entry for a fresh code sets its count and keeps the rest.
proof fn lemma_status_count_push(entries: Seq<(u16, usize)>, code: u16, count: usize)
    requires
        status_keys_unique(entries),
        forall|j: int| 0 <= j < entries.len() ==> (#[trigger] entries[j]).0 != code,
    ensures
        status_keys_unique(entries.push((code, count))),
        spec_status_count(entries.push((code, count)), code) == count,
        forall|c: u16|
            c != code ==> #[trigger] spec_status_count(entries.push((code, count)), c)
                == spec_status_count(entries, c),
{
    let pushed = entries.push((code, count));
    assert(pushed.drop_last() =~= entries);
    assert forall|a: int, b: int| 0 <= a < b < pushed.len() implies (#[trigger] pushed[a]).0 != (
    #[trigger] pushed[b]).0 by {
        if b < entries.len() {
            assert(entries[a].0 != entries[b].0);
        } else {
            assert(entries[a].0 != code);
        }
    }
}

/// Law: every consumed outcome is recorded exactly once, so after a
/// sequence of outcomes is drained, successes and errors together account
/// for every one of them.
pub proof fn lemma_outcome_conservation(os: Seq<Outcome>)
    ensures
        success_latencies(os).len() + connect_count(os) + timeout_count(os) + other_count(os)
            == os.len(),
    decreases os.len(),
{
    if os.len() > 0 {
        lemma_outcome_conservation(os.drop_last());
    }
}

/// Law: under the fixed-iteration policy, where `concurrency` workers
/// each deliver `iterations` outcomes, exactly one outcome stands for
/// every submitted request, so after the drain successes and errors
/// together number `concurrency * iterations`.
pub proof fn lemma_fixed_iteration_conservation(os: Seq<Outcome>, concurrency: int, iterations: int)
    requires
        os.len() == concurrency * iterations,
    ensures
        success_latencies(os).len() + connect_count(os) + timeout_count(os) + other_count(os)
            == concurrency * iterations,
{
    lemma_outcome_conservation(os);
}

/// Law: successes and errors together never exceed the requests
/// dispatched, and account for all of them exactly once the run has
/// drained.
pub proof fn lemma_totals_bounded(s: Stats)
    requires
        s.wf(),
    ensures
        s.response_times@.len() + s.spec_total_errors() <= s.total_requests,
        s.drained() ==> s.response_times@.len() + s.spec_total_errors() == s.total_requests,
{
}

/// Drains a delivered sequence of outcomes in order at a single
/// consumption point, counting one request per outcome, but consumes at
/// most `expected` of them: the aggregator's receive loop for a run whose
/// total is known upfront, where the known count bounds consumption so
/// the run cannot hang on a stream whose closure is delayed.
pub fn aggregate_up_to(outcomes: &Vec<Outcome>, expected: usize) -> (s: Stats)
    ensures
        ({
            let k = if expected < outcomes@.len() {
                expected as int
            } else {
                outcomes@.len() as int
            };
            &&& s.wf()
            &&& s.total_requests == k
            &&& s.response_times@ == success_latencies(outcomes@.take(k))
            &&& s.connect_errors == connect_count(outcomes@.take(k))
            &&& s.timeout_errors == timeout_count(outcomes@.take(k))
            &&& s.other_errors == other_count(outcomes@.take(k))
            &&& forall|code: u16|
                #[trigger] spec_status_count(s.status_codes@, code) == status_occurrences(
                    outcomes@.take(k),
                    code,
                )
            &&& s.drained()
            &&& s.elapsed_ms == 0
        }),
{
    let n = if expected < outcomes.len() {
        expected
    } else {
        outcomes.len()
    };
    let mut s = Stats::new();
    let mut i: usize = 0;
    while i < n
        invariant
            n <= outcomes@.len(),
            0 <= i <= n,
            s.wf(),
            s.total_requests == i,
            s.response_times@ == success_latencies(outcomes@.take(i as int)),
            s.connect_errors == connect_count(outcomes@.take(i as int)),
            s.timeout_errors == timeout_count(outcomes@.take(i as int)),
            s.other_errors == other_count(outcomes@.take(i as int)),
            forall|code: u16|
                #[trigger] spec_status_count(s.status_codes@, code) == status_occurrences(
                    outcomes@.take(i as int),
                    code,
                ),
            s.elapsed_ms == 0,
        decreases n - i,
    {
        proof {
            assert(outcomes@.take(i + 1).drop_last() =~= outcomes@.take(i as int));
            assert(outcomes@.take(i + 1).last() == outcomes@[i as int]);
        }
        s.consume(outcomes[i]);
        i = i + 1;
    }
    proof {
        lemma_outcome_conservation(outcomes@.take(n as int));
    }
    s
}

/// Drains a whole delivered sequence of outcomes in order at a single
/// consumption point, counting one request per outcome: the model of the
/// aggregator's receive loop for a run that ends when its outcome stream
/// closes.
pub fn aggregate(outcomes: &Vec<Outcome>) -> (s: Stats)
    ensures
        s.wf(),
        s.total_requests == outcomes@.len(),
        s.response_times@ == success_latencies(outcomes@),
        s.connect_errors == connect_count(outcomes@),
        s.timeout_errors == timeout_count(outcomes@),
        s.other_errors == other_count(outcomes@),
        forall|code: u16|
            #[trigger] spec_status_count(s.status_codes@, code) == status_occurrences(
                outcomes@,
                code,
            ),
        s.drained(),
        s.elapsed_ms == 0,
{
    let s = aggregate_up_to(outcomes, outcomes.len());
    proof {
        assert(outcomes@.take(outcomes@.len() as int) =~= outcomes@);
    }
    s
}

} // verus!
