//! Probe-worker logic: averaging the latencies of repeated connection
//! attempts against one endpoint.
//!
//! The worker's outside work — opening the connection, reading the clock,
//! pausing between attempts — happens in the process around the library.
//! Each attempt is handed in as an [`AttemptOutcome`]; the library does the
//! arithmetic: sum the successful attempts' elapsed nanoseconds, count them,
//! and report the truncated average in whole microseconds, or nothing when
//! every attempt failed.

use vstd::prelude::*;

verus! {

/// What one connection attempt came to: the handshake succeeded after
/// `elapsed_ns` nanoseconds, or it failed (a failed attempt contributes
/// nothing to the average and is never retried within its slot).
#[derive(Clone, Copy, Debug)]
pub enum AttemptOutcome {
    Success { elapsed_ns: u64 },
    Failure,
}

/// Whether an attempt succeeded.
pub open spec fn spec_attempt_success(o: AttemptOutcome) -> bool {
    match o {
        AttemptOutcome::Success { .. } => true,
        AttemptOutcome::Failure => false,
    }
}

/// The nanoseconds an attempt contributes to the sum: its elapsed time if
/// it succeeded, nothing if it failed.
pub open spec fn spec_attempt_ns(o: AttemptOutcome) -> int {
    match o {
        AttemptOutcome::Success { elapsed_ns } => elapsed_ns as int,
        AttemptOutcome::Failure => 0,
    }
}

/// Total nanoseconds of the successful attempts in `outcomes`.
pub open spec fn spec_sum_ns(outcomes: Seq<AttemptOutcome>) -> int
    decreases outcomes.len(),
{
    if outcomes.len() == 0 {
        0
    } else {
        spec_sum_ns(outcomes.drop_last()) + spec_attempt_ns(outcomes.last())
    }
}

/// How many attempts in `outcomes` succeeded.
pub open spec fn spec_success_count(outcomes: Seq<AttemptOutcome>) -> nat
    decreases outcomes.len(),
{
    if outcomes.len() == 0 {
        0
    } else {
        spec_success_count(outcomes.drop_last()) + if spec_attempt_success(outcomes.last()) {
            1nat
        } else {
            0nat
        }
    }
}

/// The averaged latency in whole microseconds: average the summed
/// nanoseconds over the successful attempts first, then convert to
/// microseconds, truncating at each division, and finally truncate to the
/// 32-bit value that is reported.
pub open spec fn spec_avg_micros(sum_ns: int, successes: int) -> u32 {
    (((sum_ns / successes) / 1000) % 0x1_0000_0000) as u32
}

/// What a probe worker reports for a sequence of attempt outcomes: the
/// averaged latency when at least one attempt succeeded, and nothing at all
/// when every attempt failed.
pub open spec fn spec_probe_result(outcomes: Seq<AttemptOutcome>) -> Option<u32> {
    if spec_success_count(outcomes) == 0 {
        Option::None
    } else {
        Option::Some(spec_avg_micros(spec_sum_ns(outcomes), spec_success_count(outcomes) as int))
    }
}

/// A worker's running totals over the attempts it has made so far.
pub struct ProbeTally {
    pub sum_ns: u64,
    pub successes: u32,
}

impl ProbeTally {
    /// A fresh tally, before any attempt.
    pub fn new() -> (tally: ProbeTally)
        ensures
            tally.sum_ns == 0,
            tally.successes == 0,
    {
        ProbeTally { sum_ns: 0, successes: 0 }
    }

    /// Fold one attempt into the tally: a success adds its elapsed time and
    /// counts; a failure changes nothing.
    pub fn record(&mut self, outcome: AttemptOutcome)
        requires
            old(self).sum_ns + spec_attempt_ns(outcome) <= u64::MAX,
            spec_attempt_success(outcome) ==> old(self).successes < u32::MAX,
        ensures
            final(self).sum_ns == old(self).sum_ns + spec_attempt_ns(outcome),
            final(self).successes == old(self).successes + if spec_attempt_success(outcome) {
                1int
            } else {
                0int
            },
    {
        match outcome {
            AttemptOutcome::Success { elapsed_ns } => {
                self.sum_ns = self.sum_ns + elapsed_ns;
                self.successes = self.successes + 1;
            },
            AttemptOutcome::Failure => {},
        }
    }

    /// The value the worker sends at the end of its repetition loop: the
    /// averaged latency in whole microseconds, or nothing when no attempt
    /// succeeded.
    pub fn finish(&self) -> (result: Option<u32>)
        ensures
            self.successes == 0 ==> result matches Option::None,
            self.successes != 0 ==> result == Option::Some(
                spec_avg_micros(self.sum_ns as int, self.successes as int),
            ),
    {
        if self.successes == 0 {
            Option::None
        } else {
            let avg_ns: u64 = self.sum_ns / (self.successes as u64);
            let avg_us: u64 = avg_ns / 1000;
            Option::Some((avg_us % 0x1_0000_0000) as u32)
        }
    }
}

/// Stepping a prefix of the outcomes by one attempt extends its sum and its
/// success count by exactly that attempt's contribution.
proof fn lemma_prefix_step(outcomes: Seq<AttemptOutcome>, i: int)
    requires
        0 <= i < outcomes.len(),
    ensures
        spec_sum_ns(outcomes.take(i + 1)) == spec_sum_ns(outcomes.take(i)) + spec_attempt_ns(
            outcomes[i],
        ),
        spec_success_count(outcomes.take(i + 1)) == spec_success_count(outcomes.take(i))
            + if spec_attempt_success(outcomes[i]) {
            1int
        } else {
            0int
        },
{
    assert(outcomes.take(i + 1).drop_last() =~= outcomes.take(i));
    assert(outcomes.take(i + 1).last() == outcomes[i]);
}

/// Every attempt contributes a non-negative time, so the sum over a prefix
/// of the outcomes never exceeds the sum over all of them; likewise the
/// success count over a prefix never exceeds the number of attempts taken.
proof fn lemma_prefix_bounds(outcomes: Seq<AttemptOutcome>, i: int)
    requires
        0 <= i <= outcomes.len(),
    ensures
        0 <= spec_sum_ns(outcomes.take(i)) <= spec_sum_ns(outcomes),
        spec_success_count(outcomes.take(i)) <= i,
    decreases outcomes.len(),
{
    if outcomes.len() == 0 {
        assert(outcomes.take(i) =~= outcomes);
    } else if i == outcomes.len() {
        assert(outcomes.take(i) =~= outcomes);
        lemma_prefix_bounds(outcomes.drop_last(), i - 1);
        lemma_prefix_step(outcomes, i - 1);
        assert(outcomes.take(i - 1) =~= outcomes.drop_last().take(i - 1));
    } else {
        lemma_prefix_bounds(outcomes.drop_last(), i);
        assert(outcomes.take(i) =~= outcomes.drop_last().take(i));
        assert(spec_attempt_ns(outcomes.last()) >= 0);
    }
}

/// The whole probe-worker repetition loop as arithmetic: fold every attempt
/// outcome into a tally and report the truncated average in microseconds,
/// or nothing when every attempt failed.
pub fn average_latency_micros(outcomes: &Vec<AttemptOutcome>) -> (result: Option<u32>)
    requires
        spec_sum_ns(outcomes@) <= u64::MAX,
        outcomes@.len() <= u32::MAX,
    ensures
        result == spec_probe_result(outcomes@),
{
    let mut tally = ProbeTally::new();
    let mut i: usize = 0;
    proof {
        assert(outcomes@.take(0) =~= Seq::<AttemptOutcome>::empty());
    }
    while i < outcomes.len()
        invariant
            0 <= i <= outcomes@.len(),
            outcomes@.len() <= u32::MAX,
            spec_sum_ns(outcomes@) <= u64::MAX,
            tally.sum_ns == spec_sum_ns(outcomes@.take(i as int)),
            tally.successes == spec_success_count(outcomes@.take(i as int)),
        decreases outcomes@.len() - i,
    {
        proof {
            lemma_prefix_step(outcomes@, i as int);
            lemma_prefix_bounds(outcomes@, i + 1);
        }
        tally.record(outcomes[i]);
        i = i + 1;
    }
    proof {
        assert(outcomes@.take(i as int) =~= outcomes@);
    }
    tally.finish()
}

/// The probe arithmetic is deterministic: for a fixed sequence of attempt
/// outcomes the averaged value is a function of the outcomes alone, so
/// repeated runs over equal outcome sequences report equal values.
pub proof fn lemma_probe_deterministic(a: Seq<AttemptOutcome>, b: Seq<AttemptOutcome>)
    requires
        a == b,
    ensures
        spec_probe_result(a) == spec_probe_result(b),
{
}

/// When every attempt succeeds, the worker reports exactly the mean of the
/// attempt latencies: all attempts count, the summed nanoseconds are divided
/// by the number of attempts first and truncated to whole microseconds
/// after (average-then-truncate, not truncate-then-average).
pub proof fn lemma_all_success_exact_mean(outcomes: Seq<AttemptOutcome>)
    requires
        outcomes.len() > 0,
        forall|i: int| 0 <= i < outcomes.len() ==> spec_attempt_success(outcomes[i]),
    ensures
        spec_success_count(outcomes) == outcomes.len(),
        spec_probe_result(outcomes) == Option::Some(
            spec_avg_micros(spec_sum_ns(outcomes), outcomes.len() as int),
        ),
    decreases outcomes.len(),
{
    assert(spec_attempt_success(outcomes[outcomes.len() - 1]));
    assert(outcomes.last() == outcomes[outcomes.len() - 1]);
    if outcomes.len() == 1 {
        assert(spec_success_count(outcomes.drop_last()) == 0);
        assert(spec_sum_ns(outcomes.drop_last()) == 0);
    } else {
        assert forall|i: int|
            0 <= i < outcomes.drop_last().len() implies spec_attempt_success(
            outcomes.drop_last()[i],
        ) by {
            assert(outcomes.drop_last()[i] == outcomes[i]);
        }
        lemma_all_success_exact_mean(outcomes.drop_last());
    }
}

/// When every attempt fails, the worker reports nothing: there is no signal
/// at all, which the collecting side cannot tell from a worker that has not
/// answered yet.
pub proof fn lemma_all_failed_no_result(outcomes: Seq<AttemptOutcome>)
    requires
        forall|i: int| 0 <= i < outcomes.len() ==> !spec_attempt_success(outcomes[i]),
    ensures
        spec_success_count(outcomes) == 0,
        spec_probe_result(outcomes) matches Option::None,
    decreases outcomes.len(),
{
    if outcomes.len() > 0 {
        assert(!spec_attempt_success(outcomes[outcomes.len() - 1]));
        assert(outcomes.last() == outcomes[outcomes.len() - 1]);
        assert forall|i: int|
            0 <= i < outcomes.drop_last().len() implies !spec_attempt_success(
            outcomes.drop_last()[i],
        ) by {
            assert(outcomes.drop_last()[i] == outcomes[i]);
        }
        lemma_all_failed_no_result(outcomes.drop_last());
    }
}

/// The elapsed time between two readings of a monotonic clock, taken before
/// and after a connection attempt.
pub fn attempt_elapsed_ns(start_ns: u64, end_ns: u64) -> (elapsed: u64)
    requires
        start_ns <= end_ns,
    ensures
        elapsed == end_ns - start_ns,
{
    end_ns - start_ns
}

} // verus!
