//! Control-loop logic: end-of-cycle collection of worker answers into one
//! ordered report, and the laws of the cycle as a whole.
//!
//! The control loop around the library dispatches one worker per configured
//! address, sleeps for the cycle's fixed interval, then polls every worker's
//! channel once without blocking. The poll results — one optional value per
//! address, in address order — are handed in here; the library builds the
//! report, substituting the sentinel (the cycle's configured interval) for
//! every worker that produced no value in time.

use vstd::prelude::*;

use crate::config::spec_next_config;
use crate::config::ProbeConfig;
use crate::worker::spec_probe_result;
use crate::worker::spec_success_count;
use crate::worker::AttemptOutcome;

verus! {

/// One report entry: the worker's measured average when it answered in
/// time, the sentinel otherwise.
pub open spec fn spec_report_entry(answer: Option<u32>, sentinel: u32) -> u32 {
    match answer {
        Option::Some(value) => value,
        Option::None => sentinel,
    }
}

/// The whole cycle report: one entry per polled worker, in address order.
pub open spec fn spec_report(answers: Seq<Option<u32>>, sentinel: u32) -> Seq<u32> {
    answers.map_values(|answer: Option<u32>| spec_report_entry(answer, sentinel))
}

/// Build one cycle's report from the per-address poll results.
///
/// `answers[i]` is what the single non-blocking poll of address `i`'s
/// channel yielded: a measured average in whole microseconds, or nothing
/// (the worker is still running, or it failed every attempt and sent
/// nothing). The report has exactly one entry per configured address, in
/// the same order, and every missing answer becomes the sentinel — the
/// cycle's configured interval.
pub fn collect_report(config: &ProbeConfig, answers: &Vec<Option<u32>>) -> (report: Vec<u32>)
    requires
        answers@.len() == config.addresses@.len(),
    ensures
        report@ == spec_report(answers@, config.interval_ms),
        report@.len() == config.addresses@.len(),
        forall|i: int|
            0 <= i < report@.len() ==> report@[i] == spec_report_entry(
                answers@[i],
                config.interval_ms,
            ),
{
    let mut report: Vec<u32> = Vec::new();
    let mut i: usize = 0;
    while i < answers.len()
        invariant
            0 <= i <= answers@.len(),
            report@.len() == i,
            forall|j: int|
                0 <= j < i ==> report@[j] == spec_report_entry(answers@[j], config.interval_ms),
        decreases answers@.len() - i,
    {
        match answers[i] {
            Option::Some(value) => report.push(value),
            Option::None => report.push(config.interval_ms),
        }
        i = i + 1;
    }
    proof {
        assert(report@ =~= spec_report(answers@, config.interval_ms));
    }
    report
}

/// A report never tells a total failure from a straggler: a worker whose
/// every attempt failed sends nothing, exactly like one that has not
/// finished when the cycle closes, and in both cases the report entry is
/// the sentinel — the cycle's configured interval.
pub proof fn lemma_failure_straggler_indistinguishable(
    outcomes: Seq<AttemptOutcome>,
    interval_ms: u32,
)
    requires
        spec_success_count(outcomes) == 0,
    ensures
        spec_report_entry(spec_probe_result(outcomes), interval_ms) == interval_ms,
        spec_report_entry(Option::None, interval_ms) == interval_ms,
        spec_report_entry(spec_probe_result(outcomes), interval_ms) == spec_report_entry(
            Option::None,
            interval_ms,
        ),
{
}

/// Two consecutive cycles, with an optional configuration update arriving
/// while the first is in flight: the first cycle runs under the
/// configuration captured at its own dispatch, the second under whatever
/// the update made effective at its boundary.
pub open spec fn spec_two_cycle_reports(
    config: ProbeConfig,
    midcycle_update: Option<ProbeConfig>,
    first_answers: Seq<Option<u32>>,
    second_answers: Seq<Option<u32>>,
) -> (Seq<u32>, Seq<u32>) {
    (
        spec_report(first_answers, config.interval_ms),
        spec_report(second_answers, spec_next_config(config, midcycle_update).interval_ms),
    )
}

/// A configuration update that arrives mid-cycle does not affect the
/// in-flight cycle: its report is identical whether or not an update is
/// pending. The update takes effect only at the next cycle's dispatch,
/// which then runs wholly under the updated configuration.
pub proof fn lemma_midcycle_update_isolated(
    config: ProbeConfig,
    update: ProbeConfig,
    first_answers: Seq<Option<u32>>,
    second_answers: Seq<Option<u32>>,
)
    ensures
        spec_two_cycle_reports(config, Option::Some(update), first_answers, second_answers).0
            == spec_two_cycle_reports(config, Option::None, first_answers, second_answers).0,
        spec_two_cycle_reports(config, Option::Some(update), first_answers, second_answers).1
            == spec_report(second_answers, update.interval_ms),
        spec_two_cycle_reports(config, Option::None, first_answers, second_answers).1
            == spec_report(second_answers, config.interval_ms),
{
}

/// Split a measured average in whole microseconds into the whole and
/// fractional millisecond parts it is displayed with: `micros` comes out as
/// "`whole`.`frac` ms", with `frac` the first two decimal digits of the
/// fractional millisecond.
pub fn display_millis_parts(micros: u32) -> (parts: (u32, u32))
    ensures
        parts.0 == micros / 1000,
        parts.1 == (micros % 1000) / 10,
{
    (micros / 1000, (micros % 1000) / 10)
}

} // verus!
