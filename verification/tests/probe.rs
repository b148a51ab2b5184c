use tcp_probe::collect_report;
use tcp_probe::display_millis_parts;
use tcp_probe::next_config;
use tcp_probe::attempt_elapsed_ns;
use tcp_probe::average_latency_micros;
use tcp_probe::AttemptOutcome;
use tcp_probe::ProbeConfig;
use tcp_probe::ProbeTally;

fn ms(millis: u64) -> AttemptOutcome {
    AttemptOutcome::Success { elapsed_ns: millis * 1_000_000 }
}

#[test]
fn report_len_and_alignment() {
    let cfg = ProbeConfig::new(
        vec!["a:1".to_string(), "b:2".to_string(), "c:3".to_string()],
        2000,
        1,
        10,
    );
    let answers = vec![Some(7), None, Some(42)];
    let report = collect_report(&cfg, &answers);
    assert_eq!(report.len(), cfg.addresses.len());
    assert_eq!(report[0], 7);
    assert_eq!(report[1], 2000);
    assert_eq!(report[2], 42);
}

#[test]
fn report_empty_addresses() {
    let cfg = ProbeConfig::new(Vec::new(), 500, 1, 0);
    let report = collect_report(&cfg, &Vec::new());
    assert!(report.is_empty());
}

#[test]
fn two_addresses_all_success() {
    // addresses = ["A:80", "B:53"], repetitions = 3, attempt latencies
    // [10ms, 12ms, 11ms] and [100ms, 100ms, 100ms]
    let cfg = ProbeConfig::new(vec!["A:80".to_string(), "B:53".to_string()], 3000, 3, 100);

    let first = vec![ms(10), ms(12), ms(11)];
    let second = vec![ms(100), ms(100), ms(100)];
    let a = average_latency_micros(&first);
    let b = average_latency_micros(&second);
    assert_eq!(a, Some(11_000));
    assert_eq!(b, Some(100_000));

    let report = collect_report(&cfg, &vec![a, b]);
    assert_eq!(report, vec![11_000, 100_000]);

    // 11000 us displays as "11.0 ms", 100000 us as "100.0 ms"
    assert_eq!(display_millis_parts(report[0]), (11, 0));
    assert_eq!(display_millis_parts(report[1]), (100, 0));
}

#[test]
fn all_attempts_fail_gives_sentinel() {
    // repetitions = 2, every attempt fails: the worker sends nothing and
    // the report carries the sentinel, not an error value
    let cfg = ProbeConfig::new(vec!["A:80".to_string()], 3000, 2, 100);
    let outcomes = vec![AttemptOutcome::Failure, AttemptOutcome::Failure];
    let answer = average_latency_micros(&outcomes);
    assert_eq!(answer, None);
    let report = collect_report(&cfg, &vec![answer]);
    assert_eq!(report, vec![3000]);
}

#[test]
fn straggler_gives_sentinel() {
    // the cycle window closed before the worker answered: the poll saw
    // nothing, and whatever the worker later produces is discarded
    let cfg = ProbeConfig::new(vec!["slow:80".to_string()], 250, 5, 100);
    let report = collect_report(&cfg, &vec![None]);
    assert_eq!(report, vec![250]);

    // the late value itself would have been real, but only the poll's
    // answers reach the report
    let late = average_latency_micros(&vec![ms(1), ms(1), ms(1), ms(1), ms(1)]);
    assert_eq!(late, Some(1_000));
    let again = collect_report(&cfg, &vec![None]);
    assert_eq!(again, vec![250]);
}

#[test]
fn mixed_failures_average_only_successes() {
    let outcomes = vec![ms(10), AttemptOutcome::Failure, ms(20)];
    assert_eq!(average_latency_micros(&outcomes), Some(15_000));
}

#[test]
fn average_then_truncate() {
    // 999ns, 999ns and 2999ns average to 1665ns, one whole microsecond;
    // truncating each attempt first would have averaged 0us, 0us, 2us to 0
    let outcomes = vec![
        AttemptOutcome::Success { elapsed_ns: 999 },
        AttemptOutcome::Success { elapsed_ns: 999 },
        AttemptOutcome::Success { elapsed_ns: 2_999 },
    ];
    assert_eq!(average_latency_micros(&outcomes), Some(1));
}

#[test]
fn repeated_runs_are_deterministic() {
    let outcomes = vec![ms(3), AttemptOutcome::Failure, ms(9)];
    let first = average_latency_micros(&outcomes);
    let second = average_latency_micros(&outcomes);
    assert_eq!(first, second);
    assert_eq!(first, Some(6_000));
}

#[test]
fn tally_matches_batch_average() {
    let outcomes = vec![ms(4), AttemptOutcome::Failure, ms(8), ms(6)];
    let mut tally = ProbeTally::new();
    for outcome in outcomes.iter() {
        tally.record(*outcome);
    }
    assert_eq!(tally.finish(), average_latency_micros(&outcomes));
    assert_eq!(tally.finish(), Some(6_000));
}

#[test]
fn tally_without_success_reports_nothing() {
    let mut tally = ProbeTally::new();
    tally.record(AttemptOutcome::Failure);
    tally.record(AttemptOutcome::Failure);
    assert_eq!(tally.finish(), None);
}

#[test]
fn update_replaces_configuration_wholesale() {
    let current = ProbeConfig::new(vec!["a:1".to_string()], 3000, 3, 100);
    let update = ProbeConfig::new(vec!["b:2".to_string(), "c:3".to_string()], 1000, 2, 50);
    let cfg = next_config(current, Some(update));
    assert_eq!(cfg.addresses, vec!["b:2".to_string(), "c:3".to_string()]);
    assert_eq!(cfg.interval_ms, 1000);
    assert_eq!(cfg.repetitions, 2);
    assert_eq!(cfg.pause_ms, 50);
}

#[test]
fn no_update_keeps_configuration() {
    let current = ProbeConfig::new(vec!["a:1".to_string()], 3000, 3, 100);
    let cfg = next_config(current, None);
    assert_eq!(cfg.addresses, vec!["a:1".to_string()]);
    assert_eq!(cfg.interval_ms, 3000);
    assert_eq!(cfg.repetitions, 3);
    assert_eq!(cfg.pause_ms, 100);
}

#[test]
fn update_between_cycles_not_within() {
    // an update arriving mid-cycle: the in-flight cycle still reports under
    // the configuration captured at its dispatch, the next cycle under the
    // updated one
    let captured = ProbeConfig::new(vec!["a:1".to_string()], 3000, 3, 100);
    let report = collect_report(&captured, &vec![None]);
    assert_eq!(report, vec![3000]);

    let update = ProbeConfig::new(vec!["a:1".to_string()], 700, 3, 100);
    let next = next_config(captured, Some(update));
    let second = collect_report(&next, &vec![None]);
    assert_eq!(second, vec![700]);
}

#[test]
fn elapsed_between_clock_readings() {
    assert_eq!(attempt_elapsed_ns(5, 12), 7);
    assert_eq!(attempt_elapsed_ns(9, 9), 0);
}

#[test]
fn display_parts_exact() {
    assert_eq!(display_millis_parts(11_570), (11, 57));
    assert_eq!(display_millis_parts(999), (0, 99));
    assert_eq!(display_millis_parts(0), (0, 0));
    assert_eq!(display_millis_parts(100_009), (100, 0));
}
