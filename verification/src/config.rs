//! Probe configuration: what one measurement cycle runs under.

use vstd::prelude::*;

verus! {

/// Configuration for one measurement cycle.
///
/// `addresses` is an ordered list of `host:port` endpoint identifiers; its
/// order defines the order of the cycle's report. `interval_ms` is the
/// cycle's fixed wall-clock budget in milliseconds, reused as the sentinel
/// value for probes that produced no measurement. `repetitions` is how many
/// connection attempts each worker makes per cycle, and `pause_ms` the delay
/// between successive attempts within one worker.
pub struct ProbeConfig {
    pub addresses: Vec<String>,
    pub interval_ms: u32,
    pub repetitions: u32,
    pub pause_ms: u32,
}

impl ProbeConfig {
    /// A configuration is well formed when each worker makes at least one
    /// attempt per cycle.
    pub open spec fn wf(self) -> bool {
        self.repetitions >= 1
    }

    pub fn new(addresses: Vec<String>, interval_ms: u32, repetitions: u32, pause_ms: u32) -> (cfg: ProbeConfig)
        requires
            repetitions >= 1,
        ensures
            cfg.addresses == addresses,
            cfg.interval_ms == interval_ms,
            cfg.repetitions == repetitions,
            cfg.pause_ms == pause_ms,
            cfg.wf(),
    {
        ProbeConfig { addresses, interval_ms, repetitions, pause_ms }
    }
}

/// The configuration a cycle dispatches under: a pending update, consumed
/// at the cycle boundary, replaces the previous configuration wholesale;
/// absence of an update leaves it in effect.
pub open spec fn spec_next_config(current: ProbeConfig, pending: Option<ProbeConfig>) -> ProbeConfig {
    match pending {
        Option::Some(update) => update,
        Option::None => current,
    }
}

/// Consume an optional configuration update at a cycle boundary.
pub fn next_config(current: ProbeConfig, pending: Option<ProbeConfig>) -> (cfg: ProbeConfig)
    ensures
        cfg == spec_next_config(current, pending),
        pending matches Option::Some(update) ==> cfg == update,
        pending matches Option::None ==> cfg == current,
{
    match pending {
        Option::Some(update) => update,
        Option::None => current,
    }
}

} // verus!
