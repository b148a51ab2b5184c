//! A TCP connection-latency probe: pure, verified logic for a control loop
//! that periodically measures connection-establishment time to a set of
//! endpoints and reports a per-endpoint average, substituting a sentinel
//! for probes that fail or do not answer within the cycle's time budget.
//!
//! The library holds the decision and arithmetic logic of the probe; the
//! surrounding process (threads, sockets, clocks, channels) drives it from
//! outside and hands it plain values.

pub mod config;
pub mod cycle;
pub mod worker;

pub use config::next_config;
pub use config::ProbeConfig;
pub use cycle::collect_report;
pub use cycle::display_millis_parts;
pub use worker::attempt_elapsed_ns;
pub use worker::average_latency_micros;
pub use worker::AttemptOutcome;
pub use worker::ProbeTally;
