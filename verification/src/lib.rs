//! Decision logic of an RFC 2544 benchmark controller for a programmable
//! traffic generator.
//!
//! The controller runs four benchmarks on a device under test: throughput
//! (the greatest rate without loss), latency, frame-loss rate and reset
//! recovery. Each of them alternates traffic runs on the switch with
//! decisions on what to run next. The decisions are made here; the runs are
//! the caller's part.
//!
//! * [`search`], [`latency`], [`frame_loss`] and [`reset`] hold the step
//!   machines of the single measurements,
//! * [`stats`] reads loss and round-trip time from the counters of the switch,
//! * [`store`] is the record of the results,
//! * [`model`] defines the benchmarks as one state machine over plain values,
//!   [`lifecycle`] is its executable form with the entry points, and [`laws`]
//!   proves what holds of it over whole runs,
//! * [`payload`], [`ports`], [`config`] and [`status`] describe streams,
//!   ports and the controller itself.
//!
//! All quantities are whole numbers: rates in bits per second, latencies in
//! picoseconds, loss in thousandths of a percent, times of the reset monitor
//! in nanoseconds.

pub mod config;
pub mod frame_loss;
pub mod latency;
pub mod laws;
pub mod lifecycle;
pub mod model;
pub mod payload;
pub mod ports;
pub mod reset;
pub mod search;
pub mod stats;
pub mod status;
pub mod store;
