//! The benchmarks as a state machine over plain values.
//!
//! A benchmark alternates work on the switch with decisions. The decisions
//! are here: a state says which action it waits for, and `Model::step` takes
//! the signal that reports the action's end and gives the next state and
//! action. The executable lifecycle manager follows this model step by step.

use vstd::prelude::*;
use crate::frame_loss::FrameLossSweep;
use crate::latency::LatencyRun;
use crate::payload::{driven, label, Stream, TestKind};
use crate::reset::{MonitorReport, ResetMonitor, RESET_DURATION, RESET_INTERVAL, RESET_THRESHOLD};
use crate::search::{observation_of, BinarySearch, ExponentialSearch};
use crate::store::{get, Results};

verus! {

/// Number of frame sizes a benchmark goes through.
pub const FRAME_SIZES: u32 = 5;

/// Seconds of traffic for one step of a search or a sweep.
pub const SEARCH_RUN: u64 = 10;

/// Seconds of traffic for one latency repetition.
pub const LATENCY_RUN: u64 = 30;

/// Seconds of traffic for the reset test.
pub const RESET_RUN: u64 = 120;

/// Seconds to let the counters settle before they are saved.
pub const SETTLE: u64 = 1;

/// Tags under which the statistics of a benchmark are saved.
pub const TAG_THROUGHPUT: u32 = 2;

pub const TAG_FRAME_LOSS: u32 = 3;

pub const TAG_RESET: u32 = 5;

/// The frame sizes in the order they are tested: 64, 128, 512, 1024 and
/// 1518 bytes.
pub open spec fn frame_size_at(index: u32) -> u32 {
    if index == 0 {
        64
    } else if index == 1 {
        128
    } else if index == 2 {
        512
    } else if index == 3 {
        1024
    } else {
        1518
    }
}

/// What the counters showed after a run.
#[derive(Clone, Copy, Debug, PartialEq, Eq)]
pub struct Measurement {
    /// Loss in thousandths of a percent; nothing when a total did not fit.
    pub loss: Option<u128>,
    /// Mean round-trip time of the first flow in nanoseconds, if any.
    pub rtt: Option<u64>,
}

/// Why a benchmark failed.
#[derive(Clone, Copy, Debug, PartialEq, Eq)]
pub enum Cause {
    /// The traffic generator reported an error, or the run was cancelled.
    TrafficGenerator,
    /// The statistics could not be saved.
    StatisticsSink,
    /// The reset monitor did not come back.
    Monitor,
}

/// The end of an action, as reported to the benchmark that asked for it.
#[derive(Clone, Copy, Debug, PartialEq, Eq)]
pub enum Signal {
    /// The traffic ran for its time; the counters are given unless they
    /// could not be fetched.
    RunCompleted(Option<Measurement>),
    /// The traffic generator failed or was cancelled.
    RunFailed,
    /// The statistics were saved.
    Saved,
    /// The statistics could not be saved.
    SaveFailed,
    /// Traffic and monitor of the reset test both ended.
    ResetCompleted(MonitorReport),
    /// Traffic or monitor of the reset test failed.
    ResetFailed(Cause),
}

/// What the caller is to do next.
#[derive(Clone, Copy, Debug, PartialEq, Eq)]
pub enum Action {
    /// Generate traffic with the first stream at this frame size and rate
    /// for `duration` seconds, fetch the counters, report `RunCompleted` or
    /// `RunFailed`.
    Run { frame_size: u32, rate: u64, iteration: u32, duration: u64 },
    /// Generate traffic likewise while `monitor` samples the loss counter;
    /// report `ResetCompleted` or `ResetFailed`.
    RunMonitored { frame_size: u32, rate: u64, duration: u64, monitor: ResetMonitor },
    /// Wait `settle` seconds, save the statistics under `tag`, report
    /// `Saved` or `SaveFailed`.
    Save { tag: u32, settle: u64 },
    /// The benchmark is complete.
    Finished,
    /// The benchmark has failed at this frame size.
    Failed { cause: Cause, frame_size: u32 },
    /// The signal was not for the benchmark in flight, or not one it waits
    /// for; nothing has changed.
    Ignored,
}

impl Action {
    /// Whether the action ends the benchmark.
    pub open spec fn terminal(self) -> bool {
        self is Finished || self is Failed
    }
}

/// Where a benchmark stands within the frame size at hand.
#[derive(Clone, Copy, Debug, PartialEq, Eq)]
pub enum Stage {
    /// Throughput: doubling the rate.
    Expanding(ExponentialSearch),
    /// Throughput: bisecting the bracket.
    Refining(BinarySearch),
    /// Throughput: the rate is recorded, the statistics are being saved.
    SavingThroughput,
    /// Latency: repeating the run.
    Repeating(LatencyRun),
    /// Latency: the statistics are being saved, the mean is to be recorded.
    SavingLatency(Option<u128>),
    /// Frame loss: stepping the rate down.
    Sweeping(FrameLossSweep),
    /// Frame loss: the statistics are being saved.
    SavingFrameLoss,
    /// Reset: traffic and monitor are running.
    Monitoring,
    /// Reset: the statistics are being saved, the recovery time is to be
    /// recorded.
    SavingReset(u64),
}

/// A benchmark in flight.
#[derive(Clone, Copy, Debug, PartialEq, Eq)]
pub struct Benchmark {
    pub kind: TestKind,
    /// Rate of the caller's first stream.
    pub base_rate: u64,
    /// Line rate of the generator; read by the frame-loss test.
    pub line_rate: u64,
    /// Index of the frame size at hand.
    pub index: u32,
    /// Rate of the sub-test at hand; read by the latency and reset tests.
    pub rate: u64,
    pub stage: Stage,
}

impl Benchmark {
    /// Whether the stage is one of the benchmark's kind and waits for a run
    /// or a saving that is still due.
    pub open spec fn wf(self) -> bool {
        &&& self.index < FRAME_SIZES
        &&& match self.stage {
            Stage::Expanding(s) => self.kind == TestKind::Throughput && s.wf() && s.probing()
                && s.initial == self.base_rate,
            Stage::Refining(s) => self.kind == TestKind::Throughput && s.wf() && s.probing(),
            Stage::SavingThroughput => self.kind == TestKind::Throughput,
            Stage::Repeating(s) => self.kind == TestKind::Latency && s.wf() && s.probing(),
            Stage::SavingLatency(_) => self.kind == TestKind::Latency,
            Stage::Sweeping(s) => self.kind == TestKind::FrameLoss && s.wf() && s.probing()
                && s.line_rate == self.line_rate,
            Stage::SavingFrameLoss => self.kind == TestKind::FrameLoss,
            Stage::Monitoring => self.kind == TestKind::Reset && self.index == 0,
            Stage::SavingReset(_) => self.kind == TestKind::Reset && self.index == 0,
        }
    }

    /// The frame size at hand.
    pub open spec fn frame_size(self) -> u32 {
        frame_size_at(self.index)
    }

    /// The action the benchmark waits for.
    pub open spec fn pending(self) -> Action {
        match self.stage {
            Stage::Expanding(s) => Action::Run {
                frame_size: self.frame_size(),
                rate: s.candidate() as u64,
                iteration: 0,
                duration: SEARCH_RUN,
            },
            Stage::Refining(s) => Action::Run {
                frame_size: self.frame_size(),
                rate: s.midpoint() as u64,
                iteration: 0,
                duration: SEARCH_RUN,
            },
            Stage::Repeating(s) => Action::Run {
                frame_size: self.frame_size(),
                rate: self.rate,
                iteration: s.repetition,
                duration: LATENCY_RUN,
            },
            Stage::Sweeping(s) => Action::Run {
                frame_size: self.frame_size(),
                rate: s.candidate() as u64,
                iteration: s.step,
                duration: SEARCH_RUN,
            },
            Stage::Monitoring => Action::RunMonitored {
                frame_size: self.frame_size(),
                rate: self.rate,
                duration: RESET_RUN,
                monitor: ResetMonitor::initial_state(
                    RESET_THRESHOLD,
                    RESET_DURATION,
                    RESET_INTERVAL,
                ),
            },
            Stage::SavingThroughput => Action::Save { tag: TAG_THROUGHPUT, settle: SETTLE },
            Stage::SavingLatency(_) => Action::Save { tag: TAG_THROUGHPUT, settle: SETTLE },
            Stage::SavingFrameLoss => Action::Save { tag: TAG_FRAME_LOSS, settle: 0 },
            Stage::SavingReset(_) => Action::Save { tag: TAG_RESET, settle: 0 },
        }
    }
}

/// A set of streams as kept in the log of generators.
pub struct Generator {
    pub streams: Seq<Stream>,
    pub name: Option<Seq<char>>,
}

/// The loss figure of a run, if the counters gave one.
pub open spec fn loss_of(m: Option<Measurement>) -> Option<u128> {
    match m {
        Some(m) => m.loss,
        None => None,
    }
}

/// The round-trip time of a run, if the counters gave one.
pub open spec fn rtt_of(m: Option<Measurement>) -> Option<u64> {
    match m {
        Some(m) => m.rtt,
        None => None,
    }
}

/// The stage a throughput search is in once the doubling phase stands at
/// `search`: still doubling, or bisecting the bracket it found.
pub open spec fn search_stage(search: ExponentialSearch) -> Stage {
    if search.probing() {
        Stage::Expanding(search)
    } else {
        Stage::Refining(
            BinarySearch::initial_state(search.outcome().lower, search.outcome().upper),
        )
    }
}

/// The token after `epoch`.
pub open spec fn next_epoch(epoch: u64) -> u64 {
    if epoch == u64::MAX {
        0
    } else {
        (epoch + 1) as u64
    }
}

/// The shared state of the controller.
pub struct Model {
    /// The result store.
    pub results: Results,
    /// The benchmark in flight, if any.
    pub active: Option<Benchmark>,
    /// Generation of the abort channel; the token of the benchmark in
    /// flight.
    pub epoch: u64,
    /// The streams of the benchmark in flight, as the caller gave them.
    pub streams: Seq<Stream>,
    /// The log of generators.
    pub generators: Seq<Generator>,
}

impl Model {
    /// The state at start-up.
    pub open spec fn initial() -> Self {
        Model {
            results: Results::initial(),
            active: None,
            epoch: 0,
            streams: Seq::empty(),
            generators: Seq::empty(),
        }
    }

    /// Whether the benchmark in flight, if any, is well formed and has the
    /// streams it was started on.
    pub open spec fn wf(self) -> bool {
        self.active matches Some(b) ==> {
            &&& b.wf()
            &&& self.streams.len() > 0
            &&& b.base_rate == self.streams[0].traffic_rate
        }
    }

    /// Whether a signal under `token` reaches a benchmark.
    pub open spec fn accepts(self, token: u64) -> bool {
        self.active is Some && token == self.epoch
    }

    /// The action the caller is to perform, if a benchmark is in flight.
    pub open spec fn pending(self) -> Action {
        match self.active {
            Some(b) => b.pending(),
            None => Action::Ignored,
        }
    }

    /// Cancels the benchmark in flight, if there is one, and supersedes the
    /// abort channel: no token handed out so far is accepted any more.
    pub open spec fn abort(self) -> Self {
        Model {
            results: if self.active is Some {
                Results { running: false, ..self.results }
            } else {
                self.results
            },
            active: None,
            epoch: next_epoch(self.epoch),
            ..self
        }
    }

    /// The rate at which the latency and reset tests run a frame size: the
    /// throughput recorded for it, else the rate of the caller's stream.
    pub open spec fn dependent_rate(self, frame_size: u32, base_rate: u64) -> u64 {
        match get(self.results.throughput, frame_size) {
            Some(rate) => rate,
            None => base_rate,
        }
    }

    /// Begins the sub-test of `bench` for the frame size at `index`: chooses
    /// its rate and first stage, names it as the current test, and files the
    /// streams it will run under its label.
    pub open spec fn enter(self, bench: Benchmark, index: u32) -> Self {
        let frame_size = frame_size_at(index);
        let rate = match bench.kind {
            TestKind::Throughput => bench.base_rate,
            TestKind::Latency => self.dependent_rate(frame_size, bench.base_rate),
            TestKind::FrameLoss => bench.line_rate,
            TestKind::Reset => self.dependent_rate(frame_size, bench.base_rate),
        };
        let stage = match bench.kind {
            TestKind::Throughput => search_stage(
                ExponentialSearch::initial_state(bench.base_rate),
            ),
            TestKind::Latency => Stage::Repeating(LatencyRun::initial_state()),
            TestKind::FrameLoss => Stage::Sweeping(
                FrameLossSweep::initial_state(bench.line_rate),
            ),
            TestKind::Reset => Stage::Monitoring,
        };
        let named = Results {
            current_test: Some(label(bench.kind, frame_size)),
            ..self.results
        };
        Model {
            results: if bench.kind == TestKind::FrameLoss {
                named.with_sweep(frame_size)
            } else {
                named
            },
            active: Some(Benchmark { index, rate, stage, ..bench }),
            generators: self.generators.push(
                Generator {
                    streams: driven(self.streams, frame_size, rate),
                    name: Some(label(bench.kind, frame_size)),
                },
            ),
            ..self
        }
    }

    /// The record a benchmark of `kind` starts from: as at start-up when it
    /// supersedes a benchmark in flight, else as it stands; its own output
    /// cleared and the running flag set.
    pub open spec fn opened(self, kind: TestKind) -> Results {
        let base = if self.active is Some {
            Results::initial()
        } else {
            self.results
        };
        let cleared = match kind {
            TestKind::Throughput => Results { throughput: None, ..base },
            TestKind::Latency => Results { latency: None, ..base },
            TestKind::FrameLoss => Results { frame_loss_rate: None, ..base },
            TestKind::Reset => Results { reset: None, ..base },
        };
        Results { running: true, ..cleared }
    }

    /// The state after a benchmark of `kind` was started on `streams`.
    pub open spec fn begin(self, kind: TestKind, streams: Seq<Stream>, line_rate: u64) -> Self
        recommends
            streams.len() > 0,
    {
        let bench = Benchmark {
            kind,
            base_rate: streams[0].traffic_rate,
            line_rate,
            index: 0,
            rate: 0,
            stage: Stage::Monitoring,
        };
        (Model { results: self.opened(kind), streams, ..self.abort() }).enter(bench, 0)
    }

    /// The end of a benchmark: none is in flight and the record says so.
    pub open spec fn close(self) -> Self {
        Model { results: Results { running: false, ..self.results }, active: None, ..self }
    }

    /// A failure: the benchmark ends where it stands, what is recorded
    /// stays.
    pub open spec fn fail(self, cause: Cause, frame_size: u32) -> (Self, Action) {
        (self.close(), Action::Failed { cause, frame_size })
    }

    /// Goes on after a frame size is done: to the next one, or to the end.
    pub open spec fn proceed(self, bench: Benchmark) -> (Self, Action) {
        if bench.kind != TestKind::Reset && bench.index + 1 < FRAME_SIZES {
            let next = self.enter(bench, (bench.index + 1) as u32);
            (next, next.pending())
        } else {
            (self.close(), Action::Finished)
        }
    }

    /// Puts the benchmark in flight into `stage`; the action is what that
    /// stage waits for.
    pub open spec fn stay(self, bench: Benchmark, stage: Stage) -> (Self, Action) {
        let next = Benchmark { stage, ..bench };
        (Model { active: Some(next), ..self }, next.pending())
    }

    /// A completed run of the throughput test.
    pub open spec fn step_search(self, bench: Benchmark, m: Option<Measurement>) -> (Self, Action) {
        let obs = observation_of(loss_of(m));
        match bench.stage {
            Stage::Expanding(s) => self.stay(bench, search_stage(s.observe(obs))),
            Stage::Refining(s) => {
                let after = s.observe(obs);
                if after.probing() {
                    self.stay(bench, Stage::Refining(after))
                } else {
                    (Model {
                        results: self.results.with_throughput(bench.frame_size(), after.best),
                        ..self
                    }).stay(bench, Stage::SavingThroughput)
                }
            },
            _ => (self, Action::Ignored),
        }
    }

    /// A completed run of the latency test.
    pub open spec fn step_repeat(self, bench: Benchmark, s: LatencyRun, m: Option<Measurement>) -> (
        Self,
        Action,
    ) {
        let after = s.observe(rtt_of(m));
        if after.probing() {
            self.stay(bench, Stage::Repeating(after))
        } else {
            self.stay(bench, Stage::SavingLatency(after.mean()))
        }
    }

    /// A completed run of the frame-loss test.
    pub open spec fn step_sweep(
        self,
        bench: Benchmark,
        s: FrameLossSweep,
        m: Option<Measurement>,
    ) -> (Self, Action) {
        let after = s.observe(loss_of(m));
        let recorded = match s.entry(loss_of(m)) {
            Some(e) => Model {
                results: self.results.with_loss(bench.frame_size(), e.share, e.loss),
                ..self
            },
            None => self,
        };
        if after.probing() {
            recorded.stay(bench, Stage::Sweeping(after))
        } else {
            recorded.stay(bench, Stage::SavingFrameLoss)
        }
    }

    /// The statistics were saved: what was held back is recorded and the
    /// benchmark goes on.
    pub open spec fn step_saved(self, bench: Benchmark) -> (Self, Action) {
        match bench.stage {
            Stage::SavingThroughput => self.proceed(bench),
            Stage::SavingLatency(mean) => (Model {
                results: self.results.with_latency(bench.frame_size(), mean),
                ..self
            }).proceed(bench),
            Stage::SavingFrameLoss => self.proceed(bench),
            Stage::SavingReset(recovery) => (Model {
                results: self.results.with_reset(bench.frame_size(), recovery),
                ..self
            }).proceed(bench),
            _ => (self, Action::Ignored),
        }
    }

    /// Whether the benchmark waits for the statistics to be saved.
    pub open spec fn saving(bench: Benchmark) -> bool {
        bench.stage is SavingThroughput || bench.stage is SavingLatency || bench.stage
            is SavingFrameLoss || bench.stage is SavingReset
    }

    /// Whether the benchmark waits for a plain run.
    pub open spec fn running(bench: Benchmark) -> bool {
        bench.stage is Expanding || bench.stage is Refining || bench.stage is Repeating
            || bench.stage is Sweeping
    }

    /// The state and the action after `signal` arrived under `token`.
    ///
    /// A signal under another token than that of the benchmark in flight,
    /// or of a kind the benchmark does not wait for, changes nothing.
    pub open spec fn step(self, token: u64, signal: Signal) -> (Self, Action) {
        if !self.accepts(token) {
            (self, Action::Ignored)
        } else {
            let bench = self.active->0;
            match signal {
                Signal::RunCompleted(m) => match bench.stage {
                    Stage::Expanding(_) => self.step_search(bench, m),
                    Stage::Refining(_) => self.step_search(bench, m),
                    Stage::Repeating(s) => self.step_repeat(bench, s, m),
                    Stage::Sweeping(s) => self.step_sweep(bench, s, m),
                    _ => (self, Action::Ignored),
                },
                Signal::RunFailed => if Self::running(bench) {
                    self.fail(Cause::TrafficGenerator, bench.frame_size())
                } else {
                    (self, Action::Ignored)
                },
                Signal::Saved => self.step_saved(bench),
                Signal::SaveFailed => if Self::saving(bench) {
                    self.fail(Cause::StatisticsSink, bench.frame_size())
                } else {
                    (self, Action::Ignored)
                },
                Signal::ResetCompleted(report) => if bench.stage is Monitoring {
                    self.stay(bench, Stage::SavingReset(report.downtime() as u64))
                } else {
                    (self, Action::Ignored)
                },
                Signal::ResetFailed(cause) => if bench.stage is Monitoring {
                    self.fail(cause, bench.frame_size())
                } else {
                    (self, Action::Ignored)
                },
            }
        }
    }

    /// The state after a series of signals under one token.
    pub open spec fn run(self, token: u64, signals: Seq<Signal>) -> Self
        decreases signals.len(),
    {
        if signals.len() == 0 {
            self
        } else {
            self.run(token, signals.drop_last()).step(token, signals.last()).0
        }
    }
}

} // verus!
