//! The lifecycle manager: the shared state of the controller and the entry
//! points of the benchmarks.
//!
//! A benchmark is started by one of the four entry points, which hands out a
//! token and the first action. The caller performs the action and reports
//! its end with `advance`, under the token, until the action is terminal.
//! Starting a benchmark supersedes the one in flight: its token is no longer
//! accepted, so it can change nothing from then on.

use vstd::prelude::*;
use crate::frame_loss::FrameLossSweep;
use crate::latency::LatencyRun;
use crate::model::{
    frame_size_at, search_stage, Action, Benchmark, Cause, Generator, Measurement, Model,
    Signal, Stage, FRAME_SIZES, LATENCY_RUN, RESET_RUN, SEARCH_RUN, SETTLE, TAG_FRAME_LOSS,
    TAG_RESET, TAG_THROUGHPUT,
};
use crate::payload::{copy_streams, drive, save_tg, test_label, Stream, TestKind, TrafficGenData};
use crate::ports::{fastest, max_speed, PortSpeed, GBIT};
use crate::reset::{ResetMonitor, RESET_DURATION, RESET_INTERVAL, RESET_THRESHOLD};
use crate::search::{classify, BinarySearch, ExponentialSearch};
use crate::stats::StatsSnapshot;
use crate::store::{Results, TestResult};

verus! {

/// A logged set of streams as a value.
pub open spec fn generator_of(g: TrafficGenData) -> Generator {
    Generator {
        streams: g.streams@,
        name: match g.name {
            Some(s) => Some(s@),
            None => None,
        },
    }
}

/// The log of generators as a value.
pub open spec fn generators_of(log: Seq<TrafficGenData>) -> Seq<Generator> {
    Seq::new(log.len(), |i: int| generator_of(log[i]))
}

/// What a snapshot of the counters says of the run it closes.
pub open spec fn measurement_of(stats: StatsSnapshot) -> Measurement {
    Measurement { loss: stats.loss(), rtt: stats.rtt() }
}

/// The signal for a run that completed, from the counters fetched after it;
/// without counters the run counts as unreadable.
pub fn run_completed(stats: Option<&StatsSnapshot>) -> (signal: Signal)
    ensures
        signal == Signal::RunCompleted(
            match stats {
                Some(s) => Some(measurement_of(*s)),
                None => None,
            },
        ),
{
    match stats {
        Some(s) => Signal::RunCompleted(
            Some(Measurement { loss: s.loss_percent(), rtt: s.first_rtt() }),
        ),
        None => Signal::RunCompleted(None),
    }
}

/// The frame size at a place in the order of testing.
pub fn frame_size(index: u32) -> (size: u32)
    ensures
        size == frame_size_at(index),
{
    if index == 0 {
        64
    } else if index == 1 {
        128
    } else if index == 2 {
        512
    } else if index == 3 {
        1024
    } else {
        1518
    }
}

/// The stage of a throughput search whose doubling phase stands at `search`.
fn stage_of_search(search: ExponentialSearch) -> (stage: Stage)
    requires
        search.wf(),
    ensures
        stage == search_stage(search),
        stage matches Stage::Expanding(s) ==> s == search && s.probing(),
        stage matches Stage::Refining(s) ==> s.wf() && s.probing(),
        stage is Expanding || stage is Refining,
{
    match search.interval() {
        None => Stage::Expanding(search),
        Some(bracket) => Stage::Refining(BinarySearch::new(bracket.lower, bracket.upper)),
    }
}

impl Benchmark {
    /// The action the benchmark waits for.
    pub fn action(&self) -> (action: Action)
        requires
            self.wf(),
        ensures
            action == self.pending(),
    {
        let size = frame_size(self.index);
        match self.stage {
            Stage::Expanding(s) => match s.rate() {
                Some(rate) => Action::Run {
                    frame_size: size,
                    rate,
                    iteration: 0,
                    duration: SEARCH_RUN,
                },
                None => Action::Ignored,
            },
            Stage::Refining(s) => match s.rate() {
                Some(rate) => Action::Run {
                    frame_size: size,
                    rate,
                    iteration: 0,
                    duration: SEARCH_RUN,
                },
                None => Action::Ignored,
            },
            Stage::Repeating(s) => Action::Run {
                frame_size: size,
                rate: self.rate,
                iteration: s.repetition,
                duration: LATENCY_RUN,
            },
            Stage::Sweeping(s) => match s.rate() {
                Some(rate) => Action::Run {
                    frame_size: size,
                    rate,
                    iteration: s.step,
                    duration: SEARCH_RUN,
                },
                None => Action::Ignored,
            },
            Stage::Monitoring => Action::RunMonitored {
                frame_size: size,
                rate: self.rate,
                duration: RESET_RUN,
                monitor: ResetMonitor::new(RESET_THRESHOLD, RESET_DURATION, RESET_INTERVAL),
            },
            Stage::SavingThroughput => Action::Save { tag: TAG_THROUGHPUT, settle: SETTLE },
            Stage::SavingLatency(_) => Action::Save { tag: TAG_THROUGHPUT, settle: SETTLE },
            Stage::SavingFrameLoss => Action::Save { tag: TAG_FRAME_LOSS, settle: 0 },
            Stage::SavingReset(_) => Action::Save { tag: TAG_RESET, settle: 0 },
        }
    }
}

/// The state shared by everything that runs or reads a benchmark.
pub struct AppState {
    rfc_results: TestResult,
    multiple_traffic_generators: Vec<TrafficGenData>,
    collected_statistics: Vec<StatsSnapshot>,
    collected_time_statistics: Vec<StatsSnapshot>,
    streams: Vec<Stream>,
    active: Option<Benchmark>,
    epoch: u64,
}

impl View for AppState {
    type V = Model;

    closed spec fn view(&self) -> Model {
        Model {
            results: self.rfc_results@,
            active: self.active,
            epoch: self.epoch,
            streams: self.streams@,
            generators: generators_of(self.multiple_traffic_generators@),
        }
    }
}

impl AppState {
    /// Whether the state is one that the functions of this module leave.
    pub closed spec fn wf(&self) -> bool {
        self@.wf()
    }

    /// The statistics collected at the end of sub-tests.
    pub closed spec fn collected(&self) -> Seq<StatsSnapshot> {
        self.collected_statistics@
    }

    /// The statistics collected at intervals.
    pub closed spec fn collected_over_time(&self) -> Seq<StatsSnapshot> {
        self.collected_time_statistics@
    }

    /// Whether both lists of statistics are those of `other`.
    pub open spec fn same_statistics(&self, other: &AppState) -> bool {
        &&& self.collected() == other.collected()
        &&& self.collected_over_time() == other.collected_over_time()
    }

    /// The state at start-up: nothing measured, nothing in flight, nothing
    /// logged.
    pub fn new() -> (state: Self)
        ensures
            state@ == Model::initial(),
            state.wf(),
            state.collected() == Seq::<StatsSnapshot>::empty(),
            state.collected_over_time() == Seq::<StatsSnapshot>::empty(),
    {
        let state = AppState {
            rfc_results: TestResult::new(),
            multiple_traffic_generators: Vec::new(),
            collected_statistics: Vec::new(),
            collected_time_statistics: Vec::new(),
            streams: Vec::new(),
            active: None,
            epoch: 0,
        };
        proof {
            assert(state@.generators =~= Seq::<Generator>::empty());
        }
        state
    }

    /// The result store.
    pub fn results(&self) -> (r: &TestResult)
        ensures
            r@ == self@.results,
    {
        &self.rfc_results
    }

    /// The log of generators.
    pub fn generators(&self) -> (log: &Vec<TrafficGenData>)
        ensures
            generators_of(log@) == self@.generators,
    {
        &self.multiple_traffic_generators
    }

    /// The statistics collected at the end of sub-tests.
    pub fn statistics(&self) -> (list: &Vec<StatsSnapshot>)
        ensures
            list@ == self.collected(),
    {
        &self.collected_statistics
    }

    /// The statistics collected at intervals.
    pub fn time_statistics(&self) -> (list: &Vec<StatsSnapshot>)
        ensures
            list@ == self.collected_over_time(),
    {
        &self.collected_time_statistics
    }

    /// The token that `advance` accepts while a benchmark is in flight.
    pub fn token(&self) -> (t: u64)
        ensures
            t == self@.epoch,
    {
        self.epoch
    }

    /// The benchmark in flight, if any.
    pub fn in_flight(&self) -> (b: Option<Benchmark>)
        ensures
            b == self@.active,
    {
        self.active
    }

    /// The action the caller is to perform; `Ignored` when no benchmark is
    /// in flight.
    pub fn pending(&self) -> (action: Action)
        requires
            self.wf(),
        ensures
            action == self@.pending(),
    {
        match &self.active {
            Some(b) => b.action(),
            None => Action::Ignored,
        }
    }

    /// Adds a snapshot to the statistics collected at the end of sub-tests.
    pub fn collect_statistics(&mut self, stats: StatsSnapshot)
        ensures
            final(self).collected() == old(self).collected().push(stats),
            final(self).collected_over_time() == old(self).collected_over_time(),
            final(self)@ == old(self)@,
            final(self).wf() == old(self).wf(),
    {
        self.collected_statistics.push(stats);
    }

    /// Adds a snapshot to the statistics collected at intervals.
    pub fn collect_time_statistics(&mut self, stats: StatsSnapshot)
        ensures
            final(self).collected_over_time() == old(self).collected_over_time().push(stats),
            final(self).collected() == old(self).collected(),
            final(self)@ == old(self)@,
            final(self).wf() == old(self).wf(),
    {
        self.collected_time_statistics.push(stats);
    }

    /// Begins the sub-test of `bench` for the frame size at `index`.
    fn enter(&mut self, bench: Benchmark, index: u32)
        requires
            old(self).streams@.len() > 0,
            index < FRAME_SIZES,
            bench.base_rate == old(self).streams@[0].traffic_rate,
            bench.kind == TestKind::Reset ==> index == 0,
        ensures
            final(self)@ == old(self)@.enter(bench, index),
            final(self).wf(),
            final(self)@.active is Some,
            final(self).same_statistics(old(self)),
    {
        let size = frame_size(index);
        let rate: u64 = match bench.kind {
            TestKind::Throughput => bench.base_rate,
            TestKind::FrameLoss => bench.line_rate,
            _ => match self.rfc_results.throughput_of(size) {
                Some(rate) => rate,
                None => bench.base_rate,
            },
        };
        let stage = match bench.kind {
            TestKind::Throughput => stage_of_search(ExponentialSearch::new(bench.base_rate)),
            TestKind::Latency => Stage::Repeating(LatencyRun::new()),
            TestKind::FrameLoss => Stage::Sweeping(FrameLossSweep::new(bench.line_rate)),
            TestKind::Reset => Stage::Monitoring,
        };
        self.rfc_results.set_current_test(test_label(bench.kind, size));
        match bench.kind {
            TestKind::FrameLoss => {
                self.rfc_results.begin_sweep(size);
            },
            _ => {},
        }
        let streams = drive(&self.streams, size, rate);
        save_tg(&mut self.multiple_traffic_generators, streams, test_label(bench.kind, size));
        self.active = Some(
            Benchmark {
                kind: bench.kind,
                base_rate: bench.base_rate,
                line_rate: bench.line_rate,
                index,
                rate,
                stage,
            },
        );
        proof {
            let want = old(self)@.enter(bench, index);
            assert(self@.generators =~= want.generators);
            assert(self@.results == want.results);
        }
    }

    /// Ends the benchmark in flight.
    fn close(&mut self)
        ensures
            final(self)@ == old(self)@.close(),
            final(self).wf(),
            final(self).same_statistics(old(self)),
    {
        self.rfc_results.set_running(false);
        self.active = None;
    }

    /// Puts the benchmark in flight into `stage`.
    fn stay(&mut self, bench: Benchmark, stage: Stage) -> (action: Action)
        requires
            old(self).wf(),
            old(self)@.active == Some(bench),
            (Benchmark { stage, ..bench }).wf(),
        ensures
            (final(self)@, action) == old(self)@.stay(bench, stage),
            final(self).wf(),
            final(self).same_statistics(old(self)),
    {
        let next = Benchmark {
            kind: bench.kind,
            base_rate: bench.base_rate,
            line_rate: bench.line_rate,
            index: bench.index,
            rate: bench.rate,
            stage,
        };
        self.active = Some(next);
        next.action()
    }

    /// Goes on after a frame size is done.
    fn proceed(&mut self, bench: Benchmark) -> (action: Action)
        requires
            old(self).streams@.len() > 0,
            bench.base_rate == old(self).streams@[0].traffic_rate,
            bench.index < FRAME_SIZES,
        ensures
            (final(self)@, action) == old(self)@.proceed(bench),
            final(self).wf(),
            final(self).same_statistics(old(self)),
    {
        let last = match bench.kind {
            TestKind::Reset => true,
            _ => bench.index + 1 >= FRAME_SIZES,
        };
        if last {
            self.close();
            Action::Finished
        } else {
            self.enter(bench, bench.index + 1);
            self.pending()
        }
    }

    /// Ends the benchmark in flight with a failure.
    fn fail(&mut self, cause: Cause, bench: Benchmark) -> (action: Action)
        ensures
            (final(self)@, action) == old(self)@.fail(cause, bench.frame_size()),
            final(self).wf(),
            final(self).same_statistics(old(self)),
    {
        self.close();
        Action::Failed { cause, frame_size: frame_size(bench.index) }
    }
}

/// Cancels the benchmark in flight, if there is one, and supersedes the abort
/// channel, so that no token handed out before is accepted again.
pub fn abort_current_test(state: &mut AppState)
    ensures
        final(state)@ == old(state)@.abort(),
        final(state).wf(),
        final(state).same_statistics(old(state)),
{
    if state.active.is_some() {
        state.rfc_results.set_running(false);
    }
    state.active = None;
    state.epoch = if state.epoch == u64::MAX {
        0
    } else {
        state.epoch + 1
    };
}

/// Starts a benchmark of `kind`: supersedes the one in flight, opens the
/// record, and begins with the first frame size.
fn begin(state: &mut AppState, kind: TestKind, payload: &TrafficGenData, line_rate: u64) -> (started:
    (u64, Action))
    requires
        payload.streams@.len() > 0,
    ensures
        final(state)@ == old(state)@.begin(kind, payload.streams@, line_rate),
        final(state).wf(),
        final(state).same_statistics(old(state)),
        started.0 == final(state)@.epoch,
        started.1 == final(state)@.pending(),
        final(state)@.accepts(started.0),
{
    if state.active.is_some() {
        state.rfc_results.reset();
    }
    abort_current_test(state);
    match kind {
        TestKind::Throughput => {
            state.rfc_results.throughput = None;
        },
        TestKind::Latency => {
            state.rfc_results.latency = None;
        },
        TestKind::FrameLoss => {
            state.rfc_results.frame_loss_rate = None;
        },
        TestKind::Reset => {
            state.rfc_results.reset = None;
        },
    }
    state.rfc_results.set_running(true);
    state.streams = copy_streams(&payload.streams);
    let bench = Benchmark {
        kind,
        base_rate: payload.streams[0].traffic_rate,
        line_rate,
        index: 0,
        rate: 0,
        stage: Stage::Monitoring,
    };
    proof {
        let opened = Model {
            results: old(state)@.opened(kind),
            streams: payload.streams@,
            ..old(state)@.abort()
        };
        assert(state@.results == opened.results);
        assert(state@ == opened);
    }
    state.enter(bench, 0);
    (state.epoch, state.pending())
}

/// Starts the throughput test: for each frame size, the search for the
/// greatest rate without loss, from the rate of the payload's first stream.
pub fn throughput_test(state: &mut AppState, payload: &TrafficGenData) -> (started: (u64, Action))
    requires
        payload.streams@.len() > 0,
    ensures
        final(state)@ == old(state)@.begin(TestKind::Throughput, payload.streams@, 0),
        final(state).wf(),
        final(state).same_statistics(old(state)),
        started.0 == final(state)@.epoch,
        started.1 == final(state)@.pending(),
        final(state)@.accepts(started.0),
{
    begin(state, TestKind::Throughput, payload, 0)
}

/// Starts the latency test: for each frame size, ten runs at the throughput
/// recorded for it, or at the payload's rate where none is recorded.
pub fn latency_test(state: &mut AppState, payload: &TrafficGenData) -> (started: (u64, Action))
    requires
        payload.streams@.len() > 0,
    ensures
        final(state)@ == old(state)@.begin(TestKind::Latency, payload.streams@, 0),
        final(state).wf(),
        final(state).same_statistics(old(state)),
        started.0 == final(state)@.epoch,
        started.1 == final(state)@.pending(),
        final(state)@.accepts(started.0),
{
    begin(state, TestKind::Latency, payload, 0)
}

/// Starts the frame-loss test: for each frame size, the sweep down from the
/// line rate, which is the greatest speed among `ports`.
pub fn frame_loss_rate_test(
    state: &mut AppState,
    payload: &TrafficGenData,
    ports: &Vec<PortSpeed>,
) -> (started: (u64, Action))
    requires
        payload.streams@.len() > 0,
    ensures
        final(state)@ == old(state)@.begin(
            TestKind::FrameLoss,
            payload.streams@,
            (fastest(ports@) * GBIT) as u64,
        ),
        final(state).wf(),
        final(state).same_statistics(old(state)),
        started.0 == final(state)@.epoch,
        started.1 == final(state)@.pending(),
        final(state)@.accepts(started.0),
{
    let line_rate = max_speed(ports);
    begin(state, TestKind::FrameLoss, payload, line_rate)
}

/// Starts the reset test: one monitored run at 64 bytes, at the throughput
/// recorded for that size, or at the payload's rate where none is recorded.
pub fn reset_test(state: &mut AppState, payload: &TrafficGenData) -> (started: (u64, Action))
    requires
        payload.streams@.len() > 0,
    ensures
        final(state)@ == old(state)@.begin(TestKind::Reset, payload.streams@, 0),
        final(state).wf(),
        final(state).same_statistics(old(state)),
        started.0 == final(state)@.epoch,
        started.1 == final(state)@.pending(),
        final(state)@.accepts(started.0),
{
    begin(state, TestKind::Reset, payload, 0)
}

/// Takes the signal that ends the pending action and says what to do next.
///
/// Under a token other than that of the benchmark in flight nothing changes
/// and the action is `Ignored`: a superseded benchmark cannot touch the
/// record.
pub fn advance(state: &mut AppState, token: u64, signal: Signal) -> (action: Action)
    requires
        old(state).wf(),
    ensures
        (final(state)@, action) == old(state)@.step(token, signal),
        final(state).wf(),
        final(state).same_statistics(old(state)),
{
    let bench = match state.active {
        Some(bench) => bench,
        None => {
            return Action::Ignored;
        },
    };
    if token != state.epoch {
        return Action::Ignored;
    }
    match signal {
        Signal::RunCompleted(m) => {
            let loss: Option<u128> = match m {
                Some(m) => m.loss,
                None => None,
            };
            let rtt: Option<u64> = match m {
                Some(m) => m.rtt,
                None => None,
            };
            match bench.stage {
                Stage::Expanding(s) => {
                    let mut search = s;
                    search.record(classify(loss));
                    let stage = stage_of_search(search);
                    state.stay(bench, stage)
                },
                Stage::Refining(s) => {
                    let mut search = s;
                    search.record(classify(loss));
                    match search.result() {
                        None => state.stay(bench, Stage::Refining(search)),
                        Some(best) => {
                            state.rfc_results.record_throughput(frame_size(bench.index), best);
                            state.stay(bench, Stage::SavingThroughput)
                        },
                    }
                },
                Stage::Repeating(s) => {
                    let mut run = s;
                    run.record(rtt);
                    match run.iteration() {
                        Some(_) => state.stay(bench, Stage::Repeating(run)),
                        None => state.stay(bench, Stage::SavingLatency(run.mean_latency())),
                    }
                },
                Stage::Sweeping(s) => {
                    let mut sweep = s;
                    match sweep.record(loss) {
                        Some(e) => {
                            state.rfc_results.record_loss(
                                frame_size(bench.index),
                                e.share,
                                e.loss,
                            );
                        },
                        None => {},
                    }
                    match sweep.rate() {
                        Some(_) => state.stay(bench, Stage::Sweeping(sweep)),
                        None => state.stay(bench, Stage::SavingFrameLoss),
                    }
                },
                _ => Action::Ignored,
            }
        },
        Signal::RunFailed => match bench.stage {
            Stage::Expanding(_) | Stage::Refining(_) | Stage::Repeating(_) | Stage::Sweeping(
                _,
            ) => state.fail(Cause::TrafficGenerator, bench),
            _ => Action::Ignored,
        },
        Signal::Saved => match bench.stage {
            Stage::SavingThroughput => state.proceed(bench),
            Stage::SavingLatency(mean) => {
                state.rfc_results.record_latency(frame_size(bench.index), mean);
                state.proceed(bench)
            },
            Stage::SavingFrameLoss => state.proceed(bench),
            Stage::SavingReset(recovery) => {
                state.rfc_results.record_reset(frame_size(bench.index), recovery);
                state.proceed(bench)
            },
            _ => Action::Ignored,
        },
        Signal::SaveFailed => match bench.stage {
            Stage::SavingThroughput | Stage::SavingLatency(_) | Stage::SavingFrameLoss
            | Stage::SavingReset(_) => state.fail(Cause::StatisticsSink, bench),
            _ => Action::Ignored,
        },
        Signal::ResetCompleted(report) => match bench.stage {
            Stage::Monitoring => state.stay(bench, Stage::SavingReset(report.recovery_time())),
            _ => Action::Ignored,
        },
        Signal::ResetFailed(cause) => match bench.stage {
            Stage::Monitoring => state.fail(cause, bench),
            _ => Action::Ignored,
        },
    }
}

/// Clears the record: every output absent, nothing running, no current
/// test. Whatever was recorded before, the record is then the one of the
/// state at start-up.
pub fn reset_results(state: &mut AppState)
    ensures
        final(state)@ == (Model { results: Results::initial(), ..old(state)@ }),
        final(state)@.results == Model::initial().results,
        final(state).wf() == old(state).wf(),
        final(state).same_statistics(old(state)),
{
    state.rfc_results.reset();
}

/// Sets the running flag of the record.
pub fn set_running_flag(state: &mut AppState, running: bool)
    ensures
        final(state)@ == (Model {
            results: Results { running, ..old(state)@.results },
            ..old(state)@
        }),
        final(state).wf() == old(state).wf(),
        final(state).same_statistics(old(state)),
{
    state.rfc_results.set_running(running);
}

/// Sets the label of the current test in the record.
pub fn set_name_flag(state: &mut AppState, name: String)
    ensures
        final(state)@ == (Model {
            results: Results { current_test: Some(name@), ..old(state)@.results },
            ..old(state)@
        }),
        final(state).wf() == old(state).wf(),
        final(state).same_statistics(old(state)),
{
    state.rfc_results.set_current_test(name);
}

/// Empties both lists of collected statistics and the log of generators.
pub fn reset_collected_statistics(state: &mut AppState)
    ensures
        final(state)@ == (Model { generators: Seq::empty(), ..old(state)@ }),
        final(state).collected() == Seq::<StatsSnapshot>::empty(),
        final(state).collected_over_time() == Seq::<StatsSnapshot>::empty(),
        final(state).wf() == old(state).wf(),
{
    state.collected_statistics.clear();
    state.collected_time_statistics.clear();
    state.multiple_traffic_generators.clear();
    proof {
        assert(state@.generators =~= Seq::<Generator>::empty());
    }
}

} // verus!
