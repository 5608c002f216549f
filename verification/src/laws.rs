//! What holds of the benchmarks over whole runs: statements about the model
//! that follow from its definition, each with its proof.

use vstd::prelude::*;
use crate::model::{
    frame_size_at, loss_of, next_epoch, rtt_of, Action, Benchmark, Model, Signal, Stage,
    FRAME_SIZES, SEARCH_RUN,
};
use crate::frame_loss::SWEEP_STEPS;
use crate::latency::REPETITIONS;
use crate::payload::{Stream, TestKind};
use crate::search::{observation_of, Observation, MAX_PROBES};
use crate::store::{get, Results};

verus! {

/// Whether the running flag says what is the case: it is set exactly while
/// a benchmark is in flight.
pub open spec fn flag_is_true(m: Model) -> bool {
    m.results.running == (m.active is Some)
}

/// Starting a benchmark sets the running flag, and puts exactly that
/// benchmark in flight, under a token that differs from the one before.
pub proof fn lemma_begin_runs(m: Model, kind: TestKind, streams: Seq<Stream>, line_rate: u64)
    requires
        streams.len() > 0,
    ensures
        m.begin(kind, streams, line_rate).wf(),
        m.begin(kind, streams, line_rate).results.running,
        m.begin(kind, streams, line_rate).active is Some,
        m.begin(kind, streams, line_rate).active->0.kind == kind,
        m.begin(kind, streams, line_rate).epoch == next_epoch(m.epoch),
        m.begin(kind, streams, line_rate).epoch != m.epoch,
        !m.begin(kind, streams, line_rate).accepts(m.epoch),
{
}

/// A step clears the running flag exactly when it ends the benchmark, by
/// completion or by failure; any other step leaves the flag and the
/// benchmark's being in flight as they were. Only a signal under the
/// token of the benchmark in flight can end it.
pub proof fn lemma_step_runs(m: Model, token: u64, signal: Signal)
    requires
        m.wf(),
    ensures
        m.step(token, signal).0.wf(),
        m.step(token, signal).0.epoch == m.epoch,
        m.step(token, signal).1.terminal() ==> {
            &&& m.accepts(token)
            &&& !m.step(token, signal).0.results.running
            &&& m.step(token, signal).0.active is None
        },
        !m.step(token, signal).1.terminal() ==> {
            &&& m.step(token, signal).0.results.running == m.results.running
            &&& (m.step(token, signal).0.active is Some) == (m.active is Some)
        },
        flag_is_true(m) ==> flag_is_true(m.step(token, signal).0),
{
    if m.accepts(token) {
        let bench = m.active->0;
        match bench.stage {
            Stage::Expanding(s) => {
                s.lemma_observe_wf(Observation::Lossless);
                s.lemma_observe_wf(Observation::Lossy);
                s.lemma_observe_wf(Observation::Unavailable);
            },
            Stage::Refining(s) => {},
            Stage::Repeating(s) => {
                match signal {
                    Signal::RunCompleted(x) => {
                        s.lemma_observe_wf(rtt_of(x));
                    },
                    _ => {},
                }
            },
            Stage::Sweeping(s) => {},
            _ => {},
        }
    }
}

/// From the start of a benchmark on, over any series of signals, the
/// running flag is set exactly while the benchmark is in flight.
pub proof fn lemma_running_while_in_flight(
    m: Model,
    kind: TestKind,
    streams: Seq<Stream>,
    line_rate: u64,
    signals: Seq<Signal>,
)
    requires
        streams.len() > 0,
    ensures
        ({
            let begun = m.begin(kind, streams, line_rate);
            let after = begun.run(begun.epoch, signals);
            after.wf() && flag_is_true(after) && after.epoch == begun.epoch
        }),
    decreases signals.len(),
{
    let begun = m.begin(kind, streams, line_rate);
    lemma_begin_runs(m, kind, streams, line_rate);
    if signals.len() > 0 {
        lemma_running_while_in_flight(m, kind, streams, line_rate, signals.drop_last());
        lemma_step_runs(begun.run(begun.epoch, signals.drop_last()), begun.epoch, signals.last());
    }
}

/// At most one benchmark is in flight: at any instant at most one token is
/// accepted, a signal under any other token changes nothing, and once a
/// new benchmark is started or the current one is aborted, the token
/// accepted before is accepted no more.
pub proof fn lemma_one_benchmark_in_flight(
    m: Model,
    first: u64,
    second: u64,
    signal: Signal,
    kind: TestKind,
    streams: Seq<Stream>,
    line_rate: u64,
)
    ensures
        m.accepts(first) && m.accepts(second) ==> first == second,
        !m.accepts(first) ==> m.step(first, signal) == (m, Action::Ignored),
        !m.abort().accepts(first),
        m.accepts(first) ==> !m.begin(kind, streams, line_rate).accepts(first),
{
}

/// Whether two states differ at most in the generation of the abort
/// channel.
pub open spec fn alike(a: Model, b: Model) -> bool {
    &&& a.results == b.results
    &&& a.active == b.active
    &&& a.streams == b.streams
    &&& a.generators == b.generators
}

/// Two states that are alike take the same step, each under its own token.
pub proof fn lemma_step_alike(a: Model, b: Model, signal: Signal)
    requires
        alike(a, b),
    ensures
        alike(a.step(a.epoch, signal).0, b.step(b.epoch, signal).0),
        a.step(a.epoch, signal).1 == b.step(b.epoch, signal).1,
        a.step(a.epoch, signal).0.epoch == a.epoch,
        b.step(b.epoch, signal).0.epoch == b.epoch,
{
}

/// Two states that are alike stay alike over any series of signals.
pub proof fn lemma_run_alike(a: Model, b: Model, signals: Seq<Signal>)
    requires
        alike(a, b),
    ensures
        alike(a.run(a.epoch, signals), b.run(b.epoch, signals)),
        a.run(a.epoch, signals).epoch == a.epoch,
        b.run(b.epoch, signals).epoch == b.epoch,
    decreases signals.len(),
{
    if signals.len() > 0 {
        lemma_run_alike(a, b, signals.drop_last());
        lemma_step_alike(
            a.run(a.epoch, signals.drop_last()),
            b.run(b.epoch, signals.drop_last()),
            signals.last(),
        );
    }
}

/// Starting a benchmark while another is in flight is the same as aborting
/// that one, clearing the record and then starting the benchmark: the two
/// give the same first action and, over any series of signals, the same
/// record, the same progress and the same log.
pub proof fn lemma_begin_supersedes(
    m: Model,
    kind: TestKind,
    streams: Seq<Stream>,
    line_rate: u64,
    signals: Seq<Signal>,
)
    requires
        m.active is Some,
        streams.len() > 0,
    ensures
        ({
            let direct = m.begin(kind, streams, line_rate);
            let clean = Model { results: Results::initial(), ..m.abort() };
            let staged = clean.begin(kind, streams, line_rate);
            &&& direct.pending() == staged.pending()
            &&& alike(direct.run(direct.epoch, signals), staged.run(staged.epoch, signals))
        }),
{
    let direct = m.begin(kind, streams, line_rate);
    let clean = Model { results: Results::initial(), ..m.abort() };
    let staged = clean.begin(kind, streams, line_rate);
    assert(alike(direct, staged));
    lemma_run_alike(direct, staged, signals);
}

/// Whether two states hold the same throughput test at the same point with
/// the same rates recorded, whatever else they hold.
pub open spec fn same_search(a: Model, b: Model) -> bool {
    &&& a.active == b.active
    &&& a.active matches Some(x) ==> x.kind == TestKind::Throughput
    &&& a.streams == b.streams
    &&& a.results.throughput == b.results.throughput
}

/// A step of the throughput test depends on nothing but the test's own
/// state and the signal.
pub proof fn lemma_step_same_search(a: Model, b: Model, signal: Signal)
    requires
        same_search(a, b),
    ensures
        same_search(a.step(a.epoch, signal).0, b.step(b.epoch, signal).0),
        a.step(a.epoch, signal).1 == b.step(b.epoch, signal).1,
        a.step(a.epoch, signal).0.epoch == a.epoch,
        b.step(b.epoch, signal).0.epoch == b.epoch,
{
}

/// Over any series of signals two throughput tests at the same point stay
/// at the same point.
pub proof fn lemma_run_same_search(a: Model, b: Model, signals: Seq<Signal>)
    requires
        same_search(a, b),
    ensures
        same_search(a.run(a.epoch, signals), b.run(b.epoch, signals)),
        a.run(a.epoch, signals).epoch == a.epoch,
        b.run(b.epoch, signals).epoch == b.epoch,
    decreases signals.len(),
{
    if signals.len() > 0 {
        lemma_run_same_search(a, b, signals.drop_last());
        lemma_step_same_search(
            a.run(a.epoch, signals.drop_last()),
            b.run(b.epoch, signals.drop_last()),
            signals.last(),
        );
    }
}

/// The throughput test is repeatable: started on the same streams and given
/// the same signals, it asks for the same actions and records the same
/// rates, whatever the state it was started in.
pub proof fn lemma_throughput_repeatable(
    a: Model,
    b: Model,
    streams: Seq<Stream>,
    signals: Seq<Signal>,
)
    requires
        streams.len() > 0,
    ensures
        ({
            let x = a.begin(TestKind::Throughput, streams, 0);
            let y = b.begin(TestKind::Throughput, streams, 0);
            &&& x.pending() == y.pending()
            &&& x.run(x.epoch, signals).pending() == y.run(y.epoch, signals).pending()
            &&& x.run(x.epoch, signals).results.throughput == y.run(
                y.epoch,
                signals,
            ).results.throughput
        }),
{
    let x = a.begin(TestKind::Throughput, streams, 0);
    let y = b.begin(TestKind::Throughput, streams, 0);
    assert(same_search(x, y));
    lemma_run_same_search(x, y, signals);
}

/// Whether the run that `signals[i]` reports was a run of the throughput
/// test started at `start`, at this frame size and rate, and completed
/// without loss.
pub open spec fn lossless_run_at(
    start: Model,
    signals: Seq<Signal>,
    i: int,
    frame_size: u32,
    rate: u64,
) -> bool {
    let at = start.run(start.epoch, signals.take(i));
    &&& 0 <= i < signals.len()
    &&& at.accepts(start.epoch)
    &&& at.pending() == (Action::Run { frame_size, rate, iteration: 0, duration: SEARCH_RUN })
    &&& signals[i] is RunCompleted
    &&& observation_of(loss_of(signals[i]->RunCompleted_0)) == Observation::Lossless
}

/// Whether some run of the series was made at this frame size and rate and
/// completed without loss.
pub open spec fn measured(start: Model, signals: Seq<Signal>, frame_size: u32, rate: u64) -> bool {
    exists|i: int| #[trigger] lossless_run_at(start, signals, i, frame_size, rate)
}

/// Whether a rate is one that the record may hold for a frame size: zero,
/// for "no rate was seen without loss", or a rate that was measured so.
pub open spec fn vouched(start: Model, signals: Seq<Signal>, frame_size: u32, rate: u64) -> bool {
    rate == 0 || measured(start, signals, frame_size, rate)
}

/// Whether the frame sizes up to the one at hand have their rate on record.
pub open spec fn recorded_so_far(m: Model) -> bool {
    m.active matches Some(b) ==> forall|j: u32|
        j < b.index || (j == b.index && b.stage is SavingThroughput) ==> (#[trigger] get(
            m.results.throughput,
            frame_size_at(j),
        )) is Some
}

/// What holds of a throughput test after any series of signals.
pub open spec fn search_invariant(start: Model, signals: Seq<Signal>) -> bool {
    let m = start.run(start.epoch, signals);
    &&& m.wf()
    &&& m.epoch == start.epoch
    &&& m.active matches Some(b) ==> b.kind == TestKind::Throughput
    &&& forall|f: u32|
        (#[trigger] get(m.results.throughput, f)) is Some ==> vouched(
            start,
            signals,
            f,
            get(m.results.throughput, f)->0,
        )
    &&& m.active matches Some(b) ==> (b.stage matches Stage::Refining(s) ==> vouched(
        start,
        signals,
        b.frame_size(),
        s.best,
    ))
    &&& recorded_so_far(m)
}

/// What was measured in a series stays measured when the series goes on.
proof fn lemma_vouched_extends(start: Model, signals: Seq<Signal>, frame_size: u32, rate: u64)
    requires
        signals.len() > 0,
        vouched(start, signals.drop_last(), frame_size, rate),
    ensures
        vouched(start, signals, frame_size, rate),
{
    if rate != 0 {
        let front = signals.drop_last();
        let i = choose|i: int| #[trigger] lossless_run_at(start, front, i, frame_size, rate);
        assert(front.take(i) =~= signals.take(i));
        assert(lossless_run_at(start, signals, i, frame_size, rate));
    }
}

/// The invariant of the throughput test is kept by every signal.
proof fn lemma_search_invariant_step(start: Model, signals: Seq<Signal>)
    requires
        signals.len() > 0,
        search_invariant(start, signals.drop_last()),
    ensures
        search_invariant(start, signals),
{
    let front = signals.drop_last();
    let last = signals.last();
    let prev = start.run(start.epoch, front);
    let m = start.run(start.epoch, signals);
    assert(m == prev.step(start.epoch, last).0);
    lemma_step_runs(prev, start.epoch, last);
    assert(signals.take(signals.len() - 1) =~= front);
    assert forall|f: u32, r: u64| vouched(start, front, f, r) implies vouched(
        start,
        signals,
        f,
        r,
    ) by {
        lemma_vouched_extends(start, signals, f, r);
    }
    if prev.accepts(start.epoch) {
        let b = prev.active->0;
        match b.stage {
            Stage::Refining(s) => {
                match last {
                    Signal::RunCompleted(x) => {
                        let obs = observation_of(loss_of(x));
                        let after = s.observe(obs);
                        if obs == Observation::Lossless {
                            assert(lossless_run_at(
                                start,
                                signals,
                                signals.len() - 1,
                                b.frame_size(),
                                after.best,
                            ));
                        }
                        assert(vouched(start, signals, b.frame_size(), after.best));
                    },
                    _ => {},
                }
            },
            Stage::Expanding(s) => {
                s.lemma_observe_wf(Observation::Lossless);
                s.lemma_observe_wf(Observation::Lossy);
                s.lemma_observe_wf(Observation::Unavailable);
            },
            _ => {},
        }
    }
    assert forall|f: u32| (#[trigger] get(m.results.throughput, f)) is Some implies vouched(
        start,
        signals,
        f,
        get(m.results.throughput, f)->0,
    ) by {
        let r = get(m.results.throughput, f)->0;
        if get(prev.results.throughput, f) == Some(r) {
            assert(vouched(start, front, f, r));
        }
    }
    if m.active is Some {
        let after = m.active->0;
        assert forall|j: u32|
            j < after.index || (j == after.index && after.stage
                is SavingThroughput) implies (#[trigger] get(
            m.results.throughput,
            frame_size_at(j),
        )) is Some by {
            let before = prev.active->0;
            if j < before.index || (j == before.index && before.stage is SavingThroughput) {
                assert(get(prev.results.throughput, frame_size_at(j)) is Some);
            }
        }
    }
}

/// The invariant of the throughput test holds from its start on.
proof fn lemma_search_invariant(m: Model, streams: Seq<Stream>, signals: Seq<Signal>)
    requires
        streams.len() > 0,
    ensures
        search_invariant(m.begin(TestKind::Throughput, streams, 0), signals),
    decreases signals.len(),
{
    let start = m.begin(TestKind::Throughput, streams, 0);
    lemma_begin_runs(m, TestKind::Throughput, streams, 0);
    if signals.len() > 0 {
        lemma_search_invariant(m, streams, signals.drop_last());
        lemma_search_invariant_step(start, signals);
    }
}

/// Every rate that the throughput test records was measured: whatever the
/// signals, a rate on record for a frame size is zero or the rate of a run
/// at that frame size that completed without loss. And when the test
/// finishes, each of the five frame sizes has its rate on record.
pub proof fn lemma_throughput_is_measured(m: Model, streams: Seq<Stream>, signals: Seq<Signal>)
    requires
        streams.len() > 0,
    ensures
        ({
            let start = m.begin(TestKind::Throughput, streams, 0);
            let end = start.run(start.epoch, signals);
            &&& forall|f: u32|
                (#[trigger] get(end.results.throughput, f)) is Some ==> vouched(
                    start,
                    signals,
                    f,
                    get(end.results.throughput, f)->0,
                )
            &&& signals.len() > 0 && start.run(start.epoch, signals.drop_last()).step(
                start.epoch,
                signals.last(),
            ).1 is Finished ==> forall|j: u32|
                j < FRAME_SIZES ==> (#[trigger] get(end.results.throughput, frame_size_at(j)))
                    is Some
        }),
{
    let start = m.begin(TestKind::Throughput, streams, 0);
    lemma_search_invariant(m, streams, signals);
    if signals.len() > 0 {
        lemma_search_invariant(m, streams, signals.drop_last());
        let prev = start.run(start.epoch, signals.drop_last());
        let end = start.run(start.epoch, signals);
        if prev.step(start.epoch, signals.last()).1 is Finished {
            let b = prev.active->0;
            assert(b.stage is SavingThroughput);
            assert(b.index == FRAME_SIZES - 1);
            assert(end.results.throughput == prev.results.throughput);
            assert forall|j: u32| j < FRAME_SIZES implies (#[trigger] get(
                end.results.throughput,
                frame_size_at(j),
            )) is Some by {
                assert(j < b.index || (j == b.index && b.stage is SavingThroughput));
            }
        }
    }
}

/// The greatest number of signals that a benchmark in flight can still take
/// before it ends: the runs and the saving left for the frame size at hand,
/// and all of them for each frame size to come.
pub open spec fn budget(b: Benchmark) -> nat {
    let here: int = match b.stage {
        Stage::Expanding(s) => 2 * MAX_PROBES - s.attempts + 1,
        Stage::Refining(s) => MAX_PROBES - s.probes + 1,
        Stage::SavingThroughput => 1,
        Stage::Repeating(s) => REPETITIONS - s.repetition + 1,
        Stage::SavingLatency(_) => 1,
        Stage::Sweeping(s) => SWEEP_STEPS - s.step + 1,
        Stage::SavingFrameLoss => 1,
        Stage::Monitoring => 2,
        Stage::SavingReset(_) => 1,
    };
    let to_come: int = FRAME_SIZES - 1 - b.index;
    let later: int = match b.kind {
        TestKind::Throughput => to_come * 21,
        TestKind::Latency => to_come * 11,
        TestKind::FrameLoss => to_come * 11,
        TestKind::Reset => 0,
    };
    if here + later >= 0 {
        (here + later) as nat
    } else {
        0
    }
}

/// Every benchmark ends: a signal either changes nothing and is answered
/// with `Ignored`, or ends the benchmark, or leaves it with a smaller
/// budget.
pub proof fn lemma_step_progress(m: Model, token: u64, signal: Signal)
    requires
        m.wf(),
    ensures
        m.step(token, signal).1 is Ignored ==> m.step(token, signal).0 == m,
        !(m.step(token, signal).1 is Ignored) ==> m.accepts(token) && (m.step(
            token,
            signal,
        ).0.active matches Some(after) ==> budget(after) < budget(m.active->0)),
{
    lemma_step_runs(m, token, signal);
    if m.accepts(token) {
        let bench = m.active->0;
        match bench.stage {
            Stage::Expanding(s) => {
                s.lemma_observe_wf(Observation::Lossless);
                s.lemma_observe_wf(Observation::Lossy);
                s.lemma_observe_wf(Observation::Unavailable);
            },
            Stage::Repeating(s) => {
                match signal {
                    Signal::RunCompleted(x) => {
                        s.lemma_observe_wf(rtt_of(x));
                    },
                    _ => {},
                }
            },
            _ => {},
        }
    }
}

/// A throughput test takes at most 105 signals from its start to its end, a
/// latency or frame-loss test at most 55, a reset test 2.
pub proof fn lemma_budget_at_start(m: Model, kind: TestKind, streams: Seq<Stream>, line_rate: u64)
    requires
        streams.len() > 0,
    ensures
        budget(m.begin(kind, streams, line_rate).active->0) <= (match kind {
            TestKind::Throughput => 105nat,
            TestKind::Latency => 55nat,
            TestKind::FrameLoss => 55nat,
            TestKind::Reset => 2nat,
        }),
{
}

/// The rate that a latency or reset test started from `m` runs a frame size
/// at: the throughput on record for it when the test began, else the rate of
/// the caller's first stream. A test that supersedes a benchmark in flight
/// finds nothing on record.
pub open spec fn rate_at_start(m: Model, streams: Seq<Stream>, frame_size: u32) -> u64 {
    if m.active is Some {
        streams[0].traffic_rate
    } else {
        m.dependent_rate(frame_size, streams[0].traffic_rate)
    }
}

/// What holds of a latency or reset test after any series of signals.
pub open spec fn dependent_invariant(
    m: Model,
    kind: TestKind,
    streams: Seq<Stream>,
    after: Model,
) -> bool {
    &&& after.wf()
    &&& after.epoch == next_epoch(m.epoch)
    &&& after.results.throughput == (if m.active is Some {
        None
    } else {
        m.results.throughput
    })
    &&& after.active matches Some(b) ==> {
        &&& b.kind == kind
        &&& b.base_rate == streams[0].traffic_rate
        &&& b.rate == rate_at_start(m, streams, b.frame_size())
    }
}

/// The latency and reset tests depend on the throughput test through the
/// record alone: every run they ask for is at the rate that was on record
/// for its frame size when the test began, or at the caller's rate where
/// none was.
pub proof fn lemma_dependent_rate(
    m: Model,
    kind: TestKind,
    streams: Seq<Stream>,
    signals: Seq<Signal>,
)
    requires
        kind == TestKind::Latency || kind == TestKind::Reset,
        streams.len() > 0,
    ensures
        ({
            let start = m.begin(kind, streams, 0);
            let after = start.run(start.epoch, signals);
            &&& dependent_invariant(m, kind, streams, after)
            &&& after.pending() matches Action::Run { frame_size, rate, .. } ==> rate
                == rate_at_start(m, streams, frame_size)
            &&& after.pending() matches Action::RunMonitored { frame_size, rate, .. } ==> rate
                == rate_at_start(m, streams, frame_size)
        }),
    decreases signals.len(),
{
    let start = m.begin(kind, streams, 0);
    lemma_begin_runs(m, kind, streams, 0);
    if signals.len() > 0 {
        lemma_dependent_rate(m, kind, streams, signals.drop_last());
        let prev = start.run(start.epoch, signals.drop_last());
        lemma_step_runs(prev, start.epoch, signals.last());
        if prev.accepts(start.epoch) {
            match prev.active->0.stage {
                Stage::Repeating(s) => {
                    match signals.last() {
                        Signal::RunCompleted(x) => {
                            s.lemma_observe_wf(rtt_of(x));
                        },
                        _ => {},
                    }
                },
                _ => {},
            }
        }
    }
}

} // verus!
