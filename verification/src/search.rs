//! The two-phase search for the greatest offered rate without loss.
//!
//! Rates are whole bits per second. The first phase doubles the offered rate
//! until a run loses packets or the ceiling is passed, which brackets the
//! answer; the second phase bisects the bracket. Both are step machines: they
//! name the next rate to try and take what the run showed.

use vstd::prelude::*;
use vstd::arithmetic::power2::{lemma2_to64, lemma_pow2_unfold, pow2};

verus! {

/// The search never offers more than 100 Gbit/s.
pub const RATE_CEILING: u64 = 100_000_000_000;

/// Bisection stops once the bracket is narrower than 0.001 Gbit/s.
pub const RESOLUTION: u64 = 1_000_000;

/// Each phase tries at most this many rates.
pub const MAX_PROBES: u32 = 10;

/// What one timed run showed.
#[derive(Clone, Copy, Debug, PartialEq, Eq)]
pub enum Observation {
    /// The loss, rounded to three decimals, was zero.
    Lossless,
    /// Packets were lost.
    Lossy,
    /// The counters could not be read after the run.
    Unavailable,
}

/// A pair of rates with the answer between them.
#[derive(Clone, Copy, Debug, PartialEq, Eq)]
pub struct Interval {
    pub lower: u64,
    pub upper: u64,
}

/// Reads a loss figure (thousandths of a percent) as an observation.
pub open spec fn observation_of(loss: Option<u128>) -> Observation {
    match loss {
        Some(l) => if l == 0 {
            Observation::Lossless
        } else {
            Observation::Lossy
        },
        None => Observation::Unavailable,
    }
}

/// Classifies a run by its loss figure; no figure means no reading.
pub fn classify(loss: Option<u128>) -> (obs: Observation)
    ensures
        obs == observation_of(loss),
{
    match loss {
        Some(l) => if l == 0 {
            Observation::Lossless
        } else {
            Observation::Lossy
        },
        None => Observation::Unavailable,
    }
}

/// `initial` doubled `k` times.
pub open spec fn doubled(initial: u64, k: nat) -> nat {
    initial as nat * pow2(k)
}

/// State of the doubling phase.
#[derive(Clone, Copy, Debug, PartialEq, Eq)]
pub struct ExponentialSearch {
    /// The rate the search began with.
    pub initial: u64,
    /// The greatest rate seen without loss, or `initial` before any.
    pub current: u64,
    /// Number of runs without loss so far.
    pub doublings: u32,
    /// Number of runs so far.
    pub attempts: u32,
    /// Set once a run lost packets.
    pub bracket: Option<Interval>,
}

impl ExponentialSearch {
    /// The state before any run.
    pub open spec fn initial_state(initial: u64) -> Self {
        ExponentialSearch { initial, current: initial, doublings: 0, attempts: 0, bracket: None }
    }

    /// Whether the counts are within their limits and `current` is the rate
    /// of the last run without loss, as in every state that the phase
    /// reaches.
    pub open spec fn wf(self) -> bool {
        &&& self.doublings <= self.attempts <= MAX_PROBES
        &&& self.doublings == 0 ==> self.current == self.initial
        &&& self.doublings > 0 ==> {
            &&& self.current == doubled(self.initial, (self.doublings - 1) as nat)
            &&& self.current <= RATE_CEILING
        }
        &&& self.bracket matches Some(b) ==> b.lower <= b.upper
    }

    /// The rate of the next run: the initial rate doubled once per run
    /// without loss.
    pub open spec fn candidate(self) -> nat {
        doubled(self.initial, self.doublings as nat)
    }

    /// Whether another run is wanted.
    pub open spec fn probing(self) -> bool {
        &&& self.bracket is None
        &&& self.attempts < MAX_PROBES
        &&& self.candidate() <= RATE_CEILING
    }

    /// The bracket the phase ends with: the one a lossy run fixed, else the
    /// last rate without loss and its half.
    pub open spec fn outcome(self) -> Interval {
        match self.bracket {
            Some(b) => b,
            None => Interval { lower: self.current / 2, upper: self.current },
        }
    }

    /// Lower end of the bracket when the run at `candidate` loses packets:
    /// the rate one doubling before, zero when there was none.
    pub open spec fn floor(self) -> nat {
        if self.doublings == 0 {
            0
        } else {
            doubled(self.initial, (self.doublings - 1) as nat)
        }
    }

    /// The state after the run at `candidate` showed `obs`. A state that
    /// wants no run ignores it.
    pub open spec fn observe(self, obs: Observation) -> Self {
        if !self.probing() {
            self
        } else {
            match obs {
                Observation::Lossless => ExponentialSearch {
                    current: self.candidate() as u64,
                    doublings: (self.doublings + 1) as u32,
                    attempts: (self.attempts + 1) as u32,
                    ..self
                },
                Observation::Lossy => ExponentialSearch {
                    attempts: (self.attempts + 1) as u32,
                    bracket: Some(
                        Interval { lower: self.floor() as u64, upper: self.candidate() as u64 },
                    ),
                    ..self
                },
                Observation::Unavailable => ExponentialSearch {
                    attempts: (self.attempts + 1) as u32,
                    ..self
                },
            }
        }
    }

    /// The state after a whole series of runs.
    pub open spec fn replay(self, series: Seq<Observation>) -> Self
        decreases series.len(),
    {
        if series.len() == 0 {
            self
        } else {
            self.replay(series.drop_last()).observe(series.last())
        }
    }

    /// Under `wf` the next rate is the initial rate, or twice the last rate
    /// without loss.
    pub proof fn lemma_candidate(self)
        requires
            self.wf(),
        ensures
            self.doublings == 0 ==> self.candidate() == self.initial,
            self.doublings > 0 ==> self.candidate() == 2 * self.current,
            self.floor() <= self.candidate(),
            self.doublings > 0 ==> self.floor() == self.current,
    {
        lemma2_to64();
        if self.doublings > 0 {
            let k = self.doublings as nat;
            lemma_pow2_unfold(k);
            assert(self.initial as nat * (2 * pow2((k - 1) as nat)) == 2 * (self.initial as nat
                * pow2((k - 1) as nat))) by (nonlinear_arith);
        }
    }

    /// Every step keeps the state well formed.
    pub proof fn lemma_observe_wf(self, obs: Observation)
        requires
            self.wf(),
        ensures
            self.observe(obs).wf(),
            self.observe(obs).initial == self.initial,
    {
        self.lemma_candidate();
    }

    /// After a run without loss the next rate offered is exactly twice the
    /// rate of that run; after a run that could not be read it is the same
    /// rate again.
    pub proof fn lemma_next_rate_doubles(self)
        requires
            self.wf(),
            self.probing(),
        ensures
            self.observe(Observation::Lossless).candidate() == 2 * self.candidate(),
            self.observe(Observation::Lossless).current == self.candidate(),
            self.observe(Observation::Unavailable).candidate() == self.candidate(),
    {
        self.lemma_candidate();
        self.lemma_observe_wf(Observation::Lossless);
        self.observe(Observation::Lossless).lemma_candidate();
    }

    /// A lossy run ends the phase with the bracket from the previous doubling
    /// (zero when there was none) to the rate of that run.
    pub proof fn lemma_lossy_bracket(self)
        requires
            self.wf(),
            self.probing(),
        ensures
            !self.observe(Observation::Lossy).probing(),
            self.observe(Observation::Lossy).outcome().upper == self.candidate(),
            self.observe(Observation::Lossy).outcome().lower == self.floor(),
    {
        self.lemma_candidate();
    }

    /// A series of runs leaves a well-formed state having made at most as
    /// many runs as the series is long.
    pub proof fn lemma_replay_wf(self, series: Seq<Observation>)
        requires
            self.wf(),
        ensures
            self.replay(series).wf(),
            self.replay(series).initial == self.initial,
            self.replay(series).attempts <= self.attempts + series.len(),
        decreases series.len(),
    {
        if series.len() > 0 {
            self.lemma_replay_wf(series.drop_last());
            self.replay(series.drop_last()).lemma_observe_wf(series.last());
        }
    }

    /// Along any series of runs, wherever a run without loss is followed by
    /// another run, the later run offers exactly twice the rate of the
    /// earlier one.
    pub proof fn lemma_consecutive_rates_double(self, series: Seq<Observation>, i: int)
        requires
            self.wf(),
            0 <= i < series.len(),
            series[i] == Observation::Lossless,
            self.replay(series.take(i)).probing(),
            self.replay(series.take(i + 1)).probing(),
        ensures
            self.replay(series.take(i + 1)).candidate() == 2 * self.replay(
                series.take(i),
            ).candidate(),
    {
        let before = self.replay(series.take(i));
        self.lemma_replay_wf(series.take(i));
        assert(series.take(i + 1).drop_last() =~= series.take(i));
        assert(series.take(i + 1).last() == series[i]);
        before.lemma_next_rate_doubles();
    }

    /// While runs are wanted, every observation counts as one run.
    pub proof fn lemma_replay_counts(self, series: Seq<Observation>)
        requires
            self.wf(),
        ensures
            self.replay(series).probing() ==> self.replay(series).attempts == self.attempts
                + series.len(),
        decreases series.len(),
    {
        if series.len() > 0 {
            self.lemma_replay_counts(series.drop_last());
            self.lemma_replay_wf(series.drop_last());
        }
    }

    /// The phase makes at most ten runs: after ten observations it wants no
    /// more.
    pub proof fn lemma_at_most_ten_runs(initial: u64, series: Seq<Observation>)
        requires
            series.len() >= MAX_PROBES,
        ensures
            !Self::initial_state(initial).replay(series).probing(),
    {
        Self::initial_state(initial).lemma_replay_counts(series);
    }

    /// Starts the phase at `initial`.
    pub fn new(initial: u64) -> (s: Self)
        ensures
            s == Self::initial_state(initial),
            s.wf(),
    {
        ExponentialSearch { initial, current: initial, doublings: 0, attempts: 0, bracket: None }
    }

    /// The rate to run next, or nothing when the phase is over.
    pub fn rate(&self) -> (r: Option<u64>)
        requires
            self.wf(),
        ensures
            r == (if self.probing() {
                Some(self.candidate() as u64)
            } else {
                None
            }),
            self.probing() ==> self.candidate() <= RATE_CEILING,
    {
        proof {
            self.lemma_candidate();
        }
        if self.bracket.is_some() || self.attempts >= MAX_PROBES {
            return None;
        }
        let candidate: u64 = if self.doublings == 0 {
            self.initial
        } else {
            2 * self.current
        };
        if candidate > RATE_CEILING {
            None
        } else {
            Some(candidate)
        }
    }

    /// Takes what the run at `rate()` showed.
    pub fn record(&mut self, obs: Observation)
        requires
            old(self).wf(),
        ensures
            *final(self) == old(self).observe(obs),
            final(self).wf(),
    {
        proof {
            self.lemma_candidate();
            self.lemma_observe_wf(obs);
        }
        match self.rate() {
            None => {},
            Some(candidate) => {
                let attempts: u32 = self.attempts + 1;
                match obs {
                    Observation::Lossless => {
                        *self = ExponentialSearch {
                            initial: self.initial,
                            current: candidate,
                            doublings: self.doublings + 1,
                            attempts,
                            bracket: None,
                        };
                    },
                    Observation::Lossy => {
                        let lower: u64 = if self.doublings == 0 {
                            0
                        } else {
                            self.current
                        };
                        *self = ExponentialSearch {
                            initial: self.initial,
                            current: self.current,
                            doublings: self.doublings,
                            attempts,
                            bracket: Some(Interval { lower, upper: candidate }),
                        };
                    },
                    Observation::Unavailable => {
                        *self = ExponentialSearch {
                            initial: self.initial,
                            current: self.current,
                            doublings: self.doublings,
                            attempts,
                            bracket: self.bracket,
                        };
                    },
                }
            },
        }
    }

    /// The bracket found, once the phase is over.
    pub fn interval(&self) -> (r: Option<Interval>)
        requires
            self.wf(),
        ensures
            r == (if self.probing() {
                None
            } else {
                Some(self.outcome())
            }),
            r matches Some(b) ==> b.lower <= b.upper,
    {
        match self.rate() {
            Some(_) => None,
            None => match self.bracket {
                Some(b) => Some(b),
                None => Some(Interval { lower: self.current / 2, upper: self.current }),
            },
        }
    }
}

/// Distance between two rates.
pub open spec fn gap(a: u64, b: u64) -> nat {
    if a <= b {
        (b - a) as nat
    } else {
        (a - b) as nat
    }
}

/// State of the bisection phase.
#[derive(Clone, Copy, Debug, PartialEq, Eq)]
pub struct BinarySearch {
    pub lower: u64,
    pub upper: u64,
    /// The greatest rate that a run carried without loss; zero before any.
    pub best: u64,
    /// Number of runs so far.
    pub probes: u32,
    /// Set once the bracket is narrower than the resolution.
    pub converged: bool,
}

impl BinarySearch {
    /// The state before any run.
    pub open spec fn initial_state(lower: u64, upper: u64) -> Self {
        BinarySearch { lower, upper, best: 0, probes: 0, converged: false }
    }

    /// Whether the count of runs is within its limit, as in every state
    /// that the phase reaches.
    pub open spec fn wf(self) -> bool {
        self.probes <= MAX_PROBES
    }

    /// The rate of the next run: the middle of the bracket, rounded down to
    /// a whole bit per second.
    pub open spec fn midpoint(self) -> nat {
        ((self.lower + self.upper) / 2) as nat
    }

    /// Whether another run is wanted.
    pub open spec fn probing(self) -> bool {
        self.probes < MAX_PROBES && !self.converged
    }

    /// Width of the bracket.
    pub open spec fn width(self) -> nat {
        gap(self.lower, self.upper)
    }

    /// The state after the run at `midpoint` showed `obs`. A state that wants
    /// no run ignores it.
    pub open spec fn observe(self, obs: Observation) -> Self {
        if !self.probing() {
            self
        } else {
            let mid = self.midpoint() as u64;
            let lower = if obs == Observation::Lossless {
                mid
            } else {
                self.lower
            };
            let upper = if obs == Observation::Lossy {
                mid
            } else {
                self.upper
            };
            BinarySearch {
                lower,
                upper,
                best: if obs == Observation::Lossless {
                    mid
                } else {
                    self.best
                },
                probes: (self.probes + 1) as u32,
                converged: gap(lower, upper) < RESOLUTION,
            }
        }
    }

    /// The state after a whole series of runs.
    pub open spec fn replay(self, series: Seq<Observation>) -> Self
        decreases series.len(),
    {
        if series.len() == 0 {
            self
        } else {
            self.replay(series.drop_last()).observe(series.last())
        }
    }

    /// The bracket never widens, and every run that could be read halves it:
    /// it leaves one half of the bracket, and the two halves differ by at
    /// most one bit per second, where the width is odd. On an ordered bracket
    /// a run without loss leaves the upper half and a lossy run the lower. A
    /// run that could not be read leaves the bracket as it was.
    pub proof fn lemma_bracket_halves(self, obs: Observation)
        requires
            self.probing(),
        ensures
            self.observe(obs).width() <= self.width(),
            obs != Observation::Unavailable ==> self.observe(obs).width() == self.width() / 2
                || self.observe(obs).width() == self.width() - self.width() / 2,
            obs == Observation::Unavailable ==> self.observe(obs).width() == self.width(),
            self.lower <= self.upper ==> {
                &&& self.observe(obs).lower <= self.observe(obs).upper
                &&& obs == Observation::Lossless ==> self.observe(obs).width() == self.width()
                    - self.width() / 2
                &&& obs == Observation::Lossy ==> self.observe(obs).width() == self.width() / 2
            },
    {
    }

    /// Over any series of runs the bracket never widens, and an ordered
    /// bracket stays ordered and within its first bounds.
    pub proof fn lemma_replay_narrows(self, series: Seq<Observation>)
        ensures
            self.replay(series).width() <= self.width(),
            self.lower <= self.upper ==> {
                &&& self.replay(series).lower <= self.replay(series).upper
                &&& self.lower <= self.replay(series).lower
                &&& self.replay(series).upper <= self.upper
            },
        decreases series.len(),
    {
        if series.len() > 0 {
            self.lemma_replay_narrows(series.drop_last());
            let prev = self.replay(series.drop_last());
            if prev.probing() {
                prev.lemma_bracket_halves(series.last());
            }
        }
    }

    /// The answer is a rate that was measured: after any series of runs,
    /// `best` is zero, or the midpoint that some earlier run of the series
    /// tried and carried without loss.
    pub proof fn lemma_best_was_measured(self, series: Seq<Observation>)
        requires
            self.best == 0,
        ensures
            self.replay(series).best == 0 || exists|i: int|
                0 <= i < series.len() && series[i] == Observation::Lossless && (
                #[trigger] self.replay(series.take(i))).probing() && self.replay(
                    series.take(i),
                ).midpoint() == self.replay(series).best,
        decreases series.len(),
    {
        if series.len() > 0 {
            let front = series.drop_last();
            let prev = self.replay(front);
            let last = series.len() - 1;
            self.lemma_best_was_measured(front);
            assert(series.take(last) =~= front);
            if prev.probing() && series.last() == Observation::Lossless {
                assert(self.replay(series.take(last)).probing());
            } else if prev.best != 0 {
                let i = choose|i: int|
                    0 <= i < front.len() && front[i] == Observation::Lossless && (
                    #[trigger] self.replay(front.take(i))).probing() && self.replay(
                        front.take(i),
                    ).midpoint() == prev.best;
                assert(front.take(i) =~= series.take(i));
                assert(self.replay(series.take(i)).probing());
            }
        }
    }

    /// Between any two adjacent runs of a series the bracket does not widen,
    /// and it is halved by every run that could be read; on an ordered
    /// bracket a run without loss leaves the upper half of it.
    pub proof fn lemma_adjacent_brackets(self, series: Seq<Observation>, i: int)
        requires
            0 <= i < series.len(),
            self.replay(series.take(i)).probing(),
        ensures
            self.replay(series.take(i + 1)).width() <= self.replay(series.take(i)).width(),
            series[i] != Observation::Unavailable ==> self.replay(series.take(i + 1)).width()
                == self.replay(series.take(i)).width() / 2 || self.replay(
                series.take(i + 1),
            ).width() == self.replay(series.take(i)).width() - self.replay(
                series.take(i),
            ).width() / 2,
            self.lower <= self.upper && series[i] == Observation::Lossless ==> self.replay(
                series.take(i + 1),
            ).width() == self.replay(series.take(i)).width() - self.replay(
                series.take(i),
            ).width() / 2,
            self.lower <= self.upper && series[i] == Observation::Lossy ==> self.replay(
                series.take(i + 1),
            ).width() == self.replay(series.take(i)).width() / 2,
    {
        let before = self.replay(series.take(i));
        self.lemma_replay_narrows(series.take(i));
        assert(series.take(i + 1).drop_last() =~= series.take(i));
        assert(series.take(i + 1).last() == series[i]);
        before.lemma_bracket_halves(series[i]);
    }

    /// While runs are wanted, every observation counts as one run.
    pub proof fn lemma_replay_counts(self, series: Seq<Observation>)
        ensures
            self.replay(series).probing() ==> self.replay(series).probes == self.probes
                + series.len(),
        decreases series.len(),
    {
        if series.len() > 0 {
            self.lemma_replay_counts(series.drop_last());
        }
    }

    /// The phase makes at most ten runs: after ten observations it wants no
    /// more.
    pub proof fn lemma_at_most_ten_runs(lower: u64, upper: u64, series: Seq<Observation>)
        requires
            series.len() >= MAX_PROBES,
        ensures
            !Self::initial_state(lower, upper).replay(series).probing(),
    {
        Self::initial_state(lower, upper).lemma_replay_counts(series);
    }

    /// Once the bracket is narrower than the resolution, the phase is over.
    pub proof fn lemma_converges(self, obs: Observation)
        requires
            self.probing(),
            self.observe(obs).width() < RESOLUTION,
        ensures
            !self.observe(obs).probing(),
    {
    }

    /// Starts the phase on the bracket `[lower, upper]`.
    pub fn new(lower: u64, upper: u64) -> (s: Self)
        ensures
            s == Self::initial_state(lower, upper),
            s.wf(),
    {
        BinarySearch { lower, upper, best: 0, probes: 0, converged: false }
    }

    /// The rate to run next, or nothing when the phase is over.
    pub fn rate(&self) -> (r: Option<u64>)
        ensures
            r == (if self.probing() {
                Some(self.midpoint() as u64)
            } else {
                None
            }),
    {
        if self.probes >= MAX_PROBES || self.converged {
            None
        } else {
            let sum: u128 = self.lower as u128 + self.upper as u128;
            Some((sum / 2) as u64)
        }
    }

    /// Takes what the run at `rate()` showed.
    pub fn record(&mut self, obs: Observation)
        ensures
            *final(self) == old(self).observe(obs),
            old(self).wf() ==> final(self).wf(),
    {
        match self.rate() {
            None => {},
            Some(mid) => {
                let mut lower: u64 = self.lower;
                let mut upper: u64 = self.upper;
                let mut best: u64 = self.best;
                match obs {
                    Observation::Lossless => {
                        lower = mid;
                        best = mid;
                    },
                    Observation::Lossy => {
                        upper = mid;
                    },
                    Observation::Unavailable => {},
                }
                let width: u64 = if lower <= upper {
                    upper - lower
                } else {
                    lower - upper
                };
                *self = BinarySearch {
                    lower,
                    upper,
                    best,
                    probes: self.probes + 1,
                    converged: width < RESOLUTION,
                };
            },
        }
    }

    /// The greatest rate measured without loss, once the phase is over.
    pub fn result(&self) -> (r: Option<u64>)
        ensures
            r == (if self.probing() {
                None
            } else {
                Some(self.best)
            }),
    {
        if self.probes >= MAX_PROBES || self.converged {
            Some(self.best)
        } else {
            None
        }
    }
}

/// Runs the doubling phase from `initial_tx_rate` over a recorded series of
/// observations, one for each run in turn; observations past the end of the
/// phase are ignored.
pub fn exponential_search_for_max_rate(initial_tx_rate: u64, series: &Vec<Observation>) -> (end:
    ExponentialSearch)
    ensures
        end == ExponentialSearch::initial_state(initial_tx_rate).replay(series@),
        end.wf(),
{
    let mut search = ExponentialSearch::new(initial_tx_rate);
    let mut i: usize = 0;
    while i < series.len()
        invariant
            0 <= i <= series.len(),
            search.wf(),
            search == ExponentialSearch::initial_state(initial_tx_rate).replay(
                series@.take(i as int),
            ),
        decreases series.len() - i,
    {
        proof {
            assert(series@.take(i + 1).drop_last() =~= series@.take(i as int));
        }
        search.record(series[i]);
        i = i + 1;
    }
    proof {
        assert(series@.take(i as int) =~= series@);
    }
    search
}

/// Runs the bisection of `[lower_bound, upper_bound]` over a recorded series
/// of observations, one for each run in turn; observations past the end of
/// the phase are ignored.
pub fn binary_search_for_rate(lower_bound: u64, upper_bound: u64, series: &Vec<Observation>) -> (end:
    BinarySearch)
    ensures
        end == BinarySearch::initial_state(lower_bound, upper_bound).replay(series@),
        end.wf(),
{
    let mut search = BinarySearch::new(lower_bound, upper_bound);
    let mut i: usize = 0;
    while i < series.len()
        invariant
            0 <= i <= series.len(),
            search.wf(),
            search == BinarySearch::initial_state(lower_bound, upper_bound).replay(
                series@.take(i as int),
            ),
        decreases series.len() - i,
    {
        proof {
            assert(series@.take(i + 1).drop_last() =~= series@.take(i as int));
        }
        search.record(series[i]);
        i = i + 1;
    }
    proof {
        assert(series@.take(i as int) =~= series@);
    }
    search
}

} // verus!
