//! Latency of one frame size: the mean over the repetitions of half the
//! round-trip time.
//!
//! Round-trip times come in nanoseconds; latencies are given in picoseconds,
//! so that half a nanosecond is a whole number.

use vstd::prelude::*;

verus! {

/// Runs per frame size.
pub const REPETITIONS: u32 = 10;

/// Picoseconds of one-way latency per nanosecond of round-trip time.
pub const HALF_NANOSECOND: u64 = 500;

/// State of the repetitions for one frame size.
#[derive(Clone, Copy, Debug, PartialEq, Eq)]
pub struct LatencyRun {
    /// Number of runs made.
    pub repetition: u32,
    /// Number of runs that gave a round-trip time.
    pub samples: u32,
    /// Sum of those round-trip times, in nanoseconds.
    pub total: u128,
}

impl LatencyRun {
    /// The state before any run.
    pub open spec fn initial_state() -> Self {
        LatencyRun { repetition: 0, samples: 0, total: 0 }
    }

    /// Whether the counts are within their limits and the sum is one of that
    /// many round-trip times, as in every state that the repetitions reach.
    pub open spec fn wf(self) -> bool {
        &&& self.samples <= self.repetition <= REPETITIONS
        &&& self.total <= self.samples * u64::MAX
    }

    /// Whether another run is wanted.
    pub open spec fn probing(self) -> bool {
        self.repetition < REPETITIONS
    }

    /// The state after a run gave the round-trip time `rtt`. A run without
    /// one counts as a repetition and adds no sample.
    pub open spec fn observe(self, rtt: Option<u64>) -> Self {
        if !self.probing() {
            self
        } else {
            match rtt {
                Some(r) => LatencyRun {
                    repetition: (self.repetition + 1) as u32,
                    samples: (self.samples + 1) as u32,
                    total: (self.total + r) as u128,
                },
                None => LatencyRun { repetition: (self.repetition + 1) as u32, ..self },
            }
        }
    }

    /// Mean one-way latency in picoseconds, rounded down: half the mean
    /// round-trip time. Nothing when no run gave a sample.
    pub open spec fn mean(self) -> Option<u128> {
        if self.samples == 0 {
            None
        } else {
            Some((self.total * HALF_NANOSECOND / (self.samples as int)) as u128)
        }
    }

    /// Every step keeps the state well formed.
    pub proof fn lemma_observe_wf(self, rtt: Option<u64>)
        requires
            self.wf(),
        ensures
            self.observe(rtt).wf(),
    {
        if self.probing() && rtt is Some {
            assert(self.samples * u64::MAX + u64::MAX == (self.samples + 1) * u64::MAX)
                by (nonlinear_arith);
        }
    }

    /// The mean fits its type and is the floor of the exact mean: `samples`
    /// times the mean is at most the sum of the latencies, and less than
    /// one picosecond per sample below it.
    pub proof fn lemma_mean(self)
        requires
            self.wf(),
            self.samples > 0,
        ensures
            self.total * HALF_NANOSECOND / (self.samples as int) <= u128::MAX,
            self.mean()->0 * self.samples <= self.total * HALF_NANOSECOND,
            self.total * HALF_NANOSECOND < (self.mean()->0 + 1) * self.samples,
    {
        let n = (self.total * HALF_NANOSECOND) as int;
        let d = self.samples as int;
        assert(self.samples * u64::MAX <= 10 * u64::MAX) by (nonlinear_arith)
            requires
                self.samples <= 10,
        ;
        assert(n <= 10 * u64::MAX * 500) by (nonlinear_arith)
            requires
                self.total <= 10 * u64::MAX,
                n == self.total * 500,
        ;
        vstd::arithmetic::div_mod::lemma_fundamental_div_mod(n, d);
        vstd::arithmetic::div_mod::lemma_mod_bound(n, d);
        vstd::arithmetic::div_mod::lemma_div_pos_is_pos(n, d);
        let q = n / d;
        assert(q <= n) by (nonlinear_arith)
            requires
                n == d * q + n % d,
                0 <= n % d,
                d >= 1,
                q >= 0,
        ;
        assert(d * q == q * d) by (nonlinear_arith);
        assert((q + 1) * d == q * d + d) by (nonlinear_arith);
    }

    /// Starts the repetitions for a frame size.
    pub fn new() -> (s: Self)
        ensures
            s == Self::initial_state(),
            s.wf(),
    {
        LatencyRun { repetition: 0, samples: 0, total: 0 }
    }

    /// Number of the next run, or nothing when all runs are made.
    pub fn iteration(&self) -> (i: Option<u32>)
        ensures
            i == (if self.probing() {
                Some(self.repetition)
            } else {
                None
            }),
    {
        if self.repetition < REPETITIONS {
            Some(self.repetition)
        } else {
            None
        }
    }

    /// Takes the round-trip time that a run gave, if it gave one.
    pub fn record(&mut self, rtt: Option<u64>)
        requires
            old(self).wf(),
        ensures
            *final(self) == old(self).observe(rtt),
            final(self).wf(),
    {
        proof {
            self.lemma_observe_wf(rtt);
        }
        if self.repetition < REPETITIONS {
            match rtt {
                Some(r) => {
                    proof {
                        assert(self.samples * u64::MAX <= 10 * u64::MAX) by (nonlinear_arith)
                            requires
                                self.samples <= 10,
                        ;
                    }
                    *self = LatencyRun {
                        repetition: self.repetition + 1,
                        samples: self.samples + 1,
                        total: self.total + r as u128,
                    };
                },
                None => {
                    *self = LatencyRun {
                        repetition: self.repetition + 1,
                        samples: self.samples,
                        total: self.total,
                    };
                },
            }
        }
    }

    /// Mean one-way latency over the samples, in picoseconds.
    pub fn mean_latency(&self) -> (m: Option<u128>)
        requires
            self.wf(),
        ensures
            m == self.mean(),
    {
        if self.samples == 0 {
            None
        } else {
            proof {
                self.lemma_mean();
                assert(self.samples * u64::MAX <= 10 * u64::MAX) by (nonlinear_arith)
                    requires
                        self.samples <= 10,
                ;
            }
            Some(self.total * (HALF_NANOSECOND as u128) / (self.samples as u128))
        }
    }
}

/// One-way latency in picoseconds for a round-trip time in nanoseconds.
pub fn half_rtt(rtt: u64) -> (latency: u128)
    ensures
        latency == rtt * HALF_NANOSECOND,
{
    assert(rtt * HALF_NANOSECOND <= u64::MAX * 500) by (nonlinear_arith)
        requires
            rtt <= u64::MAX,
            HALF_NANOSECOND == 500,
    ;
    rtt as u128 * (HALF_NANOSECOND as u128)
}

} // verus!
