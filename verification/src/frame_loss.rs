//! The frame-loss sweep: for one frame size, the line rate is offered in
//! steps of ten percent, from all of it down, and the loss of each step is
//! recorded. Two steps in a row without loss end the sweep early.

use vstd::prelude::*;
use crate::stats::FULL_LOSS;

verus! {

/// A sweep has at most this many steps.
pub const SWEEP_STEPS: u32 = 10;

/// This many steps in a row without loss end the sweep.
pub const CLEAN_STEPS: u32 = 2;

/// Share of the line rate offered at a step, in percent: 100, 90, .., 10.
pub open spec fn share(step: nat) -> nat
    recommends
        step < SWEEP_STEPS,
{
    (100 - 10 * step) as nat
}

/// The rate offered at a step: that share of the line rate, in whole bits
/// per second.
pub open spec fn offered(line_rate: u64, step: nat) -> nat
    recommends
        step < SWEEP_STEPS,
{
    line_rate as nat * share(step) / 100
}

/// A loss figure capped at one hundred percent.
pub open spec fn capped(loss: u128) -> u32 {
    if loss > FULL_LOSS {
        FULL_LOSS
    } else {
        loss as u32
    }
}

/// One recorded step: the share offered and the loss seen, in thousandths
/// of a percent.
#[derive(Clone, Copy, Debug, PartialEq, Eq)]
pub struct LossEntry {
    pub share: u32,
    pub loss: u32,
}

/// State of the sweep for one frame size.
#[derive(Clone, Copy, Debug, PartialEq, Eq)]
pub struct FrameLossSweep {
    /// Line rate in bits per second.
    pub line_rate: u64,
    /// Number of steps run.
    pub step: u32,
    /// Number of steps without loss that end the series so far.
    pub clean: u32,
}

impl FrameLossSweep {
    /// The state before any run.
    pub open spec fn initial_state(line_rate: u64) -> Self {
        FrameLossSweep { line_rate, step: 0, clean: 0 }
    }

    /// Whether the counts are within their limits, as in every state that a
    /// sweep reaches.
    pub open spec fn wf(self) -> bool {
        self.step <= SWEEP_STEPS && self.clean <= CLEAN_STEPS
    }

    /// Whether another run is wanted.
    pub open spec fn probing(self) -> bool {
        self.step < SWEEP_STEPS && self.clean < CLEAN_STEPS
    }

    /// The rate of the next run.
    pub open spec fn candidate(self) -> nat {
        offered(self.line_rate, self.step as nat)
    }

    /// What a run at the present step records: the share offered and the
    /// capped loss; nothing when the counters could not be read.
    pub open spec fn entry(self, loss: Option<u128>) -> Option<LossEntry> {
        match loss {
            Some(l) => if self.probing() {
                Some(LossEntry { share: share(self.step as nat) as u32, loss: capped(l) })
            } else {
                None
            },
            None => None,
        }
    }

    /// The state after the run at `candidate` showed `loss`. A run that
    /// could not be read leaves the count of clean steps as it was.
    pub open spec fn observe(self, loss: Option<u128>) -> Self {
        if !self.probing() {
            self
        } else {
            FrameLossSweep {
                line_rate: self.line_rate,
                step: (self.step + 1) as u32,
                clean: match loss {
                    Some(l) => if l == 0 {
                        (self.clean + 1) as u32
                    } else {
                        0
                    },
                    None => self.clean,
                },
            }
        }
    }

    /// The state after a whole series of runs.
    pub open spec fn replay(self, series: Seq<Option<u128>>) -> Self
        decreases series.len(),
    {
        if series.len() == 0 {
            self
        } else {
            self.replay(series.drop_last()).observe(series.last())
        }
    }

    /// What a whole series of runs records, by share.
    pub open spec fn recorded(self, series: Seq<Option<u128>>) -> Map<u32, u32>
        decreases series.len(),
    {
        if series.len() == 0 {
            Map::empty()
        } else {
            let before = self.recorded(series.drop_last());
            match self.replay(series.drop_last()).entry(series.last()) {
                Some(e) => before.insert(e.share, e.loss),
                None => before,
            }
        }
    }

    /// The rate offered never exceeds the line rate, and the first step
    /// offers all of it.
    pub proof fn lemma_candidate_bound(self)
        requires
            self.step < SWEEP_STEPS,
        ensures
            self.candidate() <= self.line_rate,
            self.step == 0 ==> self.candidate() == self.line_rate,
    {
        let s = share(self.step as nat);
        let r = self.line_rate as nat;
        assert(r * s <= r * 100) by (nonlinear_arith)
            requires
                s <= 100,
        ;
        assert(r * 100 / 100 == r) by (nonlinear_arith);
        assert(r * s / 100 <= r * 100 / 100) by (nonlinear_arith)
            requires
                r * s <= r * 100,
        ;
    }

    /// The second step in a row without loss ends the sweep.
    pub proof fn lemma_two_clean_steps_stop(self, first: u128, second: u128)
        requires
            self.wf(),
            first == 0,
            second == 0,
        ensures
            !self.observe(Some(first)).observe(Some(second)).probing(),
    {
    }

    /// On a link without loss a fresh sweep runs twice, records no loss at
    /// 100 and at 90 percent and nothing else, and stops.
    pub proof fn lemma_lossless_link(line_rate: u64)
        ensures
            ({
                let s = Self::initial_state(line_rate);
                let series = seq![Some(0u128), Some(0u128)];
                &&& s.probing()
                &&& s.replay(series.take(1)).probing()
                &&& !s.replay(series).probing()
                &&& s.recorded(series) =~= map![100u32 => 0u32, 90u32 => 0u32]
            }),
    {
        let s = Self::initial_state(line_rate);
        let series = seq![Some(0u128), Some(0u128)];
        let one = series.take(1);
        assert(one.drop_last() =~= Seq::<Option<u128>>::empty());
        assert(series.drop_last() =~= one);
        assert(s.replay(one.drop_last()) == s);
        assert(s.replay(one) == s.observe(Some(0u128)));
        assert(s.replay(series) == s.observe(Some(0u128)).observe(Some(0u128)));
        assert(s.recorded(one.drop_last()) =~= Map::<u32, u32>::empty());
        assert(s.recorded(one) =~= map![100u32 => 0u32]);
    }

    /// Starts a sweep at the given line rate.
    pub fn new(line_rate: u64) -> (s: Self)
        ensures
            s == Self::initial_state(line_rate),
            s.wf(),
    {
        FrameLossSweep { line_rate, step: 0, clean: 0 }
    }

    /// The rate to run next, or nothing when the sweep is over.
    pub fn rate(&self) -> (r: Option<u64>)
        ensures
            r == (if self.probing() {
                Some(self.candidate() as u64)
            } else {
                None
            }),
            self.probing() ==> self.candidate() <= self.line_rate,
    {
        if self.step >= SWEEP_STEPS || self.clean >= CLEAN_STEPS {
            None
        } else {
            proof {
                self.lemma_candidate_bound();
            }
            let percent: u128 = (100 - 10 * self.step) as u128;
            Some((self.line_rate as u128 * percent / 100) as u64)
        }
    }

    /// Takes the loss that the run at `rate()` showed (thousandths of a
    /// percent, nothing when the counters could not be read) and returns
    /// what is to be recorded.
    pub fn record(&mut self, loss: Option<u128>) -> (e: Option<LossEntry>)
        ensures
            *final(self) == old(self).observe(loss),
            e == old(self).entry(loss),
            old(self).wf() ==> final(self).wf(),
    {
        if self.step >= SWEEP_STEPS || self.clean >= CLEAN_STEPS {
            return None;
        }
        let share: u32 = 100 - 10 * self.step;
        match loss {
            Some(l) => {
                let seen: u32 = if l > FULL_LOSS as u128 {
                    FULL_LOSS
                } else {
                    l as u32
                };
                let clean: u32 = if l == 0 {
                    self.clean + 1
                } else {
                    0
                };
                *self = FrameLossSweep { line_rate: self.line_rate, step: self.step + 1, clean };
                Some(LossEntry { share, loss: seen })
            },
            None => {
                *self = FrameLossSweep {
                    line_rate: self.line_rate,
                    step: self.step + 1,
                    clean: self.clean,
                };
                None
            },
        }
    }
}

} // verus!
