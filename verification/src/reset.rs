//! The reset monitor: while traffic runs at a constant rate, the loss counter
//! is sampled at fixed intervals to find the moment loss surges (the device
//! under test went down) and the moment it subsides again (it came back).
//!
//! Times are nanoseconds since the monitor started, read from a clock that
//! the caller supplies with each event. A reading below an earlier one is
//! taken as that earlier one, so the monitor's own clock never runs backwards.

use vstd::prelude::*;

verus! {

/// Loss per interval above which the device counts as down, in packets.
pub const RESET_THRESHOLD: u64 = 7000;

/// Length of the reset run, in nanoseconds (120 s).
pub const RESET_DURATION: u64 = 120_000_000_000;

/// Time between two samples, in nanoseconds (1 s).
pub const RESET_INTERVAL: u64 = 1_000_000_000;

/// What the monitor found: when loss surged and when it subsided.
#[derive(Clone, Copy, Debug, PartialEq, Eq)]
pub struct MonitorReport {
    pub onset: Option<u64>,
    pub recovery: Option<u64>,
}

impl MonitorReport {
    /// Time from onset to recovery; zero when either was not seen, or when
    /// the recovery does not follow the onset.
    pub open spec fn downtime(self) -> nat {
        match (self.onset, self.recovery) {
            (Some(a), Some(b)) => if a <= b {
                (b - a) as nat
            } else {
                0
            },
            _ => 0,
        }
    }

    /// Recovery time in nanoseconds, zero meaning that none was observed.
    pub fn recovery_time(&self) -> (t: u64)
        ensures
            t == self.downtime(),
    {
        match (self.onset, self.recovery) {
            (Some(a), Some(b)) => if a <= b {
                b - a
            } else {
                0
            },
            _ => 0,
        }
    }
}

/// What happens to the monitor.
#[derive(Clone, Copy, Debug, PartialEq, Eq)]
pub enum MonitorEvent {
    /// The clock was read before waiting for the next sample.
    Tick { elapsed: u64 },
    /// The interval passed and the counters were fetched; `total` is the sum
    /// of the loss counters, or nothing when they could not be read.
    Sample { elapsed: u64, total: Option<u64> },
    /// The abort signal fired during the wait.
    Abort,
}

/// What the monitor wants next.
#[derive(Clone, Copy, Debug, PartialEq, Eq)]
pub enum MonitorAction {
    /// Read the clock and report a `Tick`.
    ReadClock,
    /// Wait this long, or until the abort signal, then fetch the counters.
    Wait { interval: u64 },
    /// The monitor is done.
    Done(MonitorReport),
}

/// The later of two clock readings.
pub open spec fn later(a: u64, b: u64) -> u64 {
    if a <= b {
        b
    } else {
        a
    }
}

/// Loss since the previous sample; a counter that fell back counts as none.
pub open spec fn increase(previous: u64, total: u64) -> u64 {
    if total >= previous {
        (total - previous) as u64
    } else {
        0
    }
}

/// State of the reset monitor.
#[derive(Clone, Copy, Debug, PartialEq, Eq)]
pub struct ResetMonitor {
    /// Loss per interval above which the device counts as down.
    pub threshold: u64,
    /// The monitor gives up once this much time has passed.
    pub duration: u64,
    /// Time between two samples.
    pub interval: u64,
    /// The loss counter at the previous sample.
    pub previous: u64,
    /// When loss first exceeded the threshold.
    pub onset: Option<u64>,
    /// The latest clock reading.
    pub clock: u64,
    /// Whether the clock was read and the deadline found not to have passed.
    pub waiting: bool,
    /// Set once the monitor is done.
    pub report: Option<MonitorReport>,
}

impl ResetMonitor {
    /// The state before any event.
    pub open spec fn initial_state(threshold: u64, duration: u64, interval: u64) -> Self {
        ResetMonitor {
            threshold,
            duration,
            interval,
            previous: 0,
            onset: None,
            clock: 0,
            waiting: false,
            report: None,
        }
    }

    /// Whether what is marked lies on the clock and a recovery does not
    /// precede its onset, as in every state that a monitor reaches.
    pub open spec fn wf(self) -> bool {
        &&& self.onset matches Some(a) ==> a <= self.clock
        &&& self.report matches Some(r) ==> {
            &&& r.onset matches Some(a) ==> a <= self.clock
            &&& r.recovery matches Some(b) ==> b <= self.clock && r.onset is Some
                && r.onset->0 <= b
        }
    }

    /// What the monitor wants next.
    pub open spec fn pending(self) -> MonitorAction {
        match self.report {
            Some(r) => MonitorAction::Done(r),
            None => if self.waiting {
                MonitorAction::Wait { interval: self.interval }
            } else {
                MonitorAction::ReadClock
            },
        }
    }

    /// The state after a clock reading at the top of the loop: past the
    /// deadline the monitor ends with the onset it has and no recovery.
    pub open spec fn tick(self, elapsed: u64) -> Self {
        let now = later(self.clock, elapsed);
        if now < self.duration {
            ResetMonitor { clock: now, waiting: true, ..self }
        } else {
            ResetMonitor {
                clock: now,
                waiting: false,
                report: Some(MonitorReport { onset: self.onset, recovery: None }),
                ..self
            }
        }
    }

    /// The state after a sample. A surge above the threshold marks the onset
    /// if none is marked; a sample at or below the threshold after the onset
    /// marks the recovery and ends the monitor. A sample that could not be
    /// read changes nothing but the clock.
    pub open spec fn sample(self, elapsed: u64, total: Option<u64>) -> Self {
        let now = later(self.clock, elapsed);
        match total {
            None => ResetMonitor { clock: now, waiting: false, ..self },
            Some(t) => {
                let delta = increase(self.previous, t);
                if delta > self.threshold {
                    ResetMonitor {
                        clock: now,
                        waiting: false,
                        previous: t,
                        onset: match self.onset {
                            Some(a) => Some(a),
                            None => Some(now),
                        },
                        ..self
                    }
                } else {
                    ResetMonitor {
                        clock: now,
                        waiting: false,
                        previous: t,
                        report: match self.onset {
                            Some(a) => Some(
                                MonitorReport { onset: Some(a), recovery: Some(now) },
                            ),
                            None => None,
                        },
                        ..self
                    }
                }
            },
        }
    }

    /// The state after an event. Once done, the monitor ignores every event;
    /// a tick is taken only when the clock is to be read, a sample or an
    /// abort only during a wait.
    pub open spec fn observe(self, event: MonitorEvent) -> Self {
        if self.report is Some {
            self
        } else {
            match event {
                MonitorEvent::Tick { elapsed } => if self.waiting {
                    self
                } else {
                    self.tick(elapsed)
                },
                MonitorEvent::Sample { elapsed, total } => if self.waiting {
                    self.sample(elapsed, total)
                } else {
                    self
                },
                MonitorEvent::Abort => if self.waiting {
                    ResetMonitor {
                        waiting: false,
                        report: Some(MonitorReport { onset: None, recovery: None }),
                        ..self
                    }
                } else {
                    self
                },
            }
        }
    }

    /// The state after a whole series of events.
    pub open spec fn replay(self, events: Seq<MonitorEvent>) -> Self
        decreases events.len(),
    {
        if events.len() == 0 {
            self
        } else {
            self.replay(events.drop_last()).observe(events.last())
        }
    }

    /// Whether an event comes when the clock allows it: a sample is read
    /// later than every reading before it and not after the deadline.
    pub open spec fn timely(self, event: MonitorEvent) -> bool {
        match event {
            MonitorEvent::Sample { elapsed, total } => self.clock < elapsed <= self.duration,
            MonitorEvent::Tick { elapsed } => true,
            MonitorEvent::Abort => true,
        }
    }

    /// Whether every event of a series is timely in the state it meets.
    pub open spec fn all_timely(self, events: Seq<MonitorEvent>) -> bool
        decreases events.len(),
    {
        events.len() > 0 ==> {
            &&& self.all_timely(events.drop_last())
            &&& self.replay(events.drop_last()).timely(events.last())
        }
    }

    /// State predicate behind `lemma_recovery_follows_onset`: what is
    /// marked lies within the deadline, and a recovery lies after its onset.
    pub open spec fn ordered(self) -> bool {
        &&& self.onset matches Some(a) ==> a <= self.duration
        &&& self.report matches Some(r) ==> {
            &&& r.onset matches Some(a) ==> a <= self.duration
            &&& r.recovery matches Some(b) ==> b <= self.duration && r.onset is Some
                && r.onset->0 < b
        }
    }

    /// Every event keeps the state well formed and leaves the settings as
    /// they are; the clock never runs backwards.
    pub proof fn lemma_observe_wf(self, event: MonitorEvent)
        requires
            self.wf(),
        ensures
            self.observe(event).wf(),
            self.observe(event).threshold == self.threshold,
            self.observe(event).duration == self.duration,
            self.observe(event).interval == self.interval,
            self.observe(event).clock >= self.clock,
    {
    }

    /// A timely event keeps the marks ordered and within the deadline.
    pub proof fn lemma_observe_ordered(self, event: MonitorEvent)
        requires
            self.wf(),
            self.ordered(),
            self.timely(event),
        ensures
            self.observe(event).ordered(),
    {
    }

    /// When the samples are taken at strictly increasing times within the
    /// deadline and the monitor reports both an onset and a recovery, the
    /// recovery is later than the onset and both lie within the deadline.
    pub proof fn lemma_recovery_follows_onset(self, events: Seq<MonitorEvent>)
        requires
            self == Self::initial_state(self.threshold, self.duration, self.interval),
            self.all_timely(events),
        ensures
            self.replay(events).wf(),
            self.replay(events).ordered(),
            self.replay(events).duration == self.duration,
            self.replay(events).report matches Some(r) ==> (r.onset matches Some(a) ==> a
                <= self.duration) && (r.recovery matches Some(b) ==> r.onset is Some
                && r.onset->0 < b && b <= self.duration),
        decreases events.len(),
    {
        if events.len() > 0 {
            self.lemma_recovery_follows_onset(events.drop_last());
            let prev = self.replay(events.drop_last());
            prev.lemma_observe_wf(events.last());
            prev.lemma_observe_ordered(events.last());
        }
    }

    /// Whatever the timing, a reported recovery is never earlier than its
    /// onset.
    pub proof fn lemma_replay_wf(self, events: Seq<MonitorEvent>)
        requires
            self.wf(),
        ensures
            self.replay(events).wf(),
        decreases events.len(),
    {
        if events.len() > 0 {
            self.lemma_replay_wf(events.drop_last());
            self.replay(events.drop_last()).lemma_observe_wf(events.last());
        }
    }

    /// With a threshold of zero, any growth of the loss counter marks the
    /// onset.
    pub proof fn lemma_zero_threshold(self, elapsed: u64, total: u64)
        requires
            self.threshold == 0,
            self.report is None,
            self.waiting,
            self.onset is None,
            total > self.previous,
        ensures
            self.observe(MonitorEvent::Sample { elapsed, total: Some(total) }).onset == Some(
                later(self.clock, elapsed),
            ),
            self.observe(MonitorEvent::Sample { elapsed, total: Some(total) }).report is None,
    {
    }

    /// Starts a monitor with the given threshold (packets per interval),
    /// deadline and sampling interval (nanoseconds).
    pub fn new(threshold: u64, duration: u64, interval: u64) -> (m: Self)
        ensures
            m == Self::initial_state(threshold, duration, interval),
            m.wf(),
    {
        ResetMonitor {
            threshold,
            duration,
            interval,
            previous: 0,
            onset: None,
            clock: 0,
            waiting: false,
            report: None,
        }
    }

    /// What to do next.
    pub fn next(&self) -> (action: MonitorAction)
        ensures
            action == self.pending(),
    {
        match self.report {
            Some(r) => MonitorAction::Done(r),
            None => if self.waiting {
                MonitorAction::Wait { interval: self.interval }
            } else {
                MonitorAction::ReadClock
            },
        }
    }

    /// Takes an event and says what to do next.
    pub fn step(&mut self, event: MonitorEvent) -> (action: MonitorAction)
        ensures
            *final(self) == old(self).observe(event),
            old(self).wf() ==> final(self).wf(),
            action == final(self).pending(),
    {
        proof {
            if self.wf() {
                self.lemma_observe_wf(event);
            }
        }
        if self.report.is_none() {
            match event {
                MonitorEvent::Tick { elapsed } => {
                    if !self.waiting {
                        let now: u64 = if self.clock <= elapsed {
                            elapsed
                        } else {
                            self.clock
                        };
                        if now < self.duration {
                            *self = ResetMonitor { clock: now, waiting: true, ..*self };
                        } else {
                            *self = ResetMonitor {
                                clock: now,
                                waiting: false,
                                report: Some(
                                    MonitorReport { onset: self.onset, recovery: None },
                                ),
                                ..*self
                            };
                        }
                    }
                },
                MonitorEvent::Sample { elapsed, total } => {
                    if self.waiting {
                        let now: u64 = if self.clock <= elapsed {
                            elapsed
                        } else {
                            self.clock
                        };
                        match total {
                            None => {
                                *self = ResetMonitor { clock: now, waiting: false, ..*self };
                            },
                            Some(t) => {
                                let delta: u64 = if t >= self.previous {
                                    t - self.previous
                                } else {
                                    0
                                };
                                if delta > self.threshold {
                                    let onset: Option<u64> = match self.onset {
                                        Some(a) => Some(a),
                                        None => Some(now),
                                    };
                                    *self = ResetMonitor {
                                        clock: now,
                                        waiting: false,
                                        previous: t,
                                        onset,
                                        ..*self
                                    };
                                } else {
                                    let report: Option<MonitorReport> = match self.onset {
                                        Some(a) => Some(
                                            MonitorReport { onset: Some(a), recovery: Some(now) },
                                        ),
                                        None => None,
                                    };
                                    *self = ResetMonitor {
                                        clock: now,
                                        waiting: false,
                                        previous: t,
                                        report,
                                        ..*self
                                    };
                                }
                            },
                        }
                    }
                },
                MonitorEvent::Abort => {
                    if self.waiting {
                        *self = ResetMonitor {
                            waiting: false,
                            report: Some(MonitorReport { onset: None, recovery: None }),
                            ..*self
                        };
                    }
                },
            }
        }
        self.next()
    }
}

/// Runs a monitor over a recorded series of events, one after the other;
/// events past the end of the monitoring are ignored.
pub fn monitor_packet_loss(
    threshold: u64,
    duration: u64,
    interval: u64,
    events: &Vec<MonitorEvent>,
) -> (end: ResetMonitor)
    ensures
        end == ResetMonitor::initial_state(threshold, duration, interval).replay(events@),
        end.wf(),
{
    let mut monitor = ResetMonitor::new(threshold, duration, interval);
    let mut i: usize = 0;
    while i < events.len()
        invariant
            0 <= i <= events.len(),
            monitor.wf(),
            monitor == ResetMonitor::initial_state(threshold, duration, interval).replay(
                events@.take(i as int),
            ),
        decreases events.len() - i,
    {
        proof {
            assert(events@.take(i + 1).drop_last() =~= events@.take(i as int));
        }
        monitor.step(events[i]);
        i = i + 1;
    }
    proof {
        assert(events@.take(i as int) =~= events@);
    }
    monitor
}

} // verus!
