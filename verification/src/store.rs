//! The result store: the one record of what the benchmarks found.
//!
//! Frame sizes are bytes, rates bits per second, latencies picoseconds, loss
//! thousandths of a percent and recovery times nanoseconds.

use vstd::prelude::*;
use std::collections::BTreeMap;

verus! {

broadcast use vstd::std_specs::btree::group_btree_axioms;

/// The record as a value: what `TestResult` holds.
pub struct Results {
    /// Greatest rate without loss, by frame size.
    pub throughput: Option<Map<u32, u64>>,
    /// Mean one-way latency, by frame size.
    pub latency: Option<Map<u32, u128>>,
    /// Loss by frame size and by share of the line rate in percent.
    pub frame_loss_rate: Option<Map<u32, Map<u32, u32>>>,
    /// Recovery time by frame size; zero when none was observed.
    pub reset: Option<Map<u32, u64>>,
    /// Whether a benchmark is running.
    pub running: bool,
    /// Label of the sub-test in progress.
    pub current_test: Option<Seq<char>>,
}

/// `m` with `key` set to `value`, starting from the empty map when there is
/// none.
pub open spec fn put<V>(m: Option<Map<u32, V>>, key: u32, value: V) -> Map<u32, V> {
    match m {
        Some(m) => m.insert(key, value),
        None => Map::empty().insert(key, value),
    }
}

/// The value under `key`, if the map is there and holds one.
pub open spec fn get<V>(m: Option<Map<u32, V>>, key: u32) -> Option<V> {
    match m {
        Some(m) => if m.contains_key(key) {
            Some(m[key])
        } else {
            None
        },
        None => None,
    }
}

impl Results {
    /// The record at start-up: nothing measured, nothing running.
    pub open spec fn initial() -> Self {
        Results {
            throughput: None,
            latency: None,
            frame_loss_rate: None,
            reset: None,
            running: false,
            current_test: None,
        }
    }

    /// Records the greatest rate without loss of a frame size.
    pub open spec fn with_throughput(self, frame_size: u32, rate: u64) -> Self {
        Results { throughput: Some(put(self.throughput, frame_size, rate)), ..self }
    }

    /// Records a mean latency; without one, only makes sure the map is
    /// there.
    pub open spec fn with_latency(self, frame_size: u32, mean: Option<u128>) -> Self {
        Results {
            latency: Some(
                match mean {
                    Some(m) => put(self.latency, frame_size, m),
                    None => match self.latency {
                        Some(l) => l,
                        None => Map::empty(),
                    },
                },
            ),
            ..self
        }
    }

    /// Starts the entry of a frame size with no loss figures.
    pub open spec fn with_sweep(self, frame_size: u32) -> Self {
        Results {
            frame_loss_rate: Some(put(self.frame_loss_rate, frame_size, Map::empty())),
            ..self
        }
    }

    /// Records the loss at one share of the line rate.
    pub open spec fn with_loss(self, frame_size: u32, share: u32, loss: u32) -> Self {
        let before: Map<u32, u32> = match get(self.frame_loss_rate, frame_size) {
            Some(entries) => entries,
            None => Map::empty(),
        };
        Results {
            frame_loss_rate: Some(
                put(self.frame_loss_rate, frame_size, before.insert(share, loss)),
            ),
            ..self
        }
    }

    /// Records the recovery time of a frame size.
    pub open spec fn with_reset(self, frame_size: u32, recovery: u64) -> Self {
        Results { reset: Some(put(self.reset, frame_size, recovery)), ..self }
    }
}

/// The record of the benchmarks' results.
#[derive(Clone, Debug, PartialEq, Eq)]
pub struct TestResult {
    pub throughput: Option<BTreeMap<u32, u64>>,
    pub latency: Option<BTreeMap<u32, u128>>,
    pub frame_loss_rate: Option<BTreeMap<u32, BTreeMap<u32, u32>>>,
    pub reset: Option<BTreeMap<u32, u64>>,
    pub running: bool,
    pub current_test: Option<String>,
}

/// A map of maps as a value.
pub open spec fn nested(m: Map<u32, BTreeMap<u32, u32>>) -> Map<u32, Map<u32, u32>> {
    Map::new(|k: u32| m.contains_key(k), |k: u32| m[k]@)
}

impl View for TestResult {
    type V = Results;

    open spec fn view(&self) -> Results {
        Results {
            throughput: match self.throughput {
                Some(m) => Some(m@),
                None => None,
            },
            latency: match self.latency {
                Some(m) => Some(m@),
                None => None,
            },
            frame_loss_rate: match self.frame_loss_rate {
                Some(m) => Some(nested(m@)),
                None => None,
            },
            reset: match self.reset {
                Some(m) => Some(m@),
                None => None,
            },
            running: self.running,
            current_test: match self.current_test {
                Some(s) => Some(s@),
                None => None,
            },
        }
    }
}

impl TestResult {
    /// The record at start-up.
    pub fn new() -> (r: Self)
        ensures
            r@ == Results::initial(),
    {
        TestResult {
            throughput: None,
            latency: None,
            frame_loss_rate: None,
            reset: None,
            running: false,
            current_test: None,
        }
    }

    /// Clears every output and both flags: the record is as at start-up.
    pub fn reset(&mut self)
        ensures
            final(self)@ == Results::initial(),
    {
        self.throughput = None;
        self.latency = None;
        self.frame_loss_rate = None;
        self.reset = None;
        self.running = false;
        self.current_test = None;
    }

    /// Sets the running flag.
    pub fn set_running(&mut self, running: bool)
        ensures
            final(self)@ == (Results { running, ..old(self)@ }),
    {
        self.running = running;
    }

    /// Names the sub-test in progress.
    pub fn set_current_test(&mut self, name: String)
        ensures
            final(self)@ == (Results { current_test: Some(name@), ..old(self)@ }),
    {
        self.current_test = Some(name);
    }

    /// Records the greatest rate without loss of a frame size.
    pub fn record_throughput(&mut self, frame_size: u32, rate: u64)
        ensures
            final(self)@ == old(self)@.with_throughput(frame_size, rate),
    {
        let mut m = match self.throughput.take() {
            Some(m) => m,
            None => BTreeMap::new(),
        };
        m.insert(frame_size, rate);
        self.throughput = Some(m);
    }

    /// Records the mean latency of a frame size, if there is one.
    pub fn record_latency(&mut self, frame_size: u32, mean: Option<u128>)
        ensures
            final(self)@ == old(self)@.with_latency(frame_size, mean),
    {
        let mut m = match self.latency.take() {
            Some(m) => m,
            None => BTreeMap::new(),
        };
        match mean {
            Some(v) => {
                m.insert(frame_size, v);
            },
            None => {},
        }
        self.latency = Some(m);
    }

    /// Starts the loss figures of a frame size afresh.
    pub fn begin_sweep(&mut self, frame_size: u32)
        ensures
            final(self)@ == old(self)@.with_sweep(frame_size),
    {
        let mut m = match self.frame_loss_rate.take() {
            Some(m) => m,
            None => BTreeMap::new(),
        };
        m.insert(frame_size, BTreeMap::new());
        proof {
            assert(nested(m@) =~= put(old(self)@.frame_loss_rate, frame_size, Map::empty()));
        }
        self.frame_loss_rate = Some(m);
    }

    /// Records the loss of a frame size at one share of the line rate.
    pub fn record_loss(&mut self, frame_size: u32, share: u32, loss: u32)
        ensures
            final(self)@ == old(self)@.with_loss(frame_size, share, loss),
    {
        let mut m = match self.frame_loss_rate.take() {
            Some(m) => m,
            None => BTreeMap::new(),
        };
        let ghost before = m@;
        let mut entries = match m.remove(&frame_size) {
            Some(entries) => entries,
            None => BTreeMap::new(),
        };
        let ghost was = entries@;
        entries.insert(share, loss);
        m.insert(frame_size, entries);
        proof {
            let want: Map<u32, u32> = match get(old(self)@.frame_loss_rate, frame_size) {
                Some(e) => e,
                None => Map::empty(),
            };
            assert(was == want);
            assert(nested(m@) =~= put(
                old(self)@.frame_loss_rate,
                frame_size,
                want.insert(share, loss),
            ));
        }
        self.frame_loss_rate = Some(m);
    }

    /// Records the recovery time of a frame size.
    pub fn record_reset(&mut self, frame_size: u32, recovery: u64)
        ensures
            final(self)@ == old(self)@.with_reset(frame_size, recovery),
    {
        let mut m = match self.reset.take() {
            Some(m) => m,
            None => BTreeMap::new(),
        };
        m.insert(frame_size, recovery);
        self.reset = Some(m);
    }

    /// The greatest rate without loss recorded for a frame size.
    pub fn throughput_of(&self, frame_size: u32) -> (rate: Option<u64>)
        ensures
            rate == get(self@.throughput, frame_size),
    {
        match &self.throughput {
            Some(m) => match m.get(&frame_size) {
                Some(v) => Some(*v),
                None => None,
            },
            None => None,
        }
    }

    /// The mean latency recorded for a frame size.
    pub fn latency_of(&self, frame_size: u32) -> (mean: Option<u128>)
        ensures
            mean == get(self@.latency, frame_size),
    {
        match &self.latency {
            Some(m) => match m.get(&frame_size) {
                Some(v) => Some(*v),
                None => None,
            },
            None => None,
        }
    }

    /// The loss recorded for a frame size at one share of the line rate.
    pub fn loss_of(&self, frame_size: u32, share: u32) -> (loss: Option<u32>)
        ensures
            loss == match get(self@.frame_loss_rate, frame_size) {
                Some(entries) => if entries.contains_key(share) {
                    Some(entries[share])
                } else {
                    None
                },
                None => None,
            },
    {
        match &self.frame_loss_rate {
            Some(m) => match m.get(&frame_size) {
                Some(entries) => match entries.get(&share) {
                    Some(v) => Some(*v),
                    None => None,
                },
                None => None,
            },
            None => None,
        }
    }

    /// The recovery time recorded for a frame size.
    pub fn reset_of(&self, frame_size: u32) -> (recovery: Option<u64>)
        ensures
            recovery == get(self@.reset, frame_size),
    {
        match &self.reset {
            Some(m) => match m.get(&frame_size) {
                Some(v) => Some(*v),
                None => None,
            },
            None => None,
        }
    }
}

} // verus!
