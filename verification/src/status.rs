//! What the controller reports of itself, and how the outcome of a benchmark
//! request is judged.

use vstd::prelude::*;
use vstd::string::*;

verus! {

/// The HTTP status of a request that succeeded.
pub const STATUS_OK: u16 = 200;

/// The switch chip the controller drives.
#[derive(Clone, Copy, Debug, PartialEq, Eq)]
pub enum Asic {
    Tofino1,
    Tofino2,
}

/// The answer to the question whether the controller is up.
#[derive(Debug, PartialEq, Eq)]
pub struct Online {
    pub status: String,
    pub version: String,
    pub asic: Asic,
    pub loopback: bool,
}

/// Reports the controller as online, with its version, its chip and whether
/// it runs in loopback mode.
pub fn online(tofino2: bool, loopback_mode: bool, version: String) -> (report: Online)
    ensures
        report.status@ == "online"@,
        report.version == version,
        report.asic == (if tofino2 {
            Asic::Tofino2
        } else {
            Asic::Tofino1
        }),
        report.loopback == loopback_mode,
{
    Online {
        status: String::from_str("online"),
        version,
        asic: if tofino2 {
            Asic::Tofino2
        } else {
            Asic::Tofino1
        },
        loopback: loopback_mode,
    }
}

/// The experiment on the generator: when it began, in seconds since the Unix
/// epoch, and whether it is still running.
#[derive(Clone, Copy, Debug, PartialEq, Eq)]
pub struct Experiment {
    pub start: u64,
    pub running: bool,
}

impl Experiment {
    /// No experiment yet: created at `now`, not running.
    pub fn new(now: u64) -> (e: Self)
        ensures
            e == (Experiment { start: now, running: false }),
    {
        Experiment { start: now, running: false }
    }

    /// An experiment begins at `now`.
    pub fn begin(&mut self, now: u64)
        ensures
            *final(self) == (Experiment { start: now, running: true }),
    {
        self.start = now;
        self.running = true;
    }

    /// The experiment ends; its start time stays.
    pub fn end(&mut self)
        ensures
            *final(self) == (Experiment { start: old(self).start, running: false }),
    {
        self.running = false;
    }

    /// Seconds the experiment has run at `now`; zero when it is not
    /// running or `now` lies before its start.
    pub fn elapsed(&self, now: u64) -> (seconds: u64)
        ensures
            seconds == (if self.running && now >= self.start {
                now - self.start
            } else {
                0
            }),
    {
        if self.running && now >= self.start {
            now - self.start
        } else {
            0
        }
    }
}

/// Judges the answer to a benchmark request: it succeeded exactly when it
/// came back with status 200; any other status, and any error, is a failure.
pub fn handle_test_result(result: &Result<u16, String>) -> (outcome: Result<(), ()>)
    ensures
        outcome is Ok <==> (result matches Ok(status) && status == STATUS_OK),
{
    match result {
        Ok(status) => if *status == STATUS_OK {
            Ok(())
        } else {
            Err(())
        },
        Err(_) => Err(()),
    }
}

} // verus!
