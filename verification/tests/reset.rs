use rfc2544::reset::{
    monitor_packet_loss, MonitorAction, MonitorEvent, MonitorReport, ResetMonitor, RESET_DURATION, RESET_INTERVAL,
    RESET_THRESHOLD,
};

const SECOND: u64 = 1_000_000_000;

/// Runs the monitor against a loss counter read once a second.
fn watch(monitor: &mut ResetMonitor, counter: impl Fn(u64) -> Option<u64>) -> MonitorReport {
    let mut now = 0;
    loop {
        match monitor.next() {
            MonitorAction::ReadClock => {
                monitor.step(MonitorEvent::Tick { elapsed: now });
            }
            MonitorAction::Wait { interval } => {
                now += interval;
                monitor.step(MonitorEvent::Sample {
                    elapsed: now,
                    total: counter(now / SECOND),
                });
            }
            MonitorAction::Done(report) => return report,
        }
    }
}

fn reset_series(second: u64) -> Option<u64> {
    Some(if second <= 9 {
        100 * second
    } else if second <= 17 {
        200 + 20_000 * (second - 9)
    } else {
        200 + 20_000 * 8
    })
}

#[test]
fn monitor_finds_onset_and_recovery() {
    let mut monitor = ResetMonitor::new(RESET_THRESHOLD, RESET_DURATION, RESET_INTERVAL);
    let report = watch(&mut monitor, reset_series);
    assert_eq!(
        report,
        MonitorReport { onset: Some(10 * SECOND), recovery: Some(18 * SECOND) }
    );
    assert_eq!(report.recovery_time(), 8 * SECOND);
    assert!(report.recovery.unwrap() > report.onset.unwrap());
    assert!(report.recovery.unwrap() <= RESET_DURATION);
}

#[test]
fn monitor_without_a_surge_reports_nothing_at_the_deadline() {
    let mut monitor = ResetMonitor::new(7000, 120 * SECOND, SECOND);
    let report = watch(&mut monitor, |second| Some(100 * second));
    assert_eq!(report, MonitorReport { onset: None, recovery: None });
    assert_eq!(report.recovery_time(), 0);
    assert_eq!(monitor.clock, 120 * SECOND);
}

#[test]
fn monitor_without_recovery_reports_the_onset_alone() {
    let mut monitor = ResetMonitor::new(7000, 20 * SECOND, SECOND);
    let report = watch(&mut monitor, |second| {
        Some(if second < 5 { 0 } else { 10_000 * second })
    });
    assert_eq!(report, MonitorReport { onset: Some(5 * SECOND), recovery: None });
    assert_eq!(report.recovery_time(), 0);
}

#[test]
fn monitor_with_threshold_zero_takes_any_loss_as_onset() {
    let mut monitor = ResetMonitor::new(0, 120 * SECOND, SECOND);
    let report = watch(&mut monitor, |second| Some(if second < 3 { 0 } else { 1 }));
    assert_eq!(
        report,
        MonitorReport { onset: Some(3 * SECOND), recovery: Some(4 * SECOND) }
    );
}

#[test]
fn monitor_takes_a_loss_equal_to_the_threshold_as_calm() {
    let mut monitor = ResetMonitor::new(7000, 10 * SECOND, SECOND);
    let report = watch(&mut monitor, |second| Some(7000 * second));
    assert_eq!(report, MonitorReport { onset: None, recovery: None });

    let mut monitor = ResetMonitor::new(7000, 10 * SECOND, SECOND);
    let report = watch(&mut monitor, |second| {
        Some(if second < 2 { 0 } else if second == 2 { 7001 } else { 14_001 })
    });
    assert_eq!(
        report,
        MonitorReport { onset: Some(2 * SECOND), recovery: Some(3 * SECOND) }
    );
}

#[test]
fn monitor_takes_a_counter_that_fell_back_as_no_loss() {
    let mut monitor = ResetMonitor::new(7000, 10 * SECOND, SECOND);
    let report = watch(&mut monitor, |second| {
        Some(match second {
            1 => 50_000,
            2 => 10,
            _ => 20,
        })
    });
    assert_eq!(
        report,
        MonitorReport { onset: Some(SECOND), recovery: Some(2 * SECOND) }
    );
}

#[test]
fn monitor_skips_a_sample_it_could_not_read() {
    let mut monitor = ResetMonitor::new(7000, 10 * SECOND, SECOND);
    let report = watch(&mut monitor, |second| match second {
        1 => Some(0),
        2 => None,
        3 => Some(30_000),
        4 => None,
        _ => Some(30_000),
    });
    assert_eq!(
        report,
        MonitorReport { onset: Some(3 * SECOND), recovery: Some(5 * SECOND) }
    );
}

#[test]
fn monitor_aborted_during_the_wait_reports_nothing() {
    let mut monitor = ResetMonitor::new(7000, 10 * SECOND, SECOND);
    monitor.step(MonitorEvent::Tick { elapsed: 0 });
    monitor.step(MonitorEvent::Sample { elapsed: SECOND, total: Some(50_000) });
    assert_eq!(monitor.onset, Some(SECOND));
    assert_eq!(
        monitor.step(MonitorEvent::Tick { elapsed: SECOND }),
        MonitorAction::Wait { interval: SECOND }
    );
    let action = monitor.step(MonitorEvent::Abort);
    assert_eq!(
        action,
        MonitorAction::Done(MonitorReport { onset: None, recovery: None })
    );
}

#[test]
fn monitor_asks_for_the_clock_then_waits() {
    let mut monitor = ResetMonitor::new(7000, 10 * SECOND, 3 * SECOND);
    assert_eq!(monitor.next(), MonitorAction::ReadClock);
    assert_eq!(
        monitor.step(MonitorEvent::Tick { elapsed: 0 }),
        MonitorAction::Wait { interval: 3 * SECOND }
    );
    assert_eq!(
        monitor.step(MonitorEvent::Sample { elapsed: 3 * SECOND, total: Some(1) }),
        MonitorAction::ReadClock
    );
}

#[test]
fn monitor_ignores_events_it_does_not_wait_for() {
    let mut monitor = ResetMonitor::new(7000, 10 * SECOND, SECOND);
    let fresh = monitor;
    monitor.step(MonitorEvent::Sample { elapsed: SECOND, total: Some(50_000) });
    assert_eq!(monitor, fresh);
    monitor.step(MonitorEvent::Abort);
    assert_eq!(monitor, fresh);
    monitor.step(MonitorEvent::Tick { elapsed: 10 * SECOND });
    let done = monitor;
    assert_eq!(
        monitor.next(),
        MonitorAction::Done(MonitorReport { onset: None, recovery: None })
    );
    monitor.step(MonitorEvent::Tick { elapsed: 11 * SECOND });
    monitor.step(MonitorEvent::Abort);
    assert_eq!(monitor, done);
}

#[test]
fn monitor_clock_never_runs_backwards() {
    let mut monitor = ResetMonitor::new(7000, 100 * SECOND, SECOND);
    monitor.step(MonitorEvent::Tick { elapsed: 5 * SECOND });
    monitor.step(MonitorEvent::Sample { elapsed: 4 * SECOND, total: Some(50_000) });
    assert_eq!(monitor.onset, Some(5 * SECOND));
    monitor.step(MonitorEvent::Tick { elapsed: 0 });
    let action = monitor.step(MonitorEvent::Sample { elapsed: 2 * SECOND, total: Some(50_000) });
    assert_eq!(
        action,
        MonitorAction::Done(MonitorReport {
            onset: Some(5 * SECOND),
            recovery: Some(5 * SECOND)
        })
    );
}

#[test]
fn report_without_both_marks_has_no_recovery_time() {
    let none = MonitorReport { onset: None, recovery: None };
    assert_eq!(none.recovery_time(), 0);
    let onset = MonitorReport { onset: Some(7), recovery: None };
    assert_eq!(onset.recovery_time(), 0);
    let both = MonitorReport { onset: Some(7), recovery: Some(19) };
    assert_eq!(both.recovery_time(), 12);
    let reversed = MonitorReport { onset: Some(19), recovery: Some(7) };
    assert_eq!(reversed.recovery_time(), 0);
}

#[test]
fn monitor_over_a_recorded_series() {
    let events = vec![
        MonitorEvent::Tick { elapsed: 0 },
        MonitorEvent::Sample { elapsed: SECOND, total: Some(10) },
        MonitorEvent::Tick { elapsed: SECOND },
        MonitorEvent::Sample { elapsed: 2 * SECOND, total: Some(9000) },
        MonitorEvent::Tick { elapsed: 2 * SECOND },
        MonitorEvent::Sample { elapsed: 3 * SECOND, total: Some(9500) },
        MonitorEvent::Tick { elapsed: 3 * SECOND },
    ];
    let end = monitor_packet_loss(7000, 120 * SECOND, SECOND, &events);
    assert_eq!(
        end.report,
        Some(MonitorReport { onset: Some(2 * SECOND), recovery: Some(3 * SECOND) })
    );
    let end = monitor_packet_loss(7000, 120 * SECOND, SECOND, &events[..4].to_vec());
    assert_eq!(end.report, None);
    assert_eq!(end.onset, Some(2 * SECOND));
    assert_eq!(end.next(), MonitorAction::ReadClock);
    let end = monitor_packet_loss(7000, 2 * SECOND, SECOND, &events);
    assert_eq!(
        end.report,
        Some(MonitorReport { onset: Some(2 * SECOND), recovery: None })
    );
}
