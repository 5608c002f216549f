use rfc2544::latency::{half_rtt, LatencyRun};

#[test]
fn latency_mean_of_ten_runs() {
    let rtts = [
        20_000u64, 22_000, 18_000, 21_000, 19_000, 23_000, 17_000, 22_000, 20_000, 18_000,
    ];
    let mut run = LatencyRun::new();
    for (i, rtt) in rtts.iter().enumerate() {
        assert_eq!(run.iteration(), Some(i as u32));
        run.record(Some(*rtt));
    }
    assert_eq!(run.iteration(), None);
    // 10.0 microseconds
    assert_eq!(run.mean_latency(), Some(10_000_000));
}

#[test]
fn latency_is_half_the_round_trip() {
    // 20 000 ns round trip: 10 microseconds one way
    assert_eq!(half_rtt(20_000), 10_000_000);
    assert_eq!(half_rtt(1), 500);
    assert_eq!(half_rtt(0), 0);
    assert_eq!(half_rtt(u64::MAX), u64::MAX as u128 * 500);
}

#[test]
fn latency_skips_runs_without_a_round_trip_time() {
    let mut run = LatencyRun::new();
    for i in 0..10 {
        run.record(if i % 2 == 0 { Some(3000) } else { None });
    }
    assert_eq!(run.iteration(), None);
    assert_eq!(run.samples, 5);
    assert_eq!(run.mean_latency(), Some(1_500_000));
}

#[test]
fn latency_without_samples_has_no_mean() {
    let mut run = LatencyRun::new();
    assert_eq!(run.mean_latency(), None);
    for _ in 0..10 {
        run.record(None);
    }
    assert_eq!(run.iteration(), None);
    assert_eq!(run.mean_latency(), None);
}

#[test]
fn latency_mean_rounds_down() {
    let mut run = LatencyRun::new();
    run.record(Some(1));
    run.record(Some(1));
    run.record(Some(2));
    // (1 + 1 + 2) * 500 / 3 = 666.67 ps
    assert_eq!(run.mean_latency(), Some(666));
}

#[test]
fn latency_stops_after_ten_runs() {
    let mut run = LatencyRun::new();
    for _ in 0..10 {
        run.record(Some(u64::MAX));
    }
    let done = run;
    run.record(Some(5));
    assert_eq!(run, done);
    assert_eq!(run.mean_latency(), Some(u64::MAX as u128 * 500));
}
