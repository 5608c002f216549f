use rfc2544::frame_loss::{FrameLossSweep, LossEntry};

const GBIT: u64 = 1_000_000_000;

/// No loss up to 50 Gbit/s, then rising in a line to all of it at 100.
fn rising_loss(rate: u64) -> u128 {
    if rate <= 50 * GBIT {
        0
    } else {
        ((rate - 50 * GBIT) / (GBIT / 2)) as u128 * 1000
    }
}

#[test]
fn sweep_on_a_lossless_link_records_two_entries() {
    let mut sweep = FrameLossSweep::new(100 * GBIT);
    let mut entries = Vec::new();
    let mut rates = Vec::new();
    while let Some(rate) = sweep.rate() {
        rates.push(rate);
        if let Some(e) = sweep.record(Some(0)) {
            entries.push(e);
        }
    }
    assert_eq!(rates, vec![100 * GBIT, 90 * GBIT]);
    assert_eq!(
        entries,
        vec![
            LossEntry { share: 100, loss: 0 },
            LossEntry { share: 90, loss: 0 }
        ]
    );
}

#[test]
fn sweep_stops_after_the_second_clean_step_in_a_row() {
    let mut sweep = FrameLossSweep::new(100 * GBIT);
    let mut entries = Vec::new();
    while let Some(rate) = sweep.rate() {
        if let Some(e) = sweep.record(Some(rising_loss(rate))) {
            entries.push(e);
        }
    }
    let shares: Vec<u32> = entries.iter().map(|e| e.share).collect();
    assert_eq!(shares, vec![100, 90, 80, 70, 60, 50, 40]);
    assert_eq!(entries[0].loss, 100_000);
    assert_eq!(entries[1].loss, 80_000);
    assert_eq!(entries[4].loss, 20_000);
    assert_eq!(entries[5].loss, 0);
    assert_eq!(entries[6].loss, 0);
}

#[test]
fn sweep_with_loss_everywhere_runs_all_ten_steps() {
    let mut sweep = FrameLossSweep::new(40 * GBIT);
    let mut rates = Vec::new();
    let mut shares = Vec::new();
    while let Some(rate) = sweep.rate() {
        rates.push(rate);
        shares.push(sweep.record(Some(1)).unwrap().share);
    }
    assert_eq!(shares, vec![100, 90, 80, 70, 60, 50, 40, 30, 20, 10]);
    assert_eq!(rates[0], 40 * GBIT);
    assert_eq!(rates[1], 36 * GBIT);
    assert_eq!(rates[9], 4 * GBIT);
}

#[test]
fn sweep_counts_clean_steps_only_in_a_row() {
    let mut sweep = FrameLossSweep::new(10 * GBIT);
    let losses = [0u128, 5, 0, 7, 0, 0];
    let mut taken = 0;
    for loss in losses {
        assert!(sweep.rate().is_some());
        sweep.record(Some(loss));
        taken += 1;
    }
    assert_eq!(taken, 6);
    assert_eq!(sweep.rate(), None);
}

#[test]
fn sweep_skips_a_step_it_could_not_read() {
    let mut sweep = FrameLossSweep::new(10 * GBIT);
    assert_eq!(sweep.record(Some(0)), Some(LossEntry { share: 100, loss: 0 }));
    assert_eq!(sweep.record(None), None);
    assert_eq!(sweep.rate(), Some(8 * GBIT));
    assert_eq!(sweep.record(Some(0)), Some(LossEntry { share: 80, loss: 0 }));
    assert_eq!(sweep.rate(), None);
}

#[test]
fn sweep_caps_the_loss_it_records() {
    let mut sweep = FrameLossSweep::new(10 * GBIT);
    assert_eq!(
        sweep.record(Some(250_000)),
        Some(LossEntry { share: 100, loss: 100_000 })
    );
    assert_eq!(
        sweep.record(Some(100_000)),
        Some(LossEntry { share: 90, loss: 100_000 })
    );
    assert_eq!(
        sweep.record(Some(12_345)),
        Some(LossEntry { share: 80, loss: 12_345 })
    );
}

#[test]
fn sweep_ignores_what_comes_after_the_end() {
    let mut sweep = FrameLossSweep::new(10 * GBIT);
    sweep.record(Some(0));
    sweep.record(Some(0));
    let done = sweep;
    assert_eq!(sweep.record(Some(3)), None);
    assert_eq!(sweep, done);
}

#[test]
fn sweep_rounds_the_rate_down_to_whole_bits() {
    let mut sweep = FrameLossSweep::new(u64::MAX);
    assert_eq!(sweep.rate(), Some(u64::MAX));
    sweep.record(Some(1));
    assert_eq!(
        sweep.rate(),
        Some((u64::MAX as u128 * 90 / 100) as u64)
    );
    let sweep = FrameLossSweep::new(7);
    assert_eq!(sweep.rate(), Some(7));
}
