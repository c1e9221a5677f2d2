use eqviz::spectrum::{
    bucket_ranges, effective_channels, normalize_level, smooth_bar, SpectrumState, BAR_MAX_CENTI,
    HALF, NUM_BARS,
};

/// The 32 logarithmic bucket ranges are contiguous, non-overlapping, and
/// jointly cover bins 1..half-1 exactly once for half = 1024.
#[test]
fn bucket_ranges_cover_bins_exactly_once() {
    let r = bucket_ranges();
    assert_eq!(r.len(), NUM_BARS);
    assert_eq!(r[0].0, 1);
    assert_eq!(r[NUM_BARS - 1].1, HALF);
    for i in 0..NUM_BARS {
        assert!(1 <= r[i].0 && r[i].0 < r[i].1 && r[i].1 <= HALF);
        if i + 1 < NUM_BARS {
            assert_eq!(r[i + 1].0, r[i].1);
        }
    }
    let mut covered = vec![0usize; HALF];
    for &(lo, hi) in &r {
        for b in lo..hi {
            covered[b] += 1;
        }
    }
    assert_eq!(covered[0], 0);
    for b in 1..HALF {
        assert_eq!(covered[b], 1, "bin {} covered {} times", b, covered[b]);
    }
}

/// The normalization formula (dB + 20) / 55 * 100, clamped into 0..=100,
/// in centi-units on centi-decibel input.
#[test]
fn normalize_level_matches_formula() {
    // -20 dB and anything below reads 0.
    assert_eq!(normalize_level(-2000), 0);
    assert_eq!(normalize_level(-20000), 0);
    assert_eq!(normalize_level(i32::MIN), 0);
    // +35 dB tops out at exactly 100.00.
    assert_eq!(normalize_level(3500), BAR_MAX_CENTI);
    assert_eq!(normalize_level(i32::MAX), BAR_MAX_CENTI);
    // 0 dB sits at (0 + 20) / 55 * 100 = 36.36.
    assert_eq!(normalize_level(0), 3636);
}

/// Asymmetric smoothing: rising blends 20/80, falling blends 55/45.
#[test]
fn smoothing_blends_attack_and_release() {
    assert_eq!(smooth_bar(0, 10000), 8000);
    assert_eq!(smooth_bar(10000, 0), 5500);
    assert_eq!(smooth_bar(2000, 7000), 2000 / 5 + 7000 * 4 / 5);
    assert_eq!(smooth_bar(7000, 2000), (7000 * 55 + 2000 * 45) / 100);
    // Equal values stay put under either blend.
    assert_eq!(smooth_bar(4000, 4000), 4000);
}

/// Every published bar stays within 0..=100 whatever levels come in.
#[test]
fn published_bars_stay_in_range() {
    let mut state = SpectrumState::new();
    let wild: Vec<i32> = (0..NUM_BARS as i32).map(|i| (i - 16) * 1000).collect();
    for _ in 0..10 {
        state.apply_levels(&wild);
        let bars = state.spectrum();
        assert_eq!(bars.len(), NUM_BARS);
        for &b in &bars {
            assert!(b <= 100);
        }
    }
}

/// Silence drives every bar toward 0 monotonically, never negative.
#[test]
fn silence_decays_monotonically_to_zero() {
    let mut state = SpectrumState::new();
    let loud: Vec<i32> = vec![3500; NUM_BARS];
    for _ in 0..8 {
        state.apply_levels(&loud);
    }
    let mut prev = state.spectrum();
    assert!(prev.iter().all(|&b| b >= 99));
    let silence: Vec<i32> = vec![-20000; NUM_BARS];
    for _ in 0..60 {
        state.apply_levels(&silence);
        let next = state.spectrum();
        for i in 0..NUM_BARS {
            assert!(next[i] <= prev[i]);
        }
        prev = next;
    }
    assert!(prev.iter().all(|&b| b == 0));
}

/// A cleared snapshot is all zeros.
#[test]
fn clear_zeroes_the_snapshot() {
    let mut state = SpectrumState::new();
    state.apply_levels(&vec![3500; NUM_BARS]);
    state.clear();
    assert!(state.spectrum().iter().all(|&b| b == 0));
}

#[test]
fn zero_channels_analyzed_as_mono() {
    assert_eq!(effective_channels(0), 1);
    assert_eq!(effective_channels(1), 1);
    assert_eq!(effective_channels(2), 2);
}
