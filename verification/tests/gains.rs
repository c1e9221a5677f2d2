use eqviz::eq::{clamp_centi, CoeffRefresh, EqGains, BAND_COUNT, COEF_UPDATE_INTERVAL, MAX_CENTI_DB, MIN_CENTI_DB};

/// Requested gains clamp to [-12 dB, +12 dB] at 0.01 dB resolution.
#[test]
fn set_band_gain_clamps_and_rounds() {
    let mut g = EqGains::new();
    // 5.678 dB rounds to 568 centi-dB.
    let raw = (5.678f64 * 100.0).round() as i64;
    g.set_band_centi(0, raw);
    assert_eq!(g.band_centi(0), 568);
    // -30 dB clamps to the bottom of the range.
    g.set_band_centi(1, -3000);
    assert_eq!(g.band_centi(1), MIN_CENTI_DB);
    // +30 dB clamps to the top of the range.
    g.set_band_centi(2, 3000);
    assert_eq!(g.band_centi(2), MAX_CENTI_DB);
}

/// Scenario: set Bass to +20 dB, then read 12.0 dB back.
#[test]
fn bass_plus_twenty_reads_twelve() {
    let mut g = EqGains::new();
    let raw = (20.0f64 * 100.0).round() as i64;
    g.set_band_centi(0, raw);
    assert_eq!(g.band_centi(0), 1200);
    assert_eq!(g.band_centi(0) as f64 * 0.01, 12.0);
}

#[test]
fn clamp_centi_bounds() {
    assert_eq!(clamp_centi(0), 0);
    assert_eq!(clamp_centi(1200), 1200);
    assert_eq!(clamp_centi(1201), 1200);
    assert_eq!(clamp_centi(-1200), -1200);
    assert_eq!(clamp_centi(-1201), -1200);
    assert_eq!(clamp_centi(i64::MAX), 1200);
    assert_eq!(clamp_centi(i64::MIN), -1200);
}

#[test]
fn new_gains_are_flat() {
    let g = EqGains::default();
    let (b, m, t) = g.load_centi();
    assert_eq!((b, m, t), (0, 0, 0));
}

#[test]
fn band_steps_move_one_decibel_and_stop_at_range_ends() {
    let mut g = EqGains::new();
    g.band_step_up(0);
    assert_eq!(g.band_centi(0), 100);
    g.band_step_down(0);
    g.band_step_down(0);
    assert_eq!(g.band_centi(0), -100);
    for _ in 0..40 {
        g.band_step_up(2);
    }
    assert_eq!(g.band_centi(2), 1200);
    for _ in 0..40 {
        g.band_step_down(2);
    }
    assert_eq!(g.band_centi(2), -1200);
    // Bands beyond the last change nothing.
    g.band_step_up(BAND_COUNT);
    assert_eq!(g.load_centi(), (-100, 0, -1200));
}

/// Unchanged gains over two full intervals: the coefficients are never
/// recomputed. A change is then picked up exactly at the next boundary.
#[test]
fn coefficients_recompute_only_on_changed_gains_at_boundary() {
    let flat = (0i32, 0i32, 0i32);
    let mut policy = CoeffRefresh::new(flat);
    for _ in 0..2 * COEF_UPDATE_INTERVAL {
        assert!(!policy.tick(flat));
    }
    // A gain change mid-window recomputes nothing until the boundary.
    let moved = (100i32, 0i32, 0i32);
    let mut fired = 0usize;
    for n in 0..COEF_UPDATE_INTERVAL {
        let fires = policy.tick(moved);
        if fires {
            fired += 1;
            assert_eq!(n, COEF_UPDATE_INTERVAL - 1);
        }
    }
    assert_eq!(fired, 1);
    // The rebuilt coefficients remember the new triple.
    for _ in 0..2 * COEF_UPDATE_INTERVAL {
        assert!(!policy.tick(moved));
    }
}
