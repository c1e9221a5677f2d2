use eqviz::control::{toggle_repeat, EqState, RepeatMode};
use eqviz::textfmt::{format_duration, resample_spectrum, truncate_name};

#[test]
fn format_duration_pads_seconds() {
    assert_eq!(format_duration(0), "0:00");
    assert_eq!(format_duration(9), "0:09");
    assert_eq!(format_duration(65), "1:05");
    assert_eq!(format_duration(600), "10:00");
    assert_eq!(format_duration(3599), "59:59");
    assert_eq!(format_duration(3600), "60:00");
}

#[test]
fn truncate_name_cuts_with_ellipsis() {
    assert_eq!(truncate_name("short", 10), "short");
    assert_eq!(truncate_name("exact", 5), "exact");
    assert_eq!(truncate_name("toolong", 5), "tool…");
    assert_eq!(truncate_name("x", 0), "…");
    assert_eq!(truncate_name("ab", 1), "…");
    assert_eq!(truncate_name("Füße und mehr", 6), "Füße …");
}

#[test]
fn resample_passes_through_and_pads_when_room() {
    let data = vec![10u64, 20, 30];
    assert_eq!(resample_spectrum(&data, 3), vec![10, 20, 30]);
    assert_eq!(resample_spectrum(&data, 5), vec![10, 20, 30, 0, 0]);
    assert_eq!(resample_spectrum(&data, 0), Vec::<u64>::new());
    assert_eq!(resample_spectrum(&Vec::new(), 4), vec![0, 0, 0, 0]);
}

#[test]
fn resample_averages_adjacent_bars_when_squeezed() {
    let data = vec![10u64, 20, 30, 40];
    // Two columns of two bars each.
    assert_eq!(resample_spectrum(&data, 2), vec![15, 35]);
    // Three columns over four bars: [0,1), [1,2), [2,4).
    assert_eq!(resample_spectrum(&data, 3), vec![10, 20, 35]);
}

#[test]
fn repeat_mode_cycles_and_labels() {
    assert_eq!(RepeatMode::Off.label(), "Off");
    assert_eq!(RepeatMode::All.label(), "All");
    assert_eq!(RepeatMode::One.label(), "One");
    let m = toggle_repeat(RepeatMode::Off);
    assert_eq!(m, RepeatMode::All);
    let m = toggle_repeat(m);
    assert_eq!(m, RepeatMode::One);
    let m = toggle_repeat(m);
    assert_eq!(m, RepeatMode::Off);
}

#[test]
fn band_names_in_band_order() {
    assert_eq!(EqState::band_name(0), "Bass");
    assert_eq!(EqState::band_name(1), "Mid");
    assert_eq!(EqState::band_name(2), "Treble");
    assert_eq!(EqState::band_name(3), "?");
}
