use spectrace::spectrum::{
    daylight_bracket, daylight_sample, find_sample, wavelength_samples, DaylightSample, WAVE_END,
    WAVE_START, WAVE_STEP,
};

#[test]
fn render_grid() {
    let w = wavelength_samples(WAVE_START, WAVE_END, WAVE_STEP);
    assert_eq!(
        w,
        vec![360, 395, 430, 465, 500, 535, 570, 605, 640, 675, 710, 745, 780, 815]
    );
}

#[test]
fn fine_grid_reaches_end() {
    let w = wavelength_samples(WAVE_START, WAVE_END, 5);
    assert_eq!(w.len(), 95);
    assert_eq!(w[0], 360);
    assert_eq!(w[94], 830);
}

#[test]
fn grid_matches_step_by() {
    for (start, end, step) in [(0u16, 10u16, 3u16), (7, 7, 1), (1, 65535, 65535), (100, 65535, 4096)] {
        let expected: Vec<u16> = (start..=end).step_by(step as usize).collect();
        assert_eq!(wavelength_samples(start, end, step), expected);
    }
}

#[test]
fn empty_grid() {
    assert!(wavelength_samples(10, 9, 1).is_empty());
}

#[test]
fn bracket_between_multiples_of_five() {
    assert_eq!(daylight_bracket(362), (360, 365));
    assert_eq!(daylight_bracket(364), (360, 365));
}

#[test]
fn bracket_of_multiple_of_five() {
    assert_eq!(daylight_bracket(780), (780, 780));
    assert_eq!(daylight_bracket(0), (0, 0));
}

#[test]
fn bracket_at_top_of_range() {
    assert_eq!(daylight_bracket(65535), (65535, 65535));
    assert_eq!(daylight_bracket(65534), (65530, 65535));
}

#[test]
fn find_sample_takes_first_row() {
    let table = vec![(360u16, 'a'), (365, 'b'), (365, 'c')];
    assert_eq!(find_sample(&table, 360), Some('a'));
    assert_eq!(find_sample(&table, 365), Some('b'));
    assert_eq!(find_sample(&table, 370), None);
}

#[test]
fn find_sample_in_empty_table() {
    let table: Vec<(u16, u8)> = Vec::new();
    assert_eq!(find_sample(&table, 500), None);
}

#[test]
fn daylight_sample_prefers_table_row() {
    let table = vec![(362u16, 'a'), (365, 'b')];
    assert!(matches!(daylight_sample(&table, 362), DaylightSample::Tabulated('a')));
    assert!(matches!(daylight_sample(&table, 365), DaylightSample::Tabulated('b')));
}

#[test]
fn daylight_sample_interpolates_inside_range() {
    let table = vec![(360u16, 1u8), (365, 2)];
    assert!(matches!(daylight_sample(&table, 363), DaylightSample::Between(360, 365)));
    assert!(matches!(daylight_sample(&table, 300), DaylightSample::Between(300, 300)));
    assert!(matches!(daylight_sample(&table, 778), DaylightSample::Between(775, 780)));
}

#[test]
fn daylight_sample_is_zero_outside_range() {
    let table = vec![(360u16, 1u8)];
    assert!(matches!(daylight_sample(&table, 299), DaylightSample::Outside));
    assert!(matches!(daylight_sample(&table, 781), DaylightSample::Outside));
    assert!(matches!(daylight_sample(&table, 830), DaylightSample::Outside));
}
