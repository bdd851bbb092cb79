use upscaler::framerate::normalize_frame_rate;

#[test]
fn ntsc_fraction_becomes_three_decimals() {
    assert_eq!(normalize_frame_rate("30000/1001"), "29.970");
}

#[test]
fn empty_probe_defaults_to_thirty() {
    assert_eq!(normalize_frame_rate(""), "30");
}

#[test]
fn film_fraction_rounds_to_nearest() {
    // 24000/1001 = 23.97602...: the thousandths digit rounds to 6.
    assert_eq!(normalize_frame_rate("24000/1001"), "23.976");
}

#[test]
fn whole_number_passes_through() {
    assert_eq!(normalize_frame_rate("25"), "25");
    assert_eq!(normalize_frame_rate("23.976"), "23.976");
}

#[test]
fn exact_fraction_gains_decimals() {
    assert_eq!(normalize_frame_rate("10/4"), "2.500");
    assert_eq!(normalize_frame_rate("60/1"), "60.000");
}

#[test]
fn malformed_fractions_pass_through() {
    assert_eq!(normalize_frame_rate("x/y"), "x/y");
    assert_eq!(normalize_frame_rate("30000/"), "30000/");
    assert_eq!(normalize_frame_rate("/1001"), "/1001");
    assert_eq!(normalize_frame_rate("1/2/3"), "1/2/3");
}

#[test]
fn zero_denominator_passes_through() {
    assert_eq!(normalize_frame_rate("30/0"), "30/0");
}

#[test]
fn half_rounds_away_from_zero() {
    // 1/2000 = 0.0005 rounds up to a full thousandth.
    assert_eq!(normalize_frame_rate("1/2000"), "0.001");
}
