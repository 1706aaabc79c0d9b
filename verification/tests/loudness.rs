use vocal_mouse::loudness::calculate_loudness;

#[test]
fn empty_frame_has_loudness_zero() {
    let samples: Vec<i64> = vec![];
    assert_eq!(calculate_loudness(&samples, 1000), 0);
}

#[test]
fn empty_frame_has_loudness_zero_for_any_multiplier() {
    let samples: Vec<i64> = vec![];
    assert_eq!(calculate_loudness(&samples, 0), 0);
    assert_eq!(calculate_loudness(&samples, 5000), 0);
    assert_eq!(calculate_loudness(&samples, u32::MAX), 0);
}

#[test]
fn constant_frame_has_exact_rms() {
    // Four samples of one full unit (1_000_000 micro-units): the RMS is one
    // unit, scaled by 1300 and a unit volume multiplier.
    let samples: Vec<i64> = vec![1_000_000, 1_000_000, 1_000_000, 1_000_000];
    assert_eq!(calculate_loudness(&samples, 1000), 1300);
}

#[test]
fn mixed_sign_frame_squares_samples() {
    // Squaring removes the sign: alternating polarity changes nothing.
    let samples: Vec<i64> = vec![1_000_000, -1_000_000, 1_000_000, -1_000_000];
    assert_eq!(calculate_loudness(&samples, 1000), 1300);
}

#[test]
fn doubling_amplitude_doubles_loudness() {
    let samples: Vec<i64> = vec![250_000, -500_000, 750_000, -1_000_000];
    let doubled: Vec<i64> = samples.iter().map(|s| s * 2).collect();
    let base = calculate_loudness(&samples, 1000);
    let scaled = calculate_loudness(&doubled, 1000);
    assert!(base > 0);
    // Exact doubling here: the truncation slack stays below one.
    assert_eq!(scaled, base * 2);
}

#[test]
fn loudness_is_non_negative() {
    let samples: Vec<i64> = vec![-7_000, 3_000, -12_000];
    assert!(calculate_loudness(&samples, 1000) >= 0);
    assert!(calculate_loudness(&samples, 0) >= 0);
}

#[test]
fn volume_multiplier_scales_loudness() {
    let samples: Vec<i64> = vec![1_000_000, 1_000_000];
    assert_eq!(calculate_loudness(&samples, 2000), 2600);
    assert_eq!(calculate_loudness(&samples, 500), 650);
    assert_eq!(calculate_loudness(&samples, 0), 0);
}

#[test]
fn loudness_truncates_fractional_rms() {
    // One sample of 1.5 units: RMS 1.5, times 1300 gives 1950.
    let samples: Vec<i64> = vec![1_500_000];
    assert_eq!(calculate_loudness(&samples, 1000), 1950);
    // Mean square of 1 and 2 units is 2.5; its root truncates to
    // 1_581_138 micro-units, giving 2055 after scaling.
    let samples2: Vec<i64> = vec![1_000_000, 2_000_000];
    assert_eq!(calculate_loudness(&samples2, 1000), 2055);
}

#[test]
fn loudness_saturates_at_i32_max() {
    let samples: Vec<i64> = vec![2_200_000_000_000_000, -2_200_000_000_000_000];
    assert_eq!(calculate_loudness(&samples, u32::MAX), i32::MAX);
}
