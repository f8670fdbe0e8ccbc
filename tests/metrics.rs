use muse_decoder::metrics::{calculate_spo2, fallback_signal_quality, fnirs_inputs_valid};
use muse_decoder::{EegResolution, Fraction};

fn value(f: Fraction) -> f64 {
    f.num as f64 / f.den as f64
}

#[test]
fn spo2_from_known_means() {
    let ir = vec![100; 32];
    let red = vec![80; 32];
    let f = calculate_spo2(&ir, &red).expect("defined");
    assert!(f.den > 0);
    assert_eq!(f.num, 90 * f.den);
    assert!((value(f) - 90.0).abs() < 1e-12);
}

#[test]
fn spo2_uses_means_not_sums() {
    let ir: Vec<i32> = (0..40).map(|i| if i % 2 == 0 { 150 } else { 50 }).collect();
    let red = vec![60; 64];
    // ratio 60 / 100 = 0.6, estimate 95
    let f = calculate_spo2(&ir, &red).unwrap();
    assert_eq!(f.num, 95 * f.den);
}

#[test]
fn spo2_undefined_for_short_series() {
    assert_eq!(calculate_spo2(&vec![100; 31], &vec![80; 32]), None);
    assert_eq!(calculate_spo2(&vec![100; 32], &vec![80; 31]), None);
    assert_eq!(calculate_spo2(&Vec::new(), &Vec::new()), None);
}

#[test]
fn spo2_undefined_for_non_positive_mean() {
    assert_eq!(calculate_spo2(&vec![0; 32], &vec![80; 32]), None);
    assert_eq!(calculate_spo2(&vec![100; 32], &vec![-5; 32]), None);
}

#[test]
fn spo2_is_clamped() {
    assert_eq!(
        calculate_spo2(&vec![100; 32], &vec![10; 32]),
        Some(Fraction { num: 100, den: 1 })
    );
    assert_eq!(
        calculate_spo2(&vec![100; 32], &vec![500; 32]),
        Some(Fraction { num: 0, den: 1 })
    );
    // exactly at the upper edge: ratio 0.4
    let f = calculate_spo2(&vec![100; 32], &vec![40; 32]).unwrap();
    assert_eq!(f.num, 100 * f.den);
}

#[test]
fn fallback_quality_thresholds() {
    let res = EegResolution::Bits12;
    assert_eq!(fallback_signal_quality(&vec![7; 10], res), 100);
    assert_eq!(fallback_signal_quality(&vec![7; 64], res), 0);
    // counts alternating +-1: deviation 125/256 uV, below 1
    let small: Vec<i32> = (0..64).map(|i| if i % 2 == 0 { 1 } else { -1 }).collect();
    assert_eq!(fallback_signal_quality(&small, res), 0);
    // counts alternating +-4: deviation 1.953 uV
    let mid: Vec<i32> = (0..64).map(|i| if i % 2 == 0 { 4 } else { -4 }).collect();
    assert_eq!(fallback_signal_quality(&mid, res), 50);
    // counts alternating +-100: deviation 48.8 uV
    let big: Vec<i32> = (0..64).map(|i| if i % 2 == 0 { 100 } else { -100 }).collect();
    assert_eq!(fallback_signal_quality(&big, res), 100);
    // on the 14-bit scale +-4 counts is 0.244 uV
    assert_eq!(fallback_signal_quality(&mid, EegResolution::Bits14), 0);
}

fn alternating(c: i32, n: usize) -> Vec<i32> {
    (0..n).map(|i| if i % 2 == 0 { c } else { -c }).collect()
}

#[test]
fn fallback_quality_near_thresholds() {
    let res = EegResolution::Bits12;
    // deviation 2 counts = 0.977 uV, 3 counts = 1.465 uV
    assert_eq!(fallback_signal_quality(&alternating(2, 32), res), 0);
    assert_eq!(fallback_signal_quality(&alternating(3, 32), res), 50);
    // deviation 20 counts = 9.766 uV, 21 counts = 10.254 uV
    assert_eq!(fallback_signal_quality(&alternating(20, 32), res), 50);
    assert_eq!(fallback_signal_quality(&alternating(21, 32), res), 100);
    // a constant offset does not change the deviation
    let shifted: Vec<i32> = alternating(3, 32).iter().map(|x| x + 1000).collect();
    assert_eq!(fallback_signal_quality(&shifted, res), 50);
}

#[test]
fn fnirs_needs_long_positive_series() {
    assert!(fnirs_inputs_valid(&vec![50_000; 64], &vec![40_000; 64], &vec![30_000; 64]));
    assert!(!fnirs_inputs_valid(&vec![50_000; 63], &vec![40_000; 64], &vec![30_000; 64]));
    assert!(!fnirs_inputs_valid(&vec![50_000; 64], &vec![0; 64], &vec![30_000; 64]));
    assert!(!fnirs_inputs_valid(&vec![50_000; 64], &vec![40_000; 64], &vec![-1; 64]));
}
