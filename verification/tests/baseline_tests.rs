//! Baseline detection and surplus accounting.

use wattmon::baseline::{isqrt, sort_window, BaselineDetector};

#[test]
fn test_baseline_detection() {
    let mut detector = BaselineDetector::with_window_size(20);

    // Idle samples: 45..49 W, in milliwatts.
    for i in 0..10u64 {
        detector.add_sample((45 + (i % 5)) * 1000);
    }
    // Load samples: 100..145 W.
    for i in 0..10u64 {
        detector.add_sample((100 + i * 5) * 1000);
    }

    let detection = detector.detect_baseline().unwrap();

    // The baseline tracks the idle band, well below 60 W.
    assert!(detection.detected_mw < 60_000);
    assert!(detection.confidence_pm > 0);
    assert_eq!(detection.sample_count, 20);
}

#[test]
fn test_manual_baseline() {
    let mut detector = BaselineDetector::new();

    detector.set_manual_baseline(50_000);
    assert!(detector.is_manual());
    assert_eq!(detector.get_baseline(), Some(50_000));

    let (surplus, above) = detector.calculate_surplus(120_000);
    assert_eq!(surplus, 70_000);
    assert!(above);

    detector.clear_manual_baseline();
    assert!(!detector.is_manual());
}

#[test]
fn test_surplus_calculation() {
    let mut detector = BaselineDetector::new();
    detector.set_manual_baseline(50_000);

    // 150 W for one hour: 100 Wh of surplus.
    let surplus_mwh = detector.calculate_surplus_mwh(150_000, 3_600_000);
    assert_eq!(surplus_mwh, 100_000);

    // Below the baseline: zero surplus.
    let surplus_mwh = detector.calculate_surplus_mwh(40_000, 3_600_000);
    assert_eq!(surplus_mwh, 0);
}

#[test]
fn test_surplus_below_baseline_flag() {
    let mut detector = BaselineDetector::new();
    detector.set_manual_baseline(50_000);
    assert_eq!(detector.calculate_surplus(40_000), (0, false));
    assert_eq!(detector.calculate_surplus(50_000), (0, false));
}

#[test]
fn test_surplus_without_baseline() {
    let detector = BaselineDetector::new();
    assert_eq!(detector.calculate_surplus(120_000), (0, false));
    assert_eq!(detector.calculate_surplus_mwh(120_000, 3_600_000), 0);
}

#[test]
fn test_detection_needs_ten_samples() {
    let mut detector = BaselineDetector::new();
    for _ in 0..9 {
        detector.add_sample(50_000);
    }
    assert!(detector.detect_baseline().is_none());
    detector.add_sample(50_000);
    assert!(detector.detect_baseline().is_some());
}

#[test]
fn test_window_eviction() {
    let mut detector = BaselineDetector::with_window_size(3);
    detector.add_sample(1000);
    detector.add_sample(2000);
    detector.add_sample(3000);
    detector.add_sample(4000);
    assert_eq!(detector.sample_count(), 3);
}

#[test]
fn test_manual_survives_reset() {
    let mut detector = BaselineDetector::new();
    detector.set_manual_baseline(42_000);
    for _ in 0..12 {
        detector.add_sample(50_000);
    }
    detector.detect_baseline().unwrap();
    detector.reset();
    assert_eq!(detector.sample_count(), 0);
    assert_eq!(detector.get_baseline(), Some(42_000));
    assert!(detector.is_manual());
}

#[test]
fn test_detection_with_equal_samples() {
    let mut detector = BaselineDetector::with_window_size(10);
    for _ in 0..10 {
        detector.add_sample(60_000);
    }
    let d = detector.detect_baseline().unwrap();
    assert_eq!(d.detected_mw, 60_000);
    // Zero spread and a full window give full confidence.
    assert_eq!(d.confidence_pm, 1000);
}

#[test]
fn test_sort_window_orders() {
    let v = vec![5u64, 1, 4, 1, 3];
    let s = sort_window(&v);
    assert_eq!(s, vec![1, 1, 3, 4, 5]);
}

#[test]
fn test_isqrt_values() {
    assert_eq!(isqrt(0), 0);
    assert_eq!(isqrt(1), 1);
    assert_eq!(isqrt(15), 3);
    assert_eq!(isqrt(16), 4);
    assert_eq!(isqrt(1_000_000), 1000);
}
