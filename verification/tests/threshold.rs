//! Debounced threshold detection.
use carvera_spindle::{ThresholdDetector, ThresholdStatus};

#[test]
fn test_threshold_below() {
    let mut detector = ThresholdDetector::new();
    let status = detector.check(50, 100, 0, 100);
    assert_eq!(status, ThresholdStatus::Below);
    assert!(!detector.is_active());
}

#[test]
fn test_threshold_rising() {
    let mut detector = ThresholdDetector::new();
    let status = detector.check(150, 100, 0, 100);
    assert_eq!(status, ThresholdStatus::Rising);
    assert!(detector.is_active());
}

#[test]
fn test_threshold_triggered() {
    let mut detector = ThresholdDetector::new();
    detector.check(150, 100, 0, 100); // Start debounce
    detector.check(150, 100, 50, 100); // Still rising
    let status = detector.check(150, 100, 150, 100); // Past debounce
    assert_eq!(status, ThresholdStatus::Triggered);
}

#[test]
fn test_threshold_reset_on_drop() {
    let mut detector = ThresholdDetector::new();
    detector.check(150, 100, 0, 100); // Start debounce
    assert!(detector.is_active());

    // Drop below threshold
    let status = detector.check(50, 100, 50, 100);
    assert_eq!(status, ThresholdStatus::Below);
    assert!(!detector.is_active());
}

#[test]
fn test_threshold_debounce_timing() {
    let mut detector = ThresholdDetector::new();

    // Start at t=1000
    let status = detector.check(150, 100, 1000, 200);
    assert_eq!(status, ThresholdStatus::Rising);

    // At t=1100 (100ms elapsed, debounce is 200ms)
    let status = detector.check(150, 100, 1100, 200);
    assert_eq!(status, ThresholdStatus::Rising);

    // At t=1199 (199ms elapsed, still not triggered)
    let status = detector.check(150, 100, 1199, 200);
    assert_eq!(status, ThresholdStatus::Rising);

    // At t=1200 (200ms elapsed, triggered)
    let status = detector.check(150, 100, 1200, 200);
    assert_eq!(status, ThresholdStatus::Triggered);
}

#[test]
fn test_threshold_manual_reset() {
    let mut detector = ThresholdDetector::new();
    detector.check(150, 100, 0, 100);
    assert!(detector.is_active());

    detector.reset();
    assert!(!detector.is_active());
}

#[test]
fn test_threshold_default() {
    let detector = ThresholdDetector::default();
    assert!(!detector.is_active());
}

#[test]
fn test_threshold_stays_triggered_on_repeated_checks() {
    // After first Triggered, subsequent calls with value > threshold
    // should keep returning Triggered (not Rising or Below)
    let mut detector = ThresholdDetector::new();

    // Start debounce at t=0
    detector.check(150, 100, 0, 100);

    // Triggered at t=100
    let status = detector.check(150, 100, 100, 100);
    assert_eq!(status, ThresholdStatus::Triggered);

    // Continue feeding values above threshold - should stay Triggered
    let status = detector.check(200, 100, 200, 100);
    assert_eq!(
        status,
        ThresholdStatus::Triggered,
        "Should stay Triggered while value remains above threshold"
    );

    let status = detector.check(150, 100, 500, 100);
    assert_eq!(
        status,
        ThresholdStatus::Triggered,
        "Should stay Triggered at any later time while above threshold"
    );

    let status = detector.check(101, 100, 1000, 100);
    assert_eq!(
        status,
        ThresholdStatus::Triggered,
        "Should stay Triggered even with value barely above threshold"
    );
}
