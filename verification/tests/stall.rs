//! Stall detection: grace, debounce, hysteresis and the two-phase latch.
use carvera_spindle::{StallConfig, StallDetector, StallStatus};

/// Test configuration for stall detection tests
/// Matches production config: 200ms base + 15ms per 1000 RPM
const TEST_STALL_CONFIG: StallConfig = StallConfig {
    threshold_pct: 30,
    base_grace_ms: 200,
    rpm_grace_factor: 15,
    debounce_ms: 100,
    recovery_ms: 300,
    rate_threshold: 500, // 500 RPM/sec minimum rate to consider a "real" speed change
};

#[test]
fn test_stall_grace_period() {
    let mut detector = StallDetector::new();
    // First call initializes and returns GracePeriod
    let status = detector.check(10000, 0, 0, &TEST_STALL_CONFIG);
    assert_eq!(status, StallStatus::GracePeriod);

    // Still in grace period (200 + 10000/1000*15 = 350ms)
    let status = detector.check(10000, 0, 300, &TEST_STALL_CONFIG);
    assert_eq!(status, StallStatus::GracePeriod);
}

#[test]
fn test_stall_detected_after_grace() {
    let mut detector = StallDetector::new();
    detector.check(10000, 0, 0, &TEST_STALL_CONFIG); // Initialize

    // After grace period (350ms), low speed triggers warning
    let status = detector.check(10000, 2000, 400, &TEST_STALL_CONFIG);
    assert_eq!(status, StallStatus::Warning);

    // After debounce (100ms), stall is confirmed
    let status = detector.check(10000, 2000, 600, &TEST_STALL_CONFIG);
    assert_eq!(status, StallStatus::Stalled);
}

#[test]
fn test_no_stall_within_threshold() {
    let mut detector = StallDetector::new();
    detector.check(10000, 10000, 0, &TEST_STALL_CONFIG); // Initialize

    // After grace (350ms), speed at 40% (above 30% threshold) - OK
    let status = detector.check(10000, 4000, 400, &TEST_STALL_CONFIG);
    assert_eq!(status, StallStatus::Normal);
}

#[test]
fn test_stall_debounce() {
    let mut detector = StallDetector::new();
    detector.check(10000, 10000, 0, &TEST_STALL_CONFIG);

    // Low speed after grace (350ms) - warning
    let status = detector.check(10000, 2000, 400, &TEST_STALL_CONFIG);
    assert_eq!(status, StallStatus::Warning);

    // Still warning during debounce
    let status = detector.check(10000, 2000, 450, &TEST_STALL_CONFIG);
    assert_eq!(status, StallStatus::Warning);

    // Stalled after debounce (100ms)
    let status = detector.check(10000, 2000, 550, &TEST_STALL_CONFIG);
    assert_eq!(status, StallStatus::Stalled);
}

#[test]
fn test_stall_recovery_hysteresis() {
    let mut detector = StallDetector::new();
    detector.check(10000, 10000, 0, &TEST_STALL_CONFIG);

    // Enter warning state (after 350ms grace)
    detector.check(10000, 2000, 400, &TEST_STALL_CONFIG);

    // Speed recovers - start recovery
    let status = detector.check(10000, 5000, 450, &TEST_STALL_CONFIG);
    assert_eq!(status, StallStatus::Recovering);

    // Still recovering during hysteresis
    let status = detector.check(10000, 5000, 600, &TEST_STALL_CONFIG);
    assert_eq!(status, StallStatus::Recovering);

    // Fully recovered after hysteresis (300ms)
    let status = detector.check(10000, 5000, 800, &TEST_STALL_CONFIG);
    assert_eq!(status, StallStatus::Normal);
}

#[test]
fn test_no_stall_on_stop() {
    let mut detector = StallDetector::new();
    detector.check(10000, 10000, 0, &TEST_STALL_CONFIG);

    // Intentional stop (requested = 0) - should not trigger stall
    let status = detector.check(0, 0, 400, &TEST_STALL_CONFIG);
    assert_eq!(status, StallStatus::Normal);
}

#[test]
fn test_stall_latch_persists_after_stop() {
    // Once a stall is detected, it stays latched even if spindle stops
    // This ensures the UI shows "Stall" until power cycle reset
    let mut detector = StallDetector::new();
    detector.check(10000, 10000, 0, &TEST_STALL_CONFIG);

    // Wait for grace period (350ms), then trigger stall
    detector.check(10000, 0, 400, &TEST_STALL_CONFIG); // Warning
    detector.check(10000, 0, 600, &TEST_STALL_CONFIG); // Stalled (latched)
    assert!(detector.is_latched());

    // Spindle stops (requested = 0)
    let status = detector.check(0, 0, 1000, &TEST_STALL_CONFIG);
    // Should STILL be Stalled, not Ok - latch persists
    assert_eq!(
        status,
        StallStatus::Stalled,
        "Stall latch should persist after spindle stop"
    );
    assert!(detector.is_latched());

    // Only explicit reset() clears the latch
    detector.reset();
    assert!(!detector.is_latched());
    // After reset(), initialized is false, so next check() re-initializes -> GracePeriod
    let status = detector.check(0, 0, 2000, &TEST_STALL_CONFIG);
    assert_eq!(status, StallStatus::GracePeriod);
    // Subsequent check with 0 RPM returns Ok
    let status = detector.check(0, 0, 2100, &TEST_STALL_CONFIG);
    assert_eq!(status, StallStatus::Normal);
}

#[test]
fn test_stall_deceleration() {
    let mut detector = StallDetector::new();
    detector.check(10000, 10000, 0, &TEST_STALL_CONFIG);

    // Wait for grace period (350ms)
    detector.check(10000, 10000, 400, &TEST_STALL_CONFIG);

    // Command lower speed (deceleration)
    let status = detector.check(5000, 3000, 500, &TEST_STALL_CONFIG);
    assert_eq!(status, StallStatus::Decelerating);
}

#[test]
fn test_stall_latching() {
    let mut detector = StallDetector::new();
    detector.check(10000, 10000, 0, &TEST_STALL_CONFIG);

    // Trigger stall (after 350ms grace + 100ms debounce)
    detector.check(10000, 2000, 400, &TEST_STALL_CONFIG);
    detector.check(10000, 2000, 600, &TEST_STALL_CONFIG); // Stalled

    // Should stay latched even if speed recovers
    let status = detector.check(10000, 10000, 800, &TEST_STALL_CONFIG);
    assert_eq!(status, StallStatus::Stalled);
    assert!(detector.is_latched());

    // Reset clears latch
    detector.reset();
    assert!(!detector.is_latched());
}

#[test]
fn test_stall_initialization_gate() {
    let detector = StallDetector::new();
    assert!(!detector.is_initialized());
}

#[test]
fn test_stall_grace_period_calculation() {
    // 10000 RPM: 200 + (10000/1000)*15 = 200 + 150 = 350ms
    assert_eq!(StallDetector::calculate_grace_period(10000, 200, 15), 350);
    // 2000 RPM: 200 + (2000/1000)*15 = 200 + 30 = 230ms
    assert_eq!(StallDetector::calculate_grace_period(2000, 200, 15), 230);
    // 12000 RPM: 200 + (12000/1000)*15 = 200 + 180 = 380ms
    assert_eq!(StallDetector::calculate_grace_period(12000, 200, 15), 380);
    // 20000 RPM: 200 + (20000/1000)*15 = 200 + 300 = 500ms
    assert_eq!(StallDetector::calculate_grace_period(20000, 200, 15), 500);
}

// --- Rate-of-change stall detection tests ---

#[test]
fn test_stall_jitter_does_not_reset_grace() {
    // Jitter (small RPM changes) should NOT reset grace period
    // This is the core fix for slow stall detection
    let mut detector = StallDetector::new();
    detector.check(10000, 10000, 0, &TEST_STALL_CONFIG);

    // After initial grace period expires (350ms for 10000 RPM)
    detector.check(10000, 0, 400, &TEST_STALL_CONFIG); // Should be Warning

    // Simulate jitter: 2 RPM change over 20ms = 100 RPM/s (below 500 threshold)
    // This should NOT reset grace period and should NOT prevent stall detection
    let status = detector.check(10002, 0, 420, &TEST_STALL_CONFIG);
    // Should still be warning (not grace period) because jitter didn't reset grace
    assert_eq!(
        status,
        StallStatus::Warning,
        "Jitter should not reset grace period"
    );

    // Stall should still be detected after debounce (100ms)
    let status = detector.check(10002, 0, 520, &TEST_STALL_CONFIG);
    assert_eq!(status, StallStatus::Stalled, "Stall should be detected");
}

#[test]
fn test_stall_fast_change_resets_grace() {
    // Fast speed change should reset grace period
    let mut detector = StallDetector::new();
    detector.check(10000, 10000, 0, &TEST_STALL_CONFIG);

    // Wait for grace to expire (350ms)
    detector.check(10000, 0, 400, &TEST_STALL_CONFIG); // Warning

    // Fast change: 5000 RPM over 20ms = 250000 RPM/s (well above 500 threshold)
    let status = detector.check(15000, 0, 420, &TEST_STALL_CONFIG);
    // Should be in grace period because fast change reset it
    assert_eq!(
        status,
        StallStatus::GracePeriod,
        "Fast speed change should reset grace period"
    );
}

#[test]
fn test_stall_slow_ramp_does_not_reset_grace() {
    // Slow ramp (e.g., 100 RPM/sec) should NOT reset grace period
    let mut detector = StallDetector::new();
    detector.check(10000, 10000, 0, &TEST_STALL_CONFIG);

    // Wait for grace to expire (350ms)
    detector.check(10000, 0, 400, &TEST_STALL_CONFIG); // Warning

    // Slow ramp: 50 RPM over 1 second = 50 RPM/s (below 500 threshold)
    // Simulate small increments over time
    detector.check(10010, 0, 600, &TEST_STALL_CONFIG);
    detector.check(10020, 0, 800, &TEST_STALL_CONFIG);
    detector.check(10030, 0, 1000, &TEST_STALL_CONFIG);
    let status = detector.check(10040, 0, 1200, &TEST_STALL_CONFIG);

    // Should be warning or stalled, NOT grace period
    assert!(
        matches!(status, StallStatus::Warning | StallStatus::Stalled),
        "Slow ramp should not reset grace period, got {:?}",
        status
    );
}

#[test]
fn test_stall_rate_threshold_boundary() {
    // Test exactly at threshold boundary
    let mut detector = StallDetector::new();
    detector.check(10000, 10000, 0, &TEST_STALL_CONFIG);

    // Wait for grace to expire (350ms)
    detector.check(10000, 0, 400, &TEST_STALL_CONFIG); // Warning

    // Exactly at threshold: 500 RPM over 1000ms = 500 RPM/s
    // This should NOT reset (threshold is >, not >=)
    let status = detector.check(10500, 0, 1400, &TEST_STALL_CONFIG);
    assert!(
        matches!(status, StallStatus::Warning | StallStatus::Stalled),
        "Exactly at threshold should not reset grace, got {:?}",
        status
    );

    // Just above threshold: 501 RPM over 1000ms = 501 RPM/s
    // Need a new detector to test this case cleanly
    let mut detector2 = StallDetector::new();
    detector2.check(10000, 10000, 0, &TEST_STALL_CONFIG);
    detector2.check(10000, 0, 400, &TEST_STALL_CONFIG); // Warning

    // 600 RPM over 1000ms = 600 RPM/s (above threshold)
    let status = detector2.check(10600, 0, 1400, &TEST_STALL_CONFIG);
    assert_eq!(
        status,
        StallStatus::GracePeriod,
        "Just above threshold should reset grace"
    );
}

#[test]
fn test_stall_realistic_scenario() {
    // Realistic scenario: Running at 24000 RPM, spindle physically stops
    // With jitter causing 1-2 RPM fluctuations every 20ms
    let mut detector = StallDetector::new();

    // Start at 24000 RPM (grace period = 200 + 360 = 560ms)
    detector.check(24000, 24000, 0, &TEST_STALL_CONFIG);

    // Wait for grace period to expire
    detector.check(24000, 24000, 600, &TEST_STALL_CONFIG);

    // Spindle physically stops (actual = 0), but input has jitter
    // 20ms intervals with 1-2 RPM jitter (rate = 50-100 RPM/s, well below 500)
    detector.check(24001, 0, 620, &TEST_STALL_CONFIG); // Warning
    detector.check(24000, 0, 640, &TEST_STALL_CONFIG);
    detector.check(24002, 0, 660, &TEST_STALL_CONFIG);
    detector.check(24001, 0, 680, &TEST_STALL_CONFIG);
    detector.check(24000, 0, 700, &TEST_STALL_CONFIG);

    // After 100ms debounce, stall should be detected despite jitter
    let status = detector.check(24001, 0, 720, &TEST_STALL_CONFIG);
    assert_eq!(
        status,
        StallStatus::Stalled,
        "Stall should be detected despite jitter"
    );
}

#[test]
fn test_stall_high_jitter_bug_reproduction() {
    // BUG REPRODUCTION: Jitter that exceeds rate threshold (>500 RPM/s)
    // prevents stall detection because stall_start_time keeps getting reset
    //
    // Real-world scenario: PWM input has occasional spikes of 15+ RPM
    // between 20ms samples = 750+ RPM/s, triggering "significant_change"
    let mut detector = StallDetector::new();

    // Start at 3500 RPM (similar to 5800 spindle RPM / 1.65 belt ratio)
    // Grace period = 200 + 52 = 252ms
    detector.check(3500, 3500, 0, &TEST_STALL_CONFIG);

    // Wait for grace period to expire
    detector.check(3500, 3500, 300, &TEST_STALL_CONFIG);

    // Spindle physically stopped (actual = 0)
    // But input has occasional high jitter (15+ RPM spikes)
    // 15 RPM over 20ms = 750 RPM/s > 500 threshold = "significant change"

    // First warning
    let status = detector.check(3500, 0, 320, &TEST_STALL_CONFIG);
    assert_eq!(status, StallStatus::Warning, "Should enter warning");

    // Jitter spike: 3500 -> 3520 (20 RPM over 20ms = 1000 RPM/s)
    // This exceeds threshold and currently RESETS stall_start_time (BUG)
    detector.check(3520, 0, 340, &TEST_STALL_CONFIG);

    // More iterations with occasional spikes
    detector.check(3515, 0, 360, &TEST_STALL_CONFIG);
    detector.check(3530, 0, 380, &TEST_STALL_CONFIG); // Another spike
    detector.check(3525, 0, 400, &TEST_STALL_CONFIG);
    detector.check(3540, 0, 420, &TEST_STALL_CONFIG); // Another spike

    // After 100ms+ of continuous low actual_rpm, should be Stalled
    // But with the bug, stall_start_time keeps getting reset by jitter spikes
    // so we never accumulate 100ms of stall time
    let status = detector.check(3535, 0, 440, &TEST_STALL_CONFIG);

    // This test documents the EXPECTED behavior (should be Stalled)
    // With the current bug, this will likely return Warning instead
    assert_eq!(
        status,
        StallStatus::Stalled,
        "Stall should be detected even with high jitter - stall timer should not reset on jitter"
    );
}

// --- Stall alert auto-release tests ---

#[test]
fn test_stall_alert_remains_active_while_spindle_commanded() {
    // Stall occurs, spindle command stays high -> alert stays active indefinitely
    let mut detector = StallDetector::new();

    // Start and wait for grace period (350ms)
    detector.check(10000, 10000, 0, &TEST_STALL_CONFIG);
    detector.check(10000, 10000, 400, &TEST_STALL_CONFIG);

    // Stall condition (actual = 0)
    detector.check(10000, 0, 500, &TEST_STALL_CONFIG); // Warning
    detector.check(10000, 0, 700, &TEST_STALL_CONFIG); // Stalled (latched)

    // Verify alert is active while spindle is commanded
    assert!(
        detector.is_alert_active(10000, 700),
        "Alert should be active while spindle is commanded"
    );

    // Alert should stay active even after a long time if spindle command stays high
    assert!(
        detector.is_alert_active(10000, 10000),
        "Alert should remain active indefinitely with spindle commanded"
    );
}

#[test]
fn test_stall_alert_releases_after_2s_at_zero_rpm() {
    // Stall occurs, spindle command drops to 0, wait 2s -> alert releases
    let mut detector = StallDetector::new();

    // Start and wait for grace period (10000 RPM: 200 + 10*15 = 350ms)
    detector.check(10000, 10000, 0, &TEST_STALL_CONFIG);
    detector.check(10000, 10000, 400, &TEST_STALL_CONFIG);

    // Stall condition (actual = 0) -> Warning then Stalled
    detector.check(10000, 0, 500, &TEST_STALL_CONFIG);
    detector.check(10000, 0, 700, &TEST_STALL_CONFIG); // Stalled (latched)

    // Alert is active while spindle commanded
    assert!(detector.is_alert_active(10000, 700));

    // Spindle command drops to 0 (Carvera stops)
    detector.check(0, 0, 1000, &TEST_STALL_CONFIG);

    // Alert should still be active immediately after (countdown started)
    assert!(
        detector.is_alert_active(0, 1000),
        "Alert should still be active right after spindle command drops"
    );

    // Alert should still be active at 1.9 seconds
    assert!(
        detector.is_alert_active(0, 2999),
        "Alert should be active before 2s timeout"
    );

    // Alert should be released after 2 seconds (1000 + 2000 = 3000)
    assert!(
        !detector.is_alert_active(0, 3000),
        "Alert should be released after 2s at zero RPM"
    );
}

#[test]
fn test_stall_alert_countdown_resets_on_spindle_restart() {
    // Stall occurs, spindle drops to 0 for 1s, then spindle restarts
    // -> countdown resets, alert stays active
    let mut detector = StallDetector::new();

    // Start and trigger stall (grace = 200 + 10*15 = 350ms)
    detector.check(10000, 10000, 0, &TEST_STALL_CONFIG);
    detector.check(10000, 10000, 400, &TEST_STALL_CONFIG);
    detector.check(10000, 0, 500, &TEST_STALL_CONFIG);
    detector.check(10000, 0, 700, &TEST_STALL_CONFIG); // Stalled

    // Spindle command drops to 0 (starts countdown)
    detector.check(0, 0, 1000, &TEST_STALL_CONFIG);

    // Wait 1 second (not yet at 2s release point)
    assert!(
        detector.is_alert_active(0, 2000),
        "Alert should still be active at 1s"
    );

    // Spindle restarts (countdown should reset and latch clears)
    detector.check(10000, 0, 2500, &TEST_STALL_CONFIG);

    // Latch should be cleared since spindle restarted
    assert!(
        !detector.is_latched(),
        "Latch should be cleared when spindle restarts"
    );

    // Alert should no longer be active since latch cleared
    assert!(
        !detector.is_alert_active(10000, 2500),
        "Alert should not be active after latch clears"
    );
}

#[test]
fn test_stall_visual_latch_persists_after_alert_release() {
    // After alert releases, stall_latched still true (for display purposes)
    let mut detector = StallDetector::new();

    // Start and trigger stall (grace = 200 + 10*15 = 350ms)
    detector.check(10000, 10000, 0, &TEST_STALL_CONFIG);
    detector.check(10000, 10000, 400, &TEST_STALL_CONFIG);
    detector.check(10000, 0, 500, &TEST_STALL_CONFIG);
    let status = detector.check(10000, 0, 700, &TEST_STALL_CONFIG);
    assert_eq!(status, StallStatus::Stalled);

    // Spindle command drops to 0
    detector.check(0, 0, 1000, &TEST_STALL_CONFIG);

    // Wait for alert to release (2s after spindle dropped: 1000 + 2000 = 3000)
    let alert_active = detector.is_alert_active(0, 3100);
    assert!(!alert_active, "Alert should be released after 2s");

    // But visual latch should persist (is_latched is true, status is Stalled)
    assert!(
        detector.is_latched(),
        "Visual latch should persist after alert release"
    );
}

#[test]
fn test_stall_visual_latch_clears_on_spindle_restart() {
    // Spindle stops after stall, then restarts -> visual latch clears, back to normal
    let mut detector = StallDetector::new();

    // Start and trigger stall (grace = 200 + 10*15 = 350ms)
    detector.check(10000, 10000, 0, &TEST_STALL_CONFIG);
    detector.check(10000, 10000, 400, &TEST_STALL_CONFIG);
    detector.check(10000, 0, 500, &TEST_STALL_CONFIG);
    detector.check(10000, 0, 700, &TEST_STALL_CONFIG); // Stalled

    // Verify latched
    assert!(detector.is_latched(), "Should be latched after stall");

    // Spindle command drops to 0 (Carvera stops)
    detector.check(0, 0, 1000, &TEST_STALL_CONFIG);

    // Verify still latched and alert release countdown started
    assert!(
        detector.is_latched(),
        "Should still be latched when spindle stops"
    );
    assert!(
        detector.is_alert_active(0, 1000),
        "Alert should be active right after spindle stops"
    );

    // Spindle command increases (restart)
    let status = detector.check(10000, 5000, 2000, &TEST_STALL_CONFIG);

    // Visual latch should be cleared
    assert!(
        !detector.is_latched(),
        "Visual latch should clear on spindle restart"
    );

    // Status should not be Stalled anymore (should be in grace period or normal)
    assert_ne!(
        status,
        StallStatus::Stalled,
        "Status should not be Stalled after restart"
    );

    // Alert should not be active
    assert!(
        !detector.is_alert_active(10000, 2000),
        "Alert should not be active after restart"
    );
}

#[test]
fn test_stall_restart_with_zero_actual_rpm() {
    // Bug reproduction: restart spindle when actual_rpm is still 0
    // Should get grace period, not immediate re-stall
    let mut detector = StallDetector::new();

    // Start and trigger stall (grace = 200 + 10*15 = 350ms)
    detector.check(10000, 10000, 0, &TEST_STALL_CONFIG);
    detector.check(10000, 10000, 400, &TEST_STALL_CONFIG);
    detector.check(10000, 0, 500, &TEST_STALL_CONFIG);
    detector.check(10000, 0, 700, &TEST_STALL_CONFIG); // Stalled

    // Spindle command drops to 0 (Carvera stops)
    detector.check(0, 0, 1000, &TEST_STALL_CONFIG);

    // Wait for alert to release (1000 + 2000 = 3000)
    assert!(!detector.is_alert_active(0, 3500));

    // Restart spindle - actual_rpm is STILL 0 (hasn't spun up yet)
    let status = detector.check(10000, 0, 4000, &TEST_STALL_CONFIG);

    // Should be in grace period, NOT warning/stalled
    assert_eq!(
        status,
        StallStatus::GracePeriod,
        "Restart should give grace period even with actual_rpm=0"
    );

    // Latch should be cleared
    assert!(!detector.is_latched(), "Latch should clear on restart");
}

#[test]
fn test_no_false_stall_on_normal_restart() {
    // Bug: After normal stop (no stall) and restart, stall falsely triggers
    // because grace period timer (last_speed_change_time) wasn't reset
    let mut detector = StallDetector::new();

    // Initialize and run spindle normally (grace = 200 + 10*15 = 350ms)
    detector.check(0, 0, 0, &TEST_STALL_CONFIG);
    detector.check(10000, 0, 100, &TEST_STALL_CONFIG); // Start
    detector.check(10000, 10000, 500, &TEST_STALL_CONFIG); // Running at speed

    // Stop spindle normally (no stall occurred)
    let status = detector.check(0, 0, 1000, &TEST_STALL_CONFIG);
    assert_eq!(status, StallStatus::Normal);
    assert!(!detector.is_latched(), "No stall should be latched");

    // Wait a bit (simulating user pause) - note last_speed_change_time was at 100
    // Without the fix, this old timestamp would make grace period appear expired

    // Restart spindle - motor hasn't spun up yet (actual=0)
    // This should NOT trigger stall - should be in grace period
    let status = detector.check(10000, 0, 3000, &TEST_STALL_CONFIG);
    assert_ne!(
        status,
        StallStatus::Stalled,
        "Should not stall immediately on restart - grace period should apply"
    );
    assert_eq!(
        status,
        StallStatus::GracePeriod,
        "Should be in grace period after restart"
    );

    // Even after 100ms debounce time, should still be in grace period
    let status = detector.check(10000, 500, 3200, &TEST_STALL_CONFIG);
    assert_ne!(
        status,
        StallStatus::Stalled,
        "Should still be in grace period, motor is accelerating"
    );
}

#[test]
fn test_stall_not_stale_after_reset_and_long_gap() {
    // Bug: during calibration suppression, reset() is called but check() is
    // skipped for many seconds. reset() must clear timing state so when
    // check() resumes, the grace period is fresh — not expired from a stale
    // last_speed_change_time set 30+ seconds ago.
    let mut detector = StallDetector::new();

    // Normal init and idle
    detector.check(0, 0, 0, &TEST_STALL_CONFIG);
    detector.check(0, 0, 1000, &TEST_STALL_CONFIG);

    // Simulate calibration suppression: reset() + 30s gap with no check()
    detector.reset();

    // User sends M3 S4200 (motor RPM ~2559) after 30s
    let status = detector.check(2559, 0, 31000, &TEST_STALL_CONFIG);

    // Should get fresh grace period, not immediate stall
    assert_eq!(
        status,
        StallStatus::GracePeriod,
        "New speed command after reset + long gap should get grace period"
    );
}

#[test]
fn test_stall_recovery_interrupted_by_new_stall() {
    // Scenario: speed drops -> Warning -> recovers (Recovering) ->
    // speed drops AGAIN before recovery_ms expires.
    //
    // The first stall_start_time is preserved during recovery (never cleared),
    // so when speed drops again after debounce has already been exceeded,
    // the detector immediately latches to Stalled.

    // Case 1: Recovery interrupted AFTER debounce exceeded -> immediate Stalled
    let mut detector = StallDetector::new();
    detector.check(10000, 10000, 0, &TEST_STALL_CONFIG);

    // Grace period for 10000 RPM = 200 + 10*15 = 350ms
    // After grace, speed below threshold (30% of 10000 = 3000) -> Warning
    // stall_start_time = 400
    let status = detector.check(10000, 2000, 400, &TEST_STALL_CONFIG);
    assert_eq!(status, StallStatus::Warning);

    // Speed recovers above threshold -> Recovering
    let status = detector.check(10000, 5000, 450, &TEST_STALL_CONFIG);
    assert_eq!(status, StallStatus::Recovering);

    // Still recovering (recovery_ms = 300, only 100ms elapsed)
    let status = detector.check(10000, 5000, 550, &TEST_STALL_CONFIG);
    assert_eq!(status, StallStatus::Recovering);

    // Speed drops AGAIN at t=600. stall_start_time=400, debounce_ms=100.
    // 600 >= 400 + 100, so debounce already exceeded -> immediate Stalled
    let status = detector.check(10000, 2000, 600, &TEST_STALL_CONFIG);
    assert_eq!(
        status,
        StallStatus::Stalled,
        "Recovery interrupted after debounce exceeded: should latch immediately"
    );
    assert!(detector.is_latched());

    // Case 2: Recovery interrupted BEFORE debounce exceeded -> Warning
    let mut detector2 = StallDetector::new();
    detector2.check(10000, 10000, 0, &TEST_STALL_CONFIG);

    // After grace (350ms): Warning at t=400, stall_start_time = 400
    detector2.check(10000, 2000, 400, &TEST_STALL_CONFIG);

    // Recover at t=420 (only 20ms into debounce; debounce requires 400+100=500)
    let status = detector2.check(10000, 5000, 420, &TEST_STALL_CONFIG);
    assert_eq!(status, StallStatus::Recovering);

    // Drop again at t=450 (stall_start_time=400, 450 < 500) -> Warning, not Stalled
    let status = detector2.check(10000, 2000, 450, &TEST_STALL_CONFIG);
    assert_eq!(
        status,
        StallStatus::Warning,
        "Recovery interrupted before debounce exceeded: should be Warning"
    );
}

#[test]
fn test_is_alert_active_at_exact_boundary_timestamp() {
    // When now_ms equals alert_release_time exactly, the alert should be inactive.
    // The logic is: now_ms < release_time, so at exactly release_time it returns false.
    let mut detector = StallDetector::new();
    detector.check(10000, 10000, 0, &TEST_STALL_CONFIG);

    // Trigger stall: grace(350ms) -> warning -> stalled
    detector.check(10000, 0, 400, &TEST_STALL_CONFIG);
    detector.check(10000, 0, 600, &TEST_STALL_CONFIG);
    assert!(detector.is_latched());

    // Spindle command goes to 0 -> starts alert release countdown
    detector.check(0, 0, 1000, &TEST_STALL_CONFIG);
    // alert_release_time = 1000 + 2000 = 3000

    // Just before release: alert should be active
    assert!(
        detector.is_alert_active(0, 2999),
        "Alert should be active just before release time"
    );

    // Exactly at release time: alert should be inactive (now_ms < 3000 is false)
    assert!(
        !detector.is_alert_active(0, 3000),
        "Alert should be inactive at exactly release time"
    );

    // After release time: also inactive
    assert!(
        !detector.is_alert_active(0, 3001),
        "Alert should be inactive after release time"
    );
}

#[test]
fn test_is_alert_active_with_non_latched_detector() {
    // A detector that has never latched should always return false for is_alert_active,
    // regardless of RPM or time values
    let detector = StallDetector::new();

    assert!(
        !detector.is_alert_active(0, 0),
        "Non-latched detector: alert inactive with zero RPM and time"
    );
    assert!(
        !detector.is_alert_active(10000, 5000),
        "Non-latched detector: alert inactive with active RPM"
    );
    assert!(
        !detector.is_alert_active(0, 99999),
        "Non-latched detector: alert inactive at any time"
    );
}

#[test]
fn test_low_rpm_restart_gets_grace_period() {
    // Edge case: starting at very low RPM where rpm_delta < 100
    // This verifies behavior for unlikely but possible scenarios
    let mut detector = StallDetector::new();

    // Initialize at 0
    detector.check(0, 0, 0, &TEST_STALL_CONFIG);

    // Start at 50 RPM (below the 100 RPM threshold for substantial_change)
    // Note: rpm_delta = 50, which is < 100, so substantial_change won't trigger
    // However, rate = 50 RPM / 0.1s = 500 RPM/s which equals threshold (not >)
    let status = detector.check(50, 0, 100, &TEST_STALL_CONFIG);

    // With rate = 500 and threshold check being >, this won't reset grace
    // But we're still within the initial grace period from initialization
    // Grace period = 200 + (50/1000)*15 = 200ms, and we're at 100ms
    assert_eq!(
        status,
        StallStatus::GracePeriod,
        "Low RPM start should still be in initial grace period"
    );

    // After initial grace expires, a stop-then-low-rpm-restart scenario
    // This is the edge case that could theoretically cause issues
    detector.check(50, 50, 1000, &TEST_STALL_CONFIG); // Running
    detector.check(0, 0, 2000, &TEST_STALL_CONFIG); // Stop

    // Restart at low RPM after a long pause
    // time_delta = 5000 - 2000 = 3000ms, rpm_delta = 50
    // rate = 50 * 1000 / 3000 = 16.67 RPM/s (well below 500 threshold)
    // substantial_change = false (rate < 500)
    // last_speed_change_time was set at initialization (0ms) or substantial change
    let status = detector.check(50, 0, 5000, &TEST_STALL_CONFIG);

    // This is the edge case: grace period may have expired
    // At 50 RPM, grace = 200 + 0 = 200ms (50/1000*15 rounds to 0)
    // If last_speed_change_time wasn't updated, grace would be long expired
    // In practice, CNC spindles don't operate at 50 RPM, so this is acceptable
    // Document the behavior rather than assert a specific outcome
    assert!(
        matches!(
            status,
            StallStatus::GracePeriod | StallStatus::Warning | StallStatus::Normal
        ),
        "Low RPM restart behavior is acceptable (got {:?})",
        status
    );
}
