//! Properties that hold across calls, on concrete values.
use carvera_spindle::calibration::{
    apply_calibration, clear_calibration, duty_to_calibrated_rpm, get_calibration_point,
    read_calibration_table, CalEvent, CalibrationPoint, CalibrationRecorder, CalibrationStore,
    CalibrationTable, ANNOUNCE_MS, CAL_START_RPM, CAL_STEPS, CAL_STEP_RPM,
};
use carvera_spindle::conversion::motor_rpm_to_output_duty;
use carvera_spindle::flash_store::{deserialize_calibration, serialize_calibration, SECTOR_SIZE};
use carvera_spindle::state::{
    get_active_error_type, is_safety_shutdown, report_escon_alert, report_stall_alert,
    report_stall_latched, report_thermal, ControllerState,
};
use carvera_spindle::display::ErrorType;
use carvera_spindle::{
    StabilizationStatus, StabilizationTracker, StallConfig, StallDetector, StallStatus,
};

const CONFIG: StallConfig = StallConfig {
    threshold_pct: 30,
    base_grace_ms: 200,
    rpm_grace_factor: 15,
    debounce_ms: 100,
    recovery_ms: 300,
    rate_threshold: 500,
};

#[test]
fn test_recorder_full_run_fills_table_in_step_order() {
    let mut rec = CalibrationRecorder::new(0);
    let mut t: u64 = ANNOUNCE_MS + 1;
    rec.update(0, t);
    let mut duty: u16 = 500;
    let mut recorded = 0usize;
    let mut table = None;
    for _ in 0..200_000 {
        t += 1;
        match rec.update(duty, t) {
            CalEvent::StepRecorded(idx, rpm, measured) => {
                assert_eq!(idx as usize, recorded);
                assert_eq!(rpm, CAL_START_RPM + idx * CAL_STEP_RPM);
                assert_eq!(measured, duty);
                recorded += 1;
                // The next step comes as a speed change of 20 counts
                duty += 20;
            }
            CalEvent::Complete(t) => {
                table = Some(t);
                break;
            }
            CalEvent::Aborted => panic!("aborted"),
            CalEvent::Idle => {}
        }
    }
    let table = table.expect("calibration should complete");
    assert_eq!(recorded, CAL_STEPS);
    assert_eq!(table.count as usize, CAL_STEPS);
    for i in 0..CAL_STEPS {
        assert_eq!(table.points[i].expected_rpm, CAL_START_RPM + i as u16 * CAL_STEP_RPM);
        assert_eq!(table.points[i].measured_duty, 500 + 20 * i as u16);
    }
}

#[test]
fn test_store_gives_back_what_was_written() {
    let mut store = CalibrationStore::new();
    let mut table = CalibrationTable::default();
    table.count = 3;
    for i in 0..3 {
        table.points[i] = CalibrationPoint { expected_rpm: 750 + 50 * i as u16, measured_duty: 400 + i as u16 };
    }
    apply_calibration(&mut store, &table);
    assert_eq!(read_calibration_table(&store), Some(table));
    for i in 0..3 {
        assert_eq!(get_calibration_point(&store, i), Some(table.points[i]));
    }
    assert_eq!(get_calibration_point(&store, 3), None);
    clear_calibration(&mut store);
    assert_eq!(read_calibration_table(&store), None);
    assert_eq!(get_calibration_point(&store, 0), None);
}

#[test]
fn test_flash_image_round_trip_through_store() {
    let mut table = CalibrationTable::default();
    table.count = 4;
    for i in 0..4 {
        table.points[i] = CalibrationPoint { expected_rpm: 750 + 50 * i as u16, measured_duty: 367 + 25 * i as u16 };
    }
    let mut buf = [0u8; SECTOR_SIZE];
    serialize_calibration(&table, &mut buf);
    let loaded = deserialize_calibration(&buf).expect("valid image");
    let mut store = CalibrationStore::new();
    apply_calibration(&mut store, &loaded);
    assert_eq!(read_calibration_table(&store), Some(table));
}

#[test]
fn test_interpolation_stays_within_bracket() {
    let mut store = CalibrationStore::new();
    let mut table = CalibrationTable::default();
    table.count = 2;
    table.points[0] = CalibrationPoint { expected_rpm: 750, measured_duty: 400 };
    table.points[1] = CalibrationPoint { expected_rpm: 800, measured_duty: 420 };
    apply_calibration(&mut store, &table);
    for duty in 0..=1000u16 {
        let rpm = duty_to_calibrated_rpm(&store, duty);
        assert!((750..=800).contains(&rpm), "duty {} gave {}", duty, rpm);
    }
    // A bracket whose RPM falls as the duty rises
    table.points[1] = CalibrationPoint { expected_rpm: 700, measured_duty: 420 };
    apply_calibration(&mut store, &table);
    for duty in 0..=1000u16 {
        let rpm = duty_to_calibrated_rpm(&store, duty);
        assert!((700..=750).contains(&rpm), "duty {} gave {}", duty, rpm);
    }
}

#[test]
fn test_output_duty_never_decreases_with_speed() {
    let mut prev = motor_rpm_to_output_duty(0, 0, 12500);
    for rpm in 1..14000u32 {
        let d = motor_rpm_to_output_duty(rpm, 0, 12500);
        assert!(d >= prev, "rpm {}: {} < {}", rpm, d, prev);
        prev = d;
    }
    assert_eq!(prev, 900);
}

#[test]
fn test_safety_latch_survives_everything_else() {
    let mut st = ControllerState::new();
    report_thermal(&mut st);
    report_stall_alert(&mut st, true);
    report_stall_alert(&mut st, false);
    report_stall_latched(&mut st, false);
    report_escon_alert(&mut st, true);
    report_escon_alert(&mut st, false);
    assert!(is_safety_shutdown(&st));
    assert_eq!(get_active_error_type(&st), ErrorType::Thermal);
}

#[test]
fn test_stall_latch_holds_then_alert_releases() {
    let mut d = StallDetector::new();
    d.check(10000, 10000, 0, &CONFIG);
    assert_eq!(d.check(10000, 1000, 400, &CONFIG), StallStatus::Warning);
    assert_eq!(d.check(10000, 1000, 500, &CONFIG), StallStatus::Stalled);
    // Speed back to normal: still latched while commanded
    for t in (600..3000).step_by(100) {
        assert_eq!(d.check(10000, 10000, t, &CONFIG), StallStatus::Stalled);
        assert!(d.is_alert_active(10000, t));
    }
    // Command zero at t=3000: alert releases 2 s later, the latch stays
    assert_eq!(d.check(0, 0, 3000, &CONFIG), StallStatus::Stalled);
    assert!(d.is_alert_active(0, 4999));
    assert!(!d.is_alert_active(0, 5000));
    assert_eq!(d.check(0, 0, 6000, &CONFIG), StallStatus::Stalled);
    assert!(d.is_latched());
    // Restart clears the latch and begins a new grace period
    assert_eq!(d.check(10000, 0, 6020, &CONFIG), StallStatus::GracePeriod);
    assert!(!d.is_latched());
}

#[test]
fn test_stall_needs_debounce_before_latching() {
    let mut d = StallDetector::new();
    d.check(10000, 10000, 0, &CONFIG);
    assert_eq!(d.check(10000, 1000, 400, &CONFIG), StallStatus::Warning);
    assert_eq!(d.check(10000, 1000, 499, &CONFIG), StallStatus::Warning);
    assert!(!d.is_latched());
    assert_eq!(d.check(10000, 1000, 500, &CONFIG), StallStatus::Stalled);
    assert!(d.is_latched());
}

#[test]
fn test_idle_spindle_is_never_stalled() {
    let mut d = StallDetector::new();
    d.check(0, 0, 0, &CONFIG);
    for t in (20..5000).step_by(20) {
        assert_eq!(d.check(0, 0, t, &CONFIG), StallStatus::Normal);
    }
    assert!(!d.is_latched());
}

#[test]
fn test_stabilization_idle_request_is_idle() {
    let mut tr = StabilizationTracker::new();
    tr.check(0, 0, 0);
    tr.check(10000, 0, 20);
    let (status, time) = tr.check(0, 5000, 40);
    assert_eq!(status, StabilizationStatus::Idle);
    assert!(time.is_none());
    let (status, _) = tr.check(0, 0, 10_000);
    assert_eq!(status, StabilizationStatus::Idle);
}

#[test]
fn test_stall_recovery_needs_hysteresis() {
    let mut d = StallDetector::new();
    d.check(10000, 10000, 0, &CONFIG);
    assert_eq!(d.check(10000, 1000, 400, &CONFIG), StallStatus::Warning);
    assert_eq!(d.check(10000, 5000, 450, &CONFIG), StallStatus::Recovering);
    assert_eq!(d.check(10000, 5000, 749, &CONFIG), StallStatus::Recovering);
    assert_eq!(d.check(10000, 5000, 750, &CONFIG), StallStatus::Normal);
    assert!(!d.is_latched());
}

#[test]
fn test_median_of_largest_pair() {
    assert_eq!(carvera_spindle::median_u32(&[u32::MAX, u32::MAX]), u32::MAX);
    assert_eq!(carvera_spindle::median_u32(&[u32::MAX, u32::MAX - 1]), u32::MAX - 1);
    assert_eq!(carvera_spindle::periods_to_rpm(&[u32::MAX, u32::MAX], 1), 0);
}

#[test]
fn test_ring_history_keeps_last_values_by_slot() {
    let mut b = carvera_spindle::CircularBuffer::<4>::new();
    let history = [11u32, 12, 13, 14, 15, 16, 17];
    for &v in &history {
        b.push(v);
    }
    // Value j of the history sits in slot j % 4: the last four, rotated
    assert_eq!(b.as_slice(), &[15, 16, 17, 14]);
    assert_eq!(b.len(), 4);
}
