//! Calibration store: storage, lookup and interpolation.
use carvera_spindle::calibration::{
    apply_calibration, calibration_count, clear_calibration, correct_duty, duty_to_calibrated_rpm,
    get_calibration_point, has_calibration, read_calibration_table, CalibrationPoint,
    CalibrationStore, CalibrationTable, CAL_START_RPM, CAL_STEPS, CAL_STEP_RPM,
};
use carvera_spindle::state::config::{CARVERA_SPINDLE_MAX_RPM, MIN_ENABLE_RPM};

fn two_point_cal_table(rpm1: u16, duty1: u16, rpm2: u16, duty2: u16) -> CalibrationTable {
    let mut pts = [CalibrationPoint::default(); CAL_STEPS];
    pts[0] = CalibrationPoint {
        expected_rpm: rpm1,
        measured_duty: duty1,
    };
    pts[1] = CalibrationPoint {
        expected_rpm: rpm2,
        measured_duty: duty2,
    };
    CalibrationTable {
        points: pts,
        count: 2,
    }
}

fn full_386_point_cal_table(offset: u16) -> CalibrationTable {
    let mut table = CalibrationTable::default();
    table.count = CAL_STEPS as u16;
    for i in 0..CAL_STEPS {
        let rpm = CAL_START_RPM + i as u16 * CAL_STEP_RPM;
        let ideal_duty = ((rpm as u32 * 10000) / CARVERA_SPINDLE_MAX_RPM) as u16;
        table.points[i] = CalibrationPoint {
            expected_rpm: rpm,
            measured_duty: ideal_duty + offset,
        };
    }
    table
}

#[test]
fn test_correct_duty_no_calibration() {
    let store = CalibrationStore::new();
    assert_eq!(correct_duty(&store, 5000), 5000);
}

#[test]
fn test_correct_duty_with_calibration() {
    let mut store = CalibrationStore::new();
    let table = two_point_cal_table(500, 300, 1000, 550);
    apply_calibration(&mut store, &table);

    let ideal_500 =
        ((500u32 * 10000 + CARVERA_SPINDLE_MAX_RPM / 2) / CARVERA_SPINDLE_MAX_RPM) as u16;
    assert_eq!(correct_duty(&store, 300), ideal_500);

    let ideal_1000 =
        ((1000u32 * 10000 + CARVERA_SPINDLE_MAX_RPM / 2) / CARVERA_SPINDLE_MAX_RPM) as u16;
    assert_eq!(correct_duty(&store, 550), ideal_1000);

    let corrected = correct_duty(&store, 425);
    let ideal_750 =
        ((750u32 * 10000 + CARVERA_SPINDLE_MAX_RPM / 2) / CARVERA_SPINDLE_MAX_RPM) as u16;
    assert_eq!(
        corrected, ideal_750,
        "Expected {}, got {}",
        ideal_750, corrected
    );

    assert_eq!(correct_duty(&store, 100), ideal_500);
    assert_eq!(correct_duty(&store, 800), ideal_1000);
}

#[test]
fn test_correct_duty_bypass_during_calibration() {
    let mut store = CalibrationStore::new();
    let table = two_point_cal_table(500, 300, 1000, 550);
    apply_calibration(&mut store, &table);

    store.set_recording(false);
    let corrected = correct_duty(&store, 300);
    let ideal_500 =
        ((500u32 * 10000 + CARVERA_SPINDLE_MAX_RPM / 2) / CARVERA_SPINDLE_MAX_RPM) as u16;
    assert_eq!(corrected, ideal_500);

    store.set_recording(true);
    assert_eq!(correct_duty(&store, 300), 300);
    assert_eq!(correct_duty(&store, 5000), 5000);
}

#[test]
fn test_apply_and_get_calibration() {
    let mut store = CalibrationStore::new();
    let mut table = CalibrationTable::default();
    table.points[0] = CalibrationPoint {
        expected_rpm: 500,
        measured_duty: 245,
    };
    table.points[1] = CalibrationPoint {
        expected_rpm: 750,
        measured_duty: 367,
    };
    table.count = 2;

    apply_calibration(&mut store, &table);
    assert!(has_calibration(&store));
    assert_eq!(calibration_count(&store), 2);

    let p0 = get_calibration_point(&store, 0).unwrap();
    assert_eq!(p0.expected_rpm, 500);
    assert_eq!(p0.measured_duty, 245);

    let p1 = get_calibration_point(&store, 1).unwrap();
    assert_eq!(p1.expected_rpm, 750);
    assert_eq!(p1.measured_duty, 367);

    assert!(get_calibration_point(&store, 2).is_none());
}

#[test]
fn test_has_calibration_without_data() {
    let store = CalibrationStore::new();
    assert!(!has_calibration(&store));
    assert_eq!(calibration_count(&store), 0);
}

#[test]
fn test_get_calibration_point_out_of_bounds() {
    let store = CalibrationStore::new();
    assert!(get_calibration_point(&store, 0).is_none());
    assert!(get_calibration_point(&store, 100).is_none());
}

#[test]
fn test_correct_duty_identical_measured_duties() {
    let mut store = CalibrationStore::new();
    let table = two_point_cal_table(500, 300, 750, 300);
    apply_calibration(&mut store, &table);

    let result = correct_duty(&store, 300);
    assert!(result > 0);
}

#[test]
fn test_correct_duty_single_point() {
    let mut store = CalibrationStore::new();
    let mut table = CalibrationTable::default();
    table.points[0] = CalibrationPoint {
        expected_rpm: 5000,
        measured_duty: 2500,
    };
    table.count = 1;
    apply_calibration(&mut store, &table);

    let ideal =
        ((5000u32 * 10000 + CARVERA_SPINDLE_MAX_RPM / 2) / CARVERA_SPINDLE_MAX_RPM) as u16;
    assert_eq!(correct_duty(&store, 1000), ideal);
    assert_eq!(correct_duty(&store, 2500), ideal);
    assert_eq!(correct_duty(&store, 5000), ideal);
}

#[test]
fn test_correct_duty_full_range_monotonic() {
    let mut store = CalibrationStore::new();
    let table = full_386_point_cal_table(50);
    apply_calibration(&mut store, &table);

    let mut prev = correct_duty(&store, table.points[0].measured_duty);
    for i in 1..CAL_STEPS {
        let corrected = correct_duty(&store, table.points[i].measured_duty);
        assert!(
            corrected >= prev,
            "correct_duty not monotonic at step {}: {} < {}",
            i,
            corrected,
            prev
        );
        prev = corrected;
    }
}

#[test]
fn test_correct_duty_zero_duty_input() {
    let mut store = CalibrationStore::new();
    let table = two_point_cal_table(500, 200, 1000, 450);
    apply_calibration(&mut store, &table);

    assert_eq!(correct_duty(&store, 0), 0);
}

#[test]
fn test_correct_duty_zero_input_does_not_exceed_enable_threshold() {
    let mut store = CalibrationStore::new();
    let table = two_point_cal_table(CAL_START_RPM, 400, 1500, 800);
    apply_calibration(&mut store, &table);

    let corrected = correct_duty(&store, 0);
    let min_enable_duty = ((MIN_ENABLE_RPM as u32 * 10000
        + CARVERA_SPINDLE_MAX_RPM / 2)
        / CARVERA_SPINDLE_MAX_RPM) as u16;

    assert!(
        corrected <= min_enable_duty,
        "correct_duty(&store, 0) = {} exceeds min_enable_duty = {} -- would falsely enable spindle on startup",
        corrected,
        min_enable_duty,
    );
}

#[test]
fn test_duty_to_calibrated_rpm_no_calibration() {
    let store = CalibrationStore::new();
    for duty in [0u16, 100, 500, 2447, 5000, 9786, 10000] {
        let expected = ((duty as u32 * CARVERA_SPINDLE_MAX_RPM + 5000) / 10000) as u32;
        assert_eq!(
            duty_to_calibrated_rpm(&store, duty),
            expected,
            "duty={} expected={} got={}",
            duty,
            expected,
            duty_to_calibrated_rpm(&store, duty)
        );
    }
}

#[test]
fn test_duty_to_calibrated_rpm_exact_at_calibration_point() {
    let mut store = CalibrationStore::new();
    let table = CalibrationTable {
        points: {
            let mut pts = [CalibrationPoint::default(); CAL_STEPS];
            pts[0] = CalibrationPoint {
                expected_rpm: 4750,
                measured_duty: 2300,
            };
            pts[1] = CalibrationPoint {
                expected_rpm: 5000,
                measured_duty: 2447,
            };
            pts[2] = CalibrationPoint {
                expected_rpm: 5250,
                measured_duty: 2590,
            };
            pts
        },
        count: 3,
    };
    apply_calibration(&mut store, &table);

    assert_eq!(
        duty_to_calibrated_rpm(&store, 2447),
        5000,
        "Should return exact 5000 RPM at calibration point, not 5001"
    );
    assert_eq!(duty_to_calibrated_rpm(&store, 2300), 4750);
    assert_eq!(duty_to_calibrated_rpm(&store, 2590), 5250);
}

#[test]
fn test_duty_to_calibrated_rpm_regression_3500() {
    let mut store = CalibrationStore::new();
    let table = CalibrationTable {
        points: {
            let mut pts = [CalibrationPoint::default(); CAL_STEPS];
            pts[0] = CalibrationPoint {
                expected_rpm: 3250,
                measured_duty: 1590,
            };
            pts[1] = CalibrationPoint {
                expected_rpm: 3500,
                measured_duty: 1713,
            };
            pts[2] = CalibrationPoint {
                expected_rpm: 3750,
                measured_duty: 1835,
            };
            pts
        },
        count: 3,
    };
    apply_calibration(&mut store, &table);

    assert_eq!(
        duty_to_calibrated_rpm(&store, 1713),
        3500,
        "Should return exact 3500 RPM at calibration point"
    );
}

#[test]
fn test_duty_to_calibrated_rpm_zero_duty_clamped() {
    let mut store = CalibrationStore::new();
    let table = CalibrationTable {
        points: {
            let mut pts = [CalibrationPoint::default(); CAL_STEPS];
            pts[0] = CalibrationPoint {
                expected_rpm: CAL_START_RPM,
                measured_duty: 400,
            };
            pts[1] = CalibrationPoint {
                expected_rpm: 1000,
                measured_duty: 550,
            };
            pts
        },
        count: 2,
    };
    apply_calibration(&mut store, &table);

    let rpm = duty_to_calibrated_rpm(&store, 0);
    assert_eq!(
        rpm, CAL_START_RPM as u32,
        "duty=0 should clamp to first calibration point RPM ({}), got {}",
        CAL_START_RPM, rpm
    );
}

#[test]
fn test_interpolation_s2501_no_large_jump() {
    let mut store = CalibrationStore::new();
    let table = CalibrationTable {
        points: {
            let mut pts = [CalibrationPoint::default(); CAL_STEPS];
            pts[0] = CalibrationPoint {
                expected_rpm: 2450,
                measured_duty: ((2450u32 * 10000) / CARVERA_SPINDLE_MAX_RPM) as u16 + 5,
            };
            pts[1] = CalibrationPoint {
                expected_rpm: 2500,
                measured_duty: ((2500u32 * 10000) / CARVERA_SPINDLE_MAX_RPM) as u16 + 5,
            };
            pts[2] = CalibrationPoint {
                expected_rpm: 2550,
                measured_duty: ((2550u32 * 10000) / CARVERA_SPINDLE_MAX_RPM) as u16 + 5,
            };
            pts
        },
        count: 3,
    };
    apply_calibration(&mut store, &table);

    let duty_s2501 = ((2501u32 * 10000) / CARVERA_SPINDLE_MAX_RPM) as u16 + 5;
    let rpm = duty_to_calibrated_rpm(&store, duty_s2501);
    let error = (rpm as i32 - 2501).unsigned_abs();
    assert!(
        error <= 5,
        "S2501 should give ~2501 RPM, got {} (error={})",
        rpm,
        error
    );

    let duty_2500 = ((2500u32 * 10000) / CARVERA_SPINDLE_MAX_RPM) as u16 + 5;
    assert_eq!(duty_to_calibrated_rpm(&store, duty_2500), 2500);
}

#[test]
fn test_interpolation_degenerate_bracket() {
    let mut store = CalibrationStore::new();
    let table = CalibrationTable {
        points: {
            let mut pts = [CalibrationPoint::default(); CAL_STEPS];
            pts[0] = CalibrationPoint {
                expected_rpm: 5000,
                measured_duty: 2447,
            };
            pts[1] = CalibrationPoint {
                expected_rpm: 5050,
                measured_duty: 2447,
            };
            pts[2] = CalibrationPoint {
                expected_rpm: 5100,
                measured_duty: 2500,
            };
            pts
        },
        count: 3,
    };
    apply_calibration(&mut store, &table);

    let rpm = duty_to_calibrated_rpm(&store, 2447);
    assert!(
        rpm == 5000 || rpm == 5050,
        "Degenerate bracket should return one of the bounding RPMs, got {}",
        rpm
    );
}

#[test]
fn test_interpolation_off_step_values() {
    let mut store = CalibrationStore::new();
    let offset: u16 = 20;
    let mut table = CalibrationTable::default();
    table.count = 10;
    for i in 0..10 {
        let rpm = CAL_START_RPM + i as u16 * CAL_STEP_RPM;
        let duty = ((rpm as u32 * 10000) / CARVERA_SPINDLE_MAX_RPM) as u16 + offset;
        table.points[i] = CalibrationPoint {
            expected_rpm: rpm,
            measured_duty: duty,
        };
    }
    apply_calibration(&mut store, &table);

    for i in 0..9 {
        let rpm = CAL_START_RPM + i as u16 * CAL_STEP_RPM;
        let target_rpm = rpm as u32 + 1;
        let duty = ((target_rpm * 10000) / CARVERA_SPINDLE_MAX_RPM) as u16 + offset;
        let result = duty_to_calibrated_rpm(&store, duty);
        let error = (result as i32 - target_rpm as i32).unsigned_abs();
        assert!(
            error <= 10,
            "S{} should give ~{} RPM, got {} (error={})",
            target_rpm,
            target_rpm,
            result,
            error
        );
    }
}

#[test]
fn test_interpolate_rpm_at_last_calibration_point() {
    let mut store = CalibrationStore::new();
    let mut table = CalibrationTable::default();
    table.count = 5;
    for i in 0..5 {
        let rpm = CAL_START_RPM + i as u16 * CAL_STEP_RPM;
        let duty = ((rpm as u32 * 10000) / CARVERA_SPINDLE_MAX_RPM) as u16 + 20;
        table.points[i] = CalibrationPoint {
            expected_rpm: rpm,
            measured_duty: duty,
        };
    }
    apply_calibration(&mut store, &table);

    let last_duty = table.points[4].measured_duty;
    let rpm = duty_to_calibrated_rpm(&store, last_duty);
    let expected = CAL_START_RPM as u32 + 4 * CAL_STEP_RPM as u32;
    let error = (rpm as i32 - expected as i32).unsigned_abs();
    assert!(
        error <= 5,
        "At last cal point duty {}, expected ~{} RPM, got {} (error={})",
        last_duty,
        expected,
        rpm,
        error
    );
}

#[test]
fn test_correct_duty_large_duty_near_10000() {
    let mut store = CalibrationStore::new();
    let table = full_386_point_cal_table(30);
    apply_calibration(&mut store, &table);

    let corrected = correct_duty(&store, 10000);
    let ideal_20000 =
        ((20000u32 * 10000 + CARVERA_SPINDLE_MAX_RPM / 2) / CARVERA_SPINDLE_MAX_RPM) as u16;
    assert!(
        corrected >= ideal_20000 - 50 && corrected <= 10000,
        "correct_duty(&store, 10000) = {}, expected near {} (ideal for 20000 RPM)",
        corrected,
        ideal_20000
    );
}

#[test]
fn test_clear_calibration() {
    let mut store = CalibrationStore::new();
    let mut table = CalibrationTable::default();
    table.count = 2;
    table.points[0] = CalibrationPoint {
        expected_rpm: 500,
        measured_duty: 245,
    };
    table.points[1] = CalibrationPoint {
        expected_rpm: 750,
        measured_duty: 367,
    };
    apply_calibration(&mut store, &table);
    assert!(has_calibration(&store));
    assert_eq!(calibration_count(&store), 2);

    clear_calibration(&mut store);
    assert!(!has_calibration(&store));
    assert_eq!(calibration_count(&store), 0);
}

#[test]
fn test_read_calibration_table_none_when_empty() {
    let store = CalibrationStore::new();
    assert!(read_calibration_table(&store).is_none());
}

#[test]
fn test_read_calibration_table_roundtrip() {
    let mut store = CalibrationStore::new();
    let mut table = CalibrationTable::default();
    table.count = 3;
    table.points[0] = CalibrationPoint {
        expected_rpm: 750,
        measured_duty: 400,
    };
    table.points[1] = CalibrationPoint {
        expected_rpm: 800,
        measured_duty: 420,
    };
    table.points[2] = CalibrationPoint {
        expected_rpm: 850,
        measured_duty: 440,
    };
    apply_calibration(&mut store, &table);

    let readback = read_calibration_table(&store).expect("should have data");
    assert_eq!(readback.count, 3);
    assert_eq!(readback.points[0].expected_rpm, 750);
    assert_eq!(readback.points[0].measured_duty, 400);
    assert_eq!(readback.points[1].expected_rpm, 800);
    assert_eq!(readback.points[1].measured_duty, 420);
    assert_eq!(readback.points[2].expected_rpm, 850);
    assert_eq!(readback.points[2].measured_duty, 440);
}
