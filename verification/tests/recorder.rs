//! Calibration recorder: step-by-step recording state machine.
use carvera_spindle::calibration::{
    CalEvent, CalibrationRecorder, ANNOUNCE_MS, CAL_START_RPM, CAL_STEPS, CAL_STEP_RPM,
    OFF_DEBOUNCE_MS, SIGNAL_TIMEOUT_MS, SPEED_CHANGE_SETTLE_MS, STEP_RECORD_MS, STEP_SETTLE_MS,
};

/// Drive a recorder through announce+ON+settle+record to complete the first step.
/// Returns the time after the step is recorded.
fn record_first_step(rec: &mut CalibrationRecorder, duty: u16) -> u64 {
    let mut t: u64 = ANNOUNCE_MS + 1;
    rec.update(0, t);
    t += 1;
    rec.update(duty, t);
    t += STEP_SETTLE_MS + 1;
    rec.update(duty, t);
    for _ in 0..500 {
        t += 1;
        if matches!(rec.update(duty, t), CalEvent::StepRecorded(..)) {
            return t;
        }
    }
    panic!("record_first_step: step did not complete within 500 iterations");
}

#[test]
fn test_recorder_announce_phase() {
    let mut rec = CalibrationRecorder::new(0);
    assert_eq!(rec.update(0, 100), CalEvent::Idle);
    assert_eq!(rec.update(0, 400), CalEvent::Idle);
    assert_eq!(rec.update(0, 501), CalEvent::Idle);
}

#[test]
fn test_recorder_single_step() {
    let mut rec = CalibrationRecorder::new(0);

    let mut t: u64 = ANNOUNCE_MS + 1;
    rec.update(0, t);

    t += 1;
    rec.update(500, t);
    assert!(!rec.is_recording());

    t += STEP_SETTLE_MS + 1;
    rec.update(500, t);
    assert!(rec.is_recording());

    let mut got_step = false;
    for _ in 0..500 {
        t += 1;
        let evt = rec.update(500, t);
        if let CalEvent::StepRecorded(idx, rpm, duty) = evt {
            assert_eq!(idx, 0);
            assert_eq!(rpm, CAL_START_RPM);
            assert_eq!(duty, 500);
            got_step = true;
            break;
        }
    }
    assert!(
        got_step,
        "Should have recorded step within recording window"
    );
}

#[test]
fn test_recorder_abort_on_timeout() {
    let mut rec = CalibrationRecorder::new(0);

    let t = ANNOUNCE_MS + 1;
    rec.update(0, t);

    let evt = rec.update(0, t + SIGNAL_TIMEOUT_MS + 1);
    assert_eq!(evt, CalEvent::Aborted);
}

#[test]
fn test_recorder_speed_change_detection_no_off() {
    let mut rec = CalibrationRecorder::new(0);
    let mut t = record_first_step(&mut rec, 500);

    let new_duty: u16 = 530;
    t += 1;
    rec.update(new_duty, t);

    t += SPEED_CHANGE_SETTLE_MS + 1;
    rec.update(new_duty, t);

    let mut step1_done = false;
    for _ in 0..500 {
        t += 1;
        if let CalEvent::StepRecorded(idx, rpm, duty) = rec.update(new_duty, t) {
            assert_eq!(idx, 1);
            assert_eq!(rpm, CAL_START_RPM + CAL_STEP_RPM);
            assert_eq!(duty, new_duty);
            step1_done = true;
            break;
        }
    }
    assert!(
        step1_done,
        "Step 1 should have completed via speed-change path"
    );
}

#[test]
fn test_recorder_speed_change_below_threshold_ignored() {
    let mut rec = CalibrationRecorder::new(0);
    let mut t = record_first_step(&mut rec, 500);

    for _ in 0..100 {
        t += 1;
        let evt = rec.update(510, t);
        assert_eq!(
            evt,
            CalEvent::Idle,
            "Small duty change should not advance step"
        );
    }

    assert_eq!(rec.step_index(), 1);
}

#[test]
fn test_recorder_backwards_compat_off_path() {
    let mut rec = CalibrationRecorder::new(0);
    let mut t = record_first_step(&mut rec, 500);

    t += 1;
    rec.update(0, t);
    t += OFF_DEBOUNCE_MS + 1;
    rec.update(0, t);

    t += 1;
    rec.update(600, t);
    t += STEP_SETTLE_MS + 1;
    rec.update(600, t);
    let mut step1_done = false;
    for _ in 0..500 {
        t += 1;
        if let CalEvent::StepRecorded(idx, _rpm, duty) = rec.update(600, t) {
            assert_eq!(idx, 1);
            assert_eq!(duty, 600);
            step1_done = true;
            break;
        }
    }
    assert!(step1_done, "Step 1 should complete via OFF path");
}

#[test]
fn test_recorder_mixed_off_and_speed_change() {
    let mut rec = CalibrationRecorder::new(0);
    let mut t = record_first_step(&mut rec, 400);

    t += 1;
    rec.update(430, t);
    t += SPEED_CHANGE_SETTLE_MS + 1;
    rec.update(430, t);
    for _ in 0..500 {
        t += 1;
        if matches!(rec.update(430, t), CalEvent::StepRecorded(..)) {
            break;
        }
    }

    t += 1;
    rec.update(0, t);
    t += OFF_DEBOUNCE_MS + 1;
    rec.update(0, t);

    t += 1;
    rec.update(460, t);
    t += STEP_SETTLE_MS + 1;
    rec.update(460, t);
    let mut step2_done = false;
    for _ in 0..500 {
        t += 1;
        if let CalEvent::StepRecorded(idx, _, _) = rec.update(460, t) {
            assert_eq!(idx, 2);
            step2_done = true;
            break;
        }
    }
    assert!(
        step2_done,
        "Step 2 should complete via OFF path after speed-change step"
    );
}

#[test]
fn test_recorder_completion_via_speed_change() {
    let mut rec = CalibrationRecorder::new(0);
    let mut t: u64 = ANNOUNCE_MS + 1;
    rec.update(0, t);

    let base_duty: u16 = 400;
    for step in 0..CAL_STEPS {
        let duty = base_duty + step as u16 * 25;

        if step == 0 {
            t += 1;
            rec.update(duty, t);
        }

        t += SPEED_CHANGE_SETTLE_MS.max(STEP_SETTLE_MS) + 1;
        rec.update(duty, t);

        let mut recorded = false;
        for _ in 0..500 {
            t += 1;
            match rec.update(duty, t) {
                CalEvent::StepRecorded(idx, _, _) => {
                    assert_eq!(idx as usize, step);
                    recorded = true;
                    break;
                }
                CalEvent::Complete(_) => {
                    panic!("Got Complete too early at step {}", step);
                }
                _ => {}
            }
        }
        assert!(recorded, "Step {} should have been recorded", step);

        if step < CAL_STEPS - 1 {
            let next_duty = base_duty + (step as u16 + 1) * 25;
            t += 1;
            rec.update(next_duty, t);
        }
    }

    t += 1;
    let evt = rec.update(base_duty + 386 * 25, t);
    assert!(
        matches!(evt, CalEvent::Complete(_)),
        "Should get Complete after all steps"
    );
}

#[test]
fn test_recorder_signal_drop_during_settling_resets() {
    let mut rec = CalibrationRecorder::new(0);

    let mut t: u64 = ANNOUNCE_MS + 1;
    rec.update(0, t);

    t += 20;
    rec.update(500, t);

    t += 1000;
    rec.update(500, t);
    t += 20;
    let evt = rec.update(0, t);
    assert_eq!(evt, CalEvent::Idle);
    assert!(!rec.is_recording());
}

#[test]
fn test_recorder_expected_rpm_progresses() {
    let rec = CalibrationRecorder::new(0);
    assert_eq!(rec.current_expected_rpm(), CAL_START_RPM);

    let rec2 = CalibrationRecorder::new(0);
    assert_eq!(rec2.step_index(), 0);
    assert_eq!(rec2.current_expected_rpm(), CAL_START_RPM);
}

#[test]
fn test_recorder_off_debounce_during_gap() {
    let mut rec = CalibrationRecorder::new(0);
    let mut t: u64 = ANNOUNCE_MS + 1;
    rec.update(0, t);

    t += 20;
    rec.update(500, t);
    t += STEP_SETTLE_MS + 100;
    rec.update(500, t);
    t += STEP_RECORD_MS + 100;
    rec.update(500, t);

    t += 20;
    rec.update(0, t);
    t += 20;
    rec.update(500, t);
    t += 20;
    rec.update(0, t);
    assert_eq!(rec.step_index(), 1);
}

#[test]
fn test_recorder_signal_drop_during_recording_with_enough_samples() {
    let mut rec = CalibrationRecorder::new(0);
    let mut t: u64 = ANNOUNCE_MS + 1;
    rec.update(0, t);

    t += 1;
    rec.update(500, t);
    t += STEP_SETTLE_MS + 1;
    rec.update(500, t);
    assert!(rec.is_recording());

    t += 1;
    rec.update(500, t);
    t += 1;
    rec.update(500, t);
    t += 1;
    rec.update(500, t);

    t += 1;
    let evt = rec.update(0, t);
    assert!(
        matches!(evt, CalEvent::StepRecorded(0, _, 500)),
        "Should finish step with partial average, got {:?}",
        evt
    );
}

#[test]
fn test_recorder_signal_drop_during_recording_too_few_samples() {
    let mut rec = CalibrationRecorder::new(0);
    let mut t: u64 = ANNOUNCE_MS + 1;
    rec.update(0, t);

    t += 1;
    rec.update(500, t);
    t += STEP_SETTLE_MS + 1;
    rec.update(500, t);
    assert!(rec.is_recording());

    t += 1;
    rec.update(500, t);
    t += 1;
    rec.update(500, t);

    t += 1;
    let evt = rec.update(0, t);
    assert_eq!(evt, CalEvent::Idle, "Should discard and go back to waiting");
    assert!(!rec.is_recording());
    assert_eq!(rec.step_index(), 0, "Step index should not advance");
}
