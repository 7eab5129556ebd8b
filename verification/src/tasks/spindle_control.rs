//! Decisions of the 50 Hz spindle control loop: read and correct the PWM
//! input, decide enable and ESCON output duty, run stall detection and
//! stabilization tracking, and arbitrate errors. Any active error forces
//! the spindle disabled with the minimum output duty.
use crate::calibration::table::{
    calibrated_rpm_spec, correct_duty, duty_to_calibrated_rpm, ideal_duty_spec, StoreModel,
};
use crate::calibration::{CalibrationStore, OFF_THRESHOLD};
use crate::conversion::{
    motor_rpm_to_output_duty, output_duty_spec, spindle_to_motor_rpm, spindle_to_motor_rpm_spec,
};
use crate::display::{DisplayStatus, ErrorType};
use crate::stabilization::{
    lemma_stabilization_bounded, StabilizationModel, StabilizationStatus, StabilizationTracker,
};
use crate::stall::{
    config_bounded, lemma_stall_bounded, StallConfig, StallDetector, StallModel, StallStatus,
    MAX_CLOCK_MS,
};
use crate::state::config;
use crate::state::{
    any_error_active, get_active_error_type, get_current_ma, is_safety_shutdown,
    report_escon_alert, report_stall_alert, report_stall_latched, ControllerModel,
    ControllerState, ErrorReport,
};
use vstd::prelude::*;

verus! {

/// Control loop interval (20ms = 50Hz).
pub const CONTROL_INTERVAL_MS: u64 = 20;

/// Input timeout: no valid signal for longer than this disables the spindle.
pub const INPUT_TIMEOUT_MS: u64 = 200;

/// PWM TOP value for the 1kHz ESCON output at a 1MHz PWM clock (150MHz / 150).
pub const PWM_TOP: u16 = 1000;

/// Duty (0-10000) above which the spindle is enabled: MIN_ENABLE_RPM by the
/// linear formula, rounded (367).
pub fn min_enable_duty() -> (d: u16)
    ensures
        d == ideal_duty_spec(config::MIN_ENABLE_RPM as int),
{
    assert(config::CARVERA_SPINDLE_MAX_RPM == 20437);
    ((config::MIN_ENABLE_RPM as u64 * 10000 + config::CARVERA_SPINDLE_MAX_RPM as u64 / 2)
        / config::CARVERA_SPINDLE_MAX_RPM as u64) as u16
}

/// The corrected duty for a measured duty.
pub open spec fn corrected_duty_spec(store: StoreModel, raw_duty: u16) -> int {
    if raw_duty < OFF_THRESHOLD {
        0
    } else {
        match store.interpolate_rpm(raw_duty as int) {
            Some(rpm) => ideal_duty_spec(rpm),
            None => raw_duty as int,
        }
    }
}

/// Read the measured PWM input duty and apply calibration correction.
/// Returns (corrected_duty, uncorrected_duty, min_enable_duty).
pub fn read_input_duty(store: &CalibrationStore, measured_duty: u32) -> (r: (u16, u16, u16))
    ensures
        r.1 == measured_duty as u16,
        r.0 == corrected_duty_spec(store@, r.1),
        r.2 == ideal_duty_spec(config::MIN_ENABLE_RPM as int),
{
    let uncorrected = measured_duty as u16;
    let corrected = correct_duty(store, uncorrected);
    (corrected, uncorrected, min_enable_duty())
}

/// Whether the input has timed out: no duty above the enable threshold for
/// longer than `timeout_ms`. A valid input refreshes the last-valid time.
pub fn check_timeout(
    raw_duty_fine: u16,
    min_enable_duty: u16,
    last_valid_input_ms: &mut u64,
    now_ms: u64,
    timeout_ms: u64,
) -> (timed_out: bool)
    requires
        raw_duty_fine <= min_enable_duty ==> now_ms >= *old(last_valid_input_ms),
    ensures
        raw_duty_fine > min_enable_duty ==> (!timed_out && *final(last_valid_input_ms) == now_ms),
        raw_duty_fine <= min_enable_duty ==> (timed_out == (now_ms - *old(last_valid_input_ms)
            > timeout_ms) && *final(last_valid_input_ms) == *old(last_valid_input_ms)),
{
    if raw_duty_fine > min_enable_duty {
        *last_valid_input_ms = now_ms;
        false
    } else {
        now_ms - *last_valid_input_ms > timeout_ms
    }
}

/// Enable state, spindle RPM, target motor RPM and ESCON output duty: the
/// minimum (zero-speed) duty while disabled, and an output forced to zero
/// while an error is active.
pub open spec fn compute_output_spec(
    store: StoreModel,
    timed_out: bool,
    raw_duty_fine: u16,
    raw_duty_fine_uncorrected: u16,
    min_enable_duty: u16,
    safety_shutdown: bool,
    has_error: bool,
) -> (bool, u32, u32, u16) {
    let enabled = !timed_out && raw_duty_fine > min_enable_duty && !safety_shutdown && !has_error;
    let spindle_rpm = if enabled {
        calibrated_rpm_spec(store, raw_duty_fine_uncorrected as int) as u32
    } else {
        0u32
    };
    let motor_rpm = spindle_to_motor_rpm_spec(spindle_rpm, config::BELT_RATIO_X1000);
    let output_duty = if enabled {
        output_duty_spec(motor_rpm, config::MIN_RPM, config::MAX_RPM) as u16
    } else if safety_shutdown || has_error {
        0u16
    } else {
        config::PWM_MIN_DUTY
    };
    (enabled, spindle_rpm, motor_rpm, output_duty)
}

/// Compute whether the spindle should be enabled, target RPMs, and ESCON output duty.
/// Returns (enabled, spindle_rpm, target_motor_rpm, output_duty).
pub fn compute_output(
    store: &CalibrationStore,
    timed_out: bool,
    raw_duty_fine: u16,
    raw_duty_fine_uncorrected: u16,
    min_enable_duty: u16,
    safety_shutdown: bool,
    has_error: bool,
) -> (r: (bool, u32, u32, u16))
    ensures
        r == compute_output_spec(
            store@,
            timed_out,
            raw_duty_fine,
            raw_duty_fine_uncorrected,
            min_enable_duty,
            safety_shutdown,
            has_error,
        ),
        r.1 <= 133934,
        r.2 <= 81918,
{
    let enabled = !timed_out && raw_duty_fine > min_enable_duty && !safety_shutdown && !has_error;
    let spindle_rpm = if enabled {
        duty_to_calibrated_rpm(store, raw_duty_fine_uncorrected)
    } else {
        0
    };
    let target_motor_rpm = spindle_to_motor_rpm(spindle_rpm, config::BELT_RATIO_X1000);
    assert(target_motor_rpm <= 81918) by (nonlinear_arith)
        requires
            target_motor_rpm == ((spindle_rpm * 1000 + 817) / 1635) as u32,
            spindle_rpm <= 133934,
    ;
    let output_duty = if enabled {
        motor_rpm_to_output_duty(target_motor_rpm, config::MIN_RPM, config::MAX_RPM)
    } else if safety_shutdown || has_error {
        0
    } else {
        config::PWM_MIN_DUTY
    };
    (enabled, spindle_rpm, target_motor_rpm, output_duty)
}

/// Any error or latched safety shutdown keeps the spindle disabled, with
/// zero requested RPM and the ESCON output forced to zero, whatever the input.
pub proof fn lemma_error_forces_disable(
    store: StoreModel,
    timed_out: bool,
    raw_duty_fine: u16,
    raw_duty_fine_uncorrected: u16,
    min_enable_duty: u16,
    safety_shutdown: bool,
    has_error: bool,
)
    requires
        safety_shutdown || has_error,
    ensures
        ({
            let (enabled, spindle_rpm, motor_rpm, output_duty) = compute_output_spec(
                store,
                timed_out,
                raw_duty_fine,
                raw_duty_fine_uncorrected,
                min_enable_duty,
                safety_shutdown,
                has_error,
            );
            !enabled && spindle_rpm == 0 && motor_rpm == 0 && output_duty == 0
        }),
{
}

/// The stall detector state before its reading: reset once on the falling
/// edge of calibration activity.
pub open spec fn stall_before(stall: StallModel, was_cal_active: bool, cal_active: bool) -> StallModel {
    if was_cal_active && !cal_active {
        stall.reset()
    } else {
        stall
    }
}

/// Run stall detection, handling calibration-active suppression and the
/// edge-triggered reset when calibration ends. Returns (stall_status, stall_detected).
pub fn run_stall_detection(
    stall_detector: &mut StallDetector,
    was_cal_active: &mut bool,
    cal_active: bool,
    target_motor_rpm: u32,
    actual_rpm: u32,
    now_ms: u64,
    stall_config: &StallConfig,
) -> (r: (StallStatus, bool))
    requires
        !cal_active ==> stall_before(old(stall_detector)@, *old(was_cal_active), cal_active).check_in_range(
            target_motor_rpm,
            actual_rpm,
            now_ms,
            *stall_config,
        ),
    ensures
        *final(was_cal_active) == cal_active,
        cal_active ==> (r == (StallStatus::Normal, false) && final(stall_detector)@ == stall_before(
            old(stall_detector)@,
            *old(was_cal_active),
            cal_active,
        )),
        !cal_active ==> ((final(stall_detector)@, r.0) == stall_before(
            old(stall_detector)@,
            *old(was_cal_active),
            cal_active,
        ).step(target_motor_rpm, actual_rpm, now_ms, *stall_config) && r.1 == (r.0
            == StallStatus::Stalled)),
{
    if *was_cal_active && !cal_active {
        stall_detector.reset();
    }
    *was_cal_active = cal_active;
    let stall_status = if cal_active {
        StallStatus::Normal
    } else {
        stall_detector.check(target_motor_rpm, actual_rpm, now_ms, stall_config)
    };
    let stall_detected = matches!(stall_status, StallStatus::Stalled);
    (stall_status, stall_detected)
}

/// The error state after the loop's reports: ESCON alert pin, stall alert
/// and stall latch.
pub open spec fn reported_errors(
    s: ControllerModel,
    stall: StallModel,
    stall_detected: bool,
    target_motor_rpm: u32,
    now_ms: u64,
    escon_alert_active: bool,
) -> ControllerModel {
    s.after(ErrorReport::EsconAlert(escon_alert_active)).after(
        ErrorReport::StallAlert(stall.alert_active(target_motor_rpm, now_ms)),
    ).after(ErrorReport::StallLatched(stall_detected))
}

/// Report stall and ESCON alert errors to the centralized error state.
/// Returns the error-active flag after the reports.
pub fn report_errors(
    state: &mut ControllerState,
    stall_detector: &StallDetector,
    stall_detected: bool,
    target_motor_rpm: u32,
    now_ms: u64,
    escon_alert_active: bool,
) -> (error_active: bool)
    ensures
        final(state)@ == reported_errors(
            old(state)@,
            stall_detector@,
            stall_detected,
            target_motor_rpm,
            now_ms,
            escon_alert_active,
        ),
        error_active == final(state)@.any_error(),
{
    report_escon_alert(state, escon_alert_active);
    let stall_alert_active = stall_detector.is_alert_active(target_motor_rpm, now_ms);
    report_stall_alert(state, stall_alert_active);
    report_stall_latched(state, stall_detected);
    any_error_active(state)
}

/// Spindle RPM for a motor RPM by the belt ratio, rounded.
pub open spec fn motor_to_spindle_spec(motor_rpm: u32) -> int {
    (motor_rpm * config::BELT_RATIO_X1000 + 500) / 1000
}

/// Build the display status from the current loop state.
pub fn build_display_status(
    state: &ControllerState,
    spindle_rpm: u32,
    actual_rpm: u32,
    current_ma: u32,
    error_active: bool,
    enabled: bool,
    stab_time_ms: Option<u32>,
) -> (status: DisplayStatus)
    requires
        actual_rpm * config::BELT_RATIO_X1000 + 500 <= u32::MAX,
    ensures
        status == (DisplayStatus {
            requested_rpm: spindle_rpm,
            actual_rpm: motor_to_spindle_spec(actual_rpm) as u32,
            current_ma,
            error: error_active,
            error_type: state@.active_error(),
            enabled,
            stabilization_time_ms: stab_time_ms,
        }),
{
    DisplayStatus {
        requested_rpm: spindle_rpm,
        actual_rpm: (actual_rpm * config::BELT_RATIO_X1000 + 500) / 1000,
        current_ma,
        error: error_active,
        error_type: get_active_error_type(state),
        enabled,
        stabilization_time_ms: stab_time_ms,
    }
}

/// The stall detection configuration of the controller.
pub fn stall_config() -> (c: StallConfig)
    ensures
        c == (StallConfig {
            threshold_pct: config::STALL_THRESHOLD_PCT,
            base_grace_ms: config::BASE_GRACE_MS,
            rpm_grace_factor: config::RPM_GRACE_FACTOR,
            debounce_ms: config::STALL_DEBOUNCE_MS,
            recovery_ms: config::STALL_RECOVERY_MS,
            rate_threshold: config::SPEED_CHANGE_RATE_THRESHOLD,
        }),
        config_bounded(c),
{
    StallConfig {
        threshold_pct: config::STALL_THRESHOLD_PCT,
        base_grace_ms: config::BASE_GRACE_MS,
        rpm_grace_factor: config::RPM_GRACE_FACTOR,
        debounce_ms: config::STALL_DEBOUNCE_MS,
        recovery_ms: config::STALL_RECOVERY_MS,
        rate_threshold: config::SPEED_CHANGE_RATE_THRESHOLD,
    }
}

/// The stabilization event to log once per speed change:
/// (from spindle RPM, to spindle RPM, time in ms), marking it reported.
pub fn take_stabilization_report(
    tracker: &mut StabilizationTracker,
    stab_status: StabilizationStatus,
    stab_time_ms: Option<u32>,
) -> (report: Option<(u32, u32, u32)>)
    requires
        old(tracker)@.start_rpm * config::BELT_RATIO_X1000 + 500 <= u32::MAX,
        old(tracker)@.target_rpm * config::BELT_RATIO_X1000 + 500 <= u32::MAX,
    ensures
        (stab_status == StabilizationStatus::Stabilized && !old(tracker)@.reported
            && stab_time_ms is Some) ==> (report == Some(
            (
                motor_to_spindle_spec(old(tracker)@.start_rpm) as u32,
                motor_to_spindle_spec(old(tracker)@.target_rpm) as u32,
                stab_time_ms->0,
            ),
        ) && final(tracker)@ == (StabilizationModel { reported: true, ..old(tracker)@ })),
        !(stab_status == StabilizationStatus::Stabilized && !old(tracker)@.reported
            && stab_time_ms is Some) ==> (report is None && final(tracker)@ == old(tracker)@),
{
    if matches!(stab_status, StabilizationStatus::Stabilized) && !tracker.is_reported() {
        if let Some(time_ms) = stab_time_ms {
            let (from_rpm, to_rpm) = tracker.get_debug_info();
            let from_spindle = (from_rpm * config::BELT_RATIO_X1000 + 500) / 1000;
            let to_spindle = (to_rpm * config::BELT_RATIO_X1000 + 500) / 1000;
            tracker.mark_reported();
            return Some((from_spindle, to_spindle, time_ms));
        }
    }
    None
}

/// PWM compare value for an output duty (0-1000 scale) and PWM TOP value.
pub fn pwm_compare_value(output_duty: u16, pwm_top: u16) -> (c: u16)
    requires
        output_duty <= 1000,
    ensures
        c == (output_duty * pwm_top + 500) / 1000,
{
    assert(output_duty as u32 * pwm_top as u32 <= 1000 * 65535) by (nonlinear_arith)
        requires
            output_duty <= 1000,
    ;
    assert((output_duty * pwm_top + 500) / 1000 <= 65535) by (nonlinear_arith)
        requires
            output_duty <= 1000,
            pwm_top <= 65535,
    ;
    (((output_duty as u32) * (pwm_top as u32) + 500) / 1000) as u16
}

/// One loop iteration's readings.
pub struct ControlInputs {
    /// Measured PWM input duty (0-10000).
    pub measured_duty: u32,
    /// Measured motor RPM.
    pub actual_rpm: u32,
    /// ESCON alert pin active (LOW).
    pub escon_alert_active: bool,
    /// Current time in milliseconds.
    pub now_ms: u64,
}

/// One loop iteration's decisions.
pub struct ControlOutputs {
    pub enabled: bool,
    pub spindle_rpm: u32,
    pub target_motor_rpm: u32,
    /// ESCON output duty (0-1000 scale).
    pub output_duty: u16,
    /// PWM compare value for the output duty.
    pub compare_value: u16,
    /// Error output active (drive the error line LOW).
    pub error_active: bool,
    pub stall_status: StallStatus,
    pub stab_status: StabilizationStatus,
    pub stab_time_ms: Option<u32>,
    pub display: DisplayStatus,
}

/// The abstract state of a [`SpindleController`].
pub struct ControllerLoopModel {
    pub stall: StallModel,
    pub was_cal_active: bool,
    pub stabilization: StabilizationModel,
    pub last_valid_input_ms: u64,
}

/// State carried between iterations of the control loop.
pub struct SpindleController {
    stall_detector: StallDetector,
    was_cal_active: bool,
    stabilization_tracker: StabilizationTracker,
    last_valid_input_ms: u64,
}

impl View for SpindleController {
    type V = ControllerLoopModel;

    closed spec fn view(&self) -> ControllerLoopModel {
        ControllerLoopModel {
            stall: self.stall_detector@,
            was_cal_active: self.was_cal_active,
            stabilization: self.stabilization_tracker@,
            last_valid_input_ms: self.last_valid_input_ms,
        }
    }
}

impl SpindleController {
    /// Timestamps within the clock bound.
    pub open spec fn bounded(self) -> bool {
        &&& self@.stall.timestamps_bounded()
        &&& self@.stabilization.bounded()
        &&& self@.last_valid_input_ms <= MAX_CLOCK_MS
        &&& self@.stabilization.start_rpm * config::BELT_RATIO_X1000 + 500 <= u32::MAX
        &&& self@.stabilization.target_rpm <= 81918
    }

    /// A controller started at `now_ms`.
    pub fn new(now_ms: u64) -> (c: Self)
        requires
            now_ms <= MAX_CLOCK_MS,
        ensures
            c@.stall == StallDetector::initial(),
            !c@.was_cal_active,
            c@.stabilization == StabilizationTracker::initial(),
            c@.last_valid_input_ms == now_ms,
            c.bounded(),
    {
        SpindleController {
            stall_detector: StallDetector::new(),
            was_cal_active: false,
            stabilization_tracker: StabilizationTracker::new(),
            last_valid_input_ms: now_ms,
        }
    }

    /// The stall detector.
    pub fn stall_detector(&self) -> (d: &StallDetector)
        ensures
            d@ == self@.stall,
    {
        &self.stall_detector
    }

    /// The stabilization event to log, if any (see [`take_stabilization_report`]).
    pub fn take_stabilization_report(
        &mut self,
        stab_status: StabilizationStatus,
        stab_time_ms: Option<u32>,
    ) -> (report: Option<(u32, u32, u32)>)
        requires
            old(self).bounded(),
        ensures
            final(self).bounded(),
            final(self)@.stall == old(self)@.stall,
            final(self)@.last_valid_input_ms == old(self)@.last_valid_input_ms,
            final(self)@.was_cal_active == old(self)@.was_cal_active,
            (stab_status == StabilizationStatus::Stabilized && !old(self)@.stabilization.reported
                && stab_time_ms is Some) ==> (report == Some(
                (
                    motor_to_spindle_spec(old(self)@.stabilization.start_rpm) as u32,
                    motor_to_spindle_spec(old(self)@.stabilization.target_rpm) as u32,
                    stab_time_ms->0,
                ),
            ) && final(self)@.stabilization == (StabilizationModel {
                reported: true,
                ..old(self)@.stabilization
            })),
            !(stab_status == StabilizationStatus::Stabilized && !old(self)@.stabilization.reported
                && stab_time_ms is Some) ==> (report is None && final(self)@ == old(self)@),
    {
        take_stabilization_report(&mut self.stabilization_tracker, stab_status, stab_time_ms)
    }

    /// One control loop iteration.
    ///
    /// Reads the error state, corrects the measured duty, decides enable and
    /// output duty (any error forces disable), runs stall detection (suppressed
    /// while a calibration sequence is active) and stabilization tracking,
    /// reports stall and ESCON alerts, and builds the display status.
    pub fn step(
        &mut self,
        state: &mut ControllerState,
        store: &CalibrationStore,
        inputs: &ControlInputs,
    ) -> (out: ControlOutputs)
        requires
            old(self).bounded(),
            inputs.now_ms <= MAX_CLOCK_MS,
            inputs.now_ms >= old(self)@.last_valid_input_ms,
            inputs.actual_rpm * config::BELT_RATIO_X1000 + 500 <= u32::MAX,
        ensures
            final(self).bounded(),
            ({
                let safety = old(state)@.safety_shutdown;
                let has_error = old(state)@.any_error();
                let raw = inputs.measured_duty as u16;
                let corrected = corrected_duty_spec(store@, raw);
                let min_enable = ideal_duty_spec(config::MIN_ENABLE_RPM as int);
                let timed_out = corrected <= min_enable && inputs.now_ms - old(self)@.last_valid_input_ms
                    > INPUT_TIMEOUT_MS;
                let cal_active = old(state)@.cal_sequence_active;
                let stall0 = stall_before(old(self)@.stall, old(self)@.was_cal_active, cal_active);
                &&& (out.enabled, out.spindle_rpm, out.target_motor_rpm, out.output_duty)
                    == compute_output_spec(
                    store@,
                    timed_out,
                    corrected as u16,
                    raw,
                    min_enable as u16,
                    safety,
                    has_error,
                )
                &&& final(self)@.last_valid_input_ms == (if corrected > min_enable {
                    inputs.now_ms
                } else {
                    old(self)@.last_valid_input_ms
                })
                &&& final(self)@.was_cal_active == cal_active
                &&& cal_active ==> (out.stall_status == StallStatus::Normal && final(self)@.stall
                    == stall0)
                &&& !cal_active ==> (final(self)@.stall, out.stall_status) == stall0.step(
                    out.target_motor_rpm,
                    inputs.actual_rpm,
                    inputs.now_ms,
                    StallConfig {
                        threshold_pct: config::STALL_THRESHOLD_PCT,
                        base_grace_ms: config::BASE_GRACE_MS,
                        rpm_grace_factor: config::RPM_GRACE_FACTOR,
                        debounce_ms: config::STALL_DEBOUNCE_MS,
                        recovery_ms: config::STALL_RECOVERY_MS,
                        rate_threshold: config::SPEED_CHANGE_RATE_THRESHOLD,
                    },
                )
                &&& (final(self)@.stabilization, (out.stab_status, out.stab_time_ms))
                    == old(self)@.stabilization.step(
                    out.target_motor_rpm,
                    inputs.actual_rpm,
                    inputs.now_ms,
                )
                &&& final(state)@ == reported_errors(
                    ControllerModel { enabled: out.enabled, ..old(state)@ },
                    final(self)@.stall,
                    out.stall_status == StallStatus::Stalled,
                    out.target_motor_rpm,
                    inputs.now_ms,
                    inputs.escon_alert_active,
                )
                &&& out.error_active == final(state)@.any_error()
                &&& out.compare_value == (out.output_duty * PWM_TOP + 500) / 1000
                &&& out.display == (DisplayStatus {
                    requested_rpm: out.spindle_rpm,
                    actual_rpm: motor_to_spindle_spec(inputs.actual_rpm) as u32,
                    current_ma: old(state)@.current_ma,
                    error: out.error_active,
                    error_type: final(state)@.active_error(),
                    enabled: out.enabled,
                    stabilization_time_ms: out.stab_time_ms,
                })
                &&& (safety || has_error) ==> (!out.enabled && out.output_duty
                    == 0 && out.compare_value == 0 && out.spindle_rpm == 0 && !final(state)@.enabled)
            }),
    {
        let now_ms = inputs.now_ms;
        let safety_shutdown = is_safety_shutdown(state);
        let has_error = any_error_active(state);
        let (raw_duty_fine, raw_duty_fine_uncorrected, min_enable) = read_input_duty(
            store,
            inputs.measured_duty,
        );
        let timed_out = check_timeout(
            raw_duty_fine,
            min_enable,
            &mut self.last_valid_input_ms,
            now_ms,
            INPUT_TIMEOUT_MS,
        );
        let (enabled, spindle_rpm, target_motor_rpm, output_duty) = compute_output(
            store,
            timed_out,
            raw_duty_fine,
            raw_duty_fine_uncorrected,
            min_enable,
            safety_shutdown,
            has_error,
        );
        proof {
            if safety_shutdown || has_error {
                lemma_error_forces_disable(
                    store@,
                    timed_out,
                    raw_duty_fine,
                    raw_duty_fine_uncorrected,
                    min_enable,
                    safety_shutdown,
                    has_error,
                );
            }
        }
        state.set_enabled(enabled);
        let compare_value = pwm_compare_value(output_duty, PWM_TOP);
        let cfg = stall_config();
        let cal_active = state.is_cal_sequence_active();
        proof {
            let s0 = stall_before(self.stall_detector@, self.was_cal_active, cal_active);
            assert(s0.timestamps_bounded());
            lemma_stall_bounded(s0, target_motor_rpm, inputs.actual_rpm, now_ms, cfg);
            lemma_stabilization_bounded(
                self.stabilization_tracker@,
                target_motor_rpm,
                inputs.actual_rpm,
                now_ms,
            );
        }
        let (stall_status, stall_detected) = run_stall_detection(
            &mut self.stall_detector,
            &mut self.was_cal_active,
            cal_active,
            target_motor_rpm,
            inputs.actual_rpm,
            now_ms,
            &cfg,
        );
        let (stab_status, stab_time_ms) = self.stabilization_tracker.check(
            target_motor_rpm,
            inputs.actual_rpm,
            now_ms,
        );
        let error_active = report_errors(
            state,
            &self.stall_detector,
            stall_detected,
            target_motor_rpm,
            now_ms,
            inputs.escon_alert_active,
        );
        let current_ma = get_current_ma(state);
        let display = build_display_status(
            state,
            spindle_rpm,
            inputs.actual_rpm,
            current_ma,
            error_active,
            enabled,
            stab_time_ms,
        );
        ControlOutputs {
            enabled,
            spindle_rpm,
            target_motor_rpm,
            output_duty,
            compare_value,
            error_active,
            stall_status,
            stab_status,
            stab_time_ms,
            display,
        }
    }
}

} // verus!
