//! Speed calibration system.
//!
//! Detects a 3-note zigzag start sequence (6000 -> 12000 -> 9000 RPM via speed
//! changes, no M5 stops between notes), then records PWM duty at 386 known
//! speed steps (750-20000 RPM in 50 RPM increments). The resulting correction
//! table enables piecewise-linear interpolation for accurate duty->RPM mapping
//! at runtime.
pub mod recorder;
pub mod sequence;
pub mod table;

pub use recorder::{CalEvent, CalibrationRecorder};
pub use sequence::SequenceDetector;
pub use table::{
    apply_calibration, calibration_count, clear_calibration, correct_duty, duty_to_calibrated_rpm,
    get_calibration_point, has_calibration, read_calibration_table, CalibrationStore,
};

use crate::state::config::CARVERA_SPINDLE_MAX_RPM;
use vstd::prelude::*;

verus! {

/// Number of calibration steps (750 to 20000 RPM in 50 RPM increments).
pub const CAL_STEPS: usize = 386;

/// First calibration RPM.
pub const CAL_START_RPM: u16 = 750;

/// RPM increment between steps.
pub const CAL_STEP_RPM: u16 = 50;

/// Tolerance for speed matching in the start sequence (+/-12%).
pub const SEQUENCE_TOLERANCE_PCT: u32 = 12;

/// ON detection threshold (duty > 1.0% = 100 in 0-10000 scale).
pub const ON_THRESHOLD: u16 = 100;

/// OFF detection threshold (duty < 0.5% = 50 in 0-10000 scale).
pub const OFF_THRESHOLD: u16 = 50;

/// Time OFF must persist to count as a gap (ms).
pub const OFF_DEBOUNCE_MS: u64 = 40;

/// Abort if the signal is lost this long while waiting for a step (ms).
pub const SIGNAL_TIMEOUT_MS: u64 = 10_000;

/// Sequence detector: minimum ON duration for a note (filters glitches).
pub const SEQ_NOTE_MIN_MS: u64 = 200;

/// Sequence detector: maximum ON duration for a note.
pub const SEQ_NOTE_MAX_MS: u64 = 12_000;

/// Grace period for duty mismatches during note transitions (ms).
pub const SEQ_TRANSITION_GRACE_MS: u64 = 100;

/// Settle time at start of each step before recording (ms).
pub const STEP_SETTLE_MS: u64 = 10;

/// Recording window duration per step (ms).
pub const STEP_RECORD_MS: u64 = 80;

/// Duty change that counts as a speed change between steps.
pub const SPEED_CHANGE_THRESHOLD: u16 = 12;

/// Settle time after speed-change detection before recording (ms).
pub const SPEED_CHANGE_SETTLE_MS: u64 = 50;

/// Announce phase duration after sequence detected (ms).
pub const ANNOUNCE_MS: u64 = 200;

/// A single calibration data point.
#[derive(Clone, Copy, Debug, PartialEq, Eq)]
pub struct CalibrationPoint {
    /// Expected RPM for this step
    pub expected_rpm: u16,
    /// Measured PWM duty (0-10000 scale)
    pub measured_duty: u16,
}

impl Default for CalibrationPoint {
    fn default() -> (p: Self)
        ensures
            p.expected_rpm == 0,
            p.measured_duty == 0,
    {
        CalibrationPoint { expected_rpm: 0, measured_duty: 0 }
    }
}

/// Full calibration table: the first `count` entries of `points` are valid.
#[derive(Clone, Copy, Debug, PartialEq, Eq)]
pub struct CalibrationTable {
    pub points: [CalibrationPoint; CAL_STEPS],
    pub count: u16,
}

impl CalibrationTable {
    /// The table with no valid points and every slot zeroed.
    pub open spec fn is_empty_zeroed(self) -> bool {
        &&& self.count == 0
        &&& forall|i: int|
            0 <= i < CAL_STEPS ==> #[trigger] self.points@[i] == (CalibrationPoint {
                expected_rpm: 0,
                measured_duty: 0,
            })
    }
}

/// A table whose entries are all zero and whose count is zero.
pub fn empty_calibration_table() -> (t: CalibrationTable)
    ensures
        t.is_empty_zeroed(),
{
    let p = CalibrationPoint { expected_rpm: 0, measured_duty: 0 };
    CalibrationTable { points: [p; CAL_STEPS], count: 0 }
}

impl Default for CalibrationTable {
    fn default() -> (t: Self)
        ensures
            t.is_empty_zeroed(),
    {
        empty_calibration_table()
    }
}

/// Calibration phase.
#[derive(Clone, Copy, Debug, PartialEq, Eq)]
pub enum CalPhase {
    /// No calibration active (or no cal data on boot)
    NoCal,
    /// Listening for the 3-note start sequence
    Detecting,
    /// Start sequence detected, announcing
    SequenceDetected,
    /// Recording calibration steps
    Recording,
    /// Calibration complete (temporary flash message)
    Complete,
    /// Calibration aborted (signal lost)
    Aborted,
    /// Calibration data loaded from flash
    Loaded,
    /// Calibration data cleared from flash
    Cleared,
}

impl Default for CalPhase {
    fn default() -> (p: Self)
        ensures
            p == CalPhase::NoCal,
    {
        CalPhase::NoCal
    }
}

/// Status snapshot published to the LCD task.
#[derive(Clone, Copy, Debug)]
pub struct CalibrationStatus {
    pub phase: CalPhase,
    pub step: u16,
    pub total_steps: u16,
    pub expected_rpm: u16,
    pub measured_duty: u16,
    pub recording: bool,
}

impl Default for CalibrationStatus {
    fn default() -> (s: Self)
        ensures
            s.phase == CalPhase::NoCal,
            s.step == 0,
            s.total_steps == 0,
            s.expected_rpm == 0,
            s.measured_duty == 0,
            !s.recording,
    {
        CalibrationStatus {
            phase: CalPhase::NoCal,
            step: 0,
            total_steps: 0,
            expected_rpm: 0,
            measured_duty: 0,
            recording: false,
        }
    }
}

/// Carvera's linear duty (0-10000 scale) for a spindle RPM, truncated.
pub open spec fn expected_duty_spec(rpm: int) -> int {
    rpm * 10000 / (CARVERA_SPINDLE_MAX_RPM as int)
}

/// Whether `duty` lies within +/-12% of the expected duty for `rpm`
/// (for an expected duty of zero: whether the signal is not ON).
pub open spec fn matches_speed_spec(duty: int, rpm: int) -> bool {
    let expected = expected_duty_spec(rpm);
    let tolerance = expected * (SEQUENCE_TOLERANCE_PCT as int) / 100;
    if expected == 0 {
        duty < ON_THRESHOLD
    } else {
        expected - tolerance <= duty <= expected + tolerance
    }
}

/// Convert RPM to expected PWM duty (0-10000 scale) using Carvera's linear formula.
/// duty = (rpm / CARVERA_SPINDLE_MAX_RPM) * 10000
pub fn rpm_to_expected_duty(rpm: u16) -> (duty: u16)
    ensures
        duty == expected_duty_spec(rpm as int),
{
    let x: u32 = rpm as u32 * 10000;
    assert(CARVERA_SPINDLE_MAX_RPM == 20437);
    assert(x / 20437 <= 32067) by (nonlinear_arith)
        requires
            x <= 655350000,
    ;
    (x / CARVERA_SPINDLE_MAX_RPM) as u16
}

/// Check if a measured duty matches the expected duty for a given RPM within tolerance.
pub fn duty_matches_speed(duty: u16, rpm: u16) -> (matches: bool)
    ensures
        matches == matches_speed_spec(duty as int, rpm as int),
{
    let expected = rpm_to_expected_duty(rpm);
    if expected == 0 {
        return duty < ON_THRESHOLD;
    }
    let tolerance = (expected as u32 * SEQUENCE_TOLERANCE_PCT) / 100;
    let low = expected.saturating_sub(tolerance as u16);
    let high = expected.saturating_add(tolerance as u16);
    duty >= low && duty <= high
}

/// Check if duty indicates the signal is OFF.
pub fn is_off(duty: u16) -> (off: bool)
    ensures
        off == (duty < OFF_THRESHOLD),
{
    duty < OFF_THRESHOLD
}

/// Check if duty indicates the signal is ON.
pub fn is_on(duty: u16) -> (on: bool)
    ensures
        on == (duty > ON_THRESHOLD),
{
    duty > ON_THRESHOLD
}

} // verus!
