//! Decisions of the current and temperature monitor: current conversion
//! with debounced overcurrent detection, and the thermal limit.
use crate::adc::{adc_to_current_ma, clamp_adc, ADC_FULL_SCALE};
use crate::state::config;
use crate::state::{report_overcurrent, set_current_ma, ControllerModel, ControllerState, ErrorReport};
use crate::threshold::{threshold_step, ThresholdDetector, ThresholdStatus};
use vstd::prelude::*;

verus! {

/// ADC read interval (100ms).
pub const ADC_INTERVAL_MS: u64 = 100;

/// Read the temperature every N iterations (50 * 100ms = 5s).
pub const THERMAL_CHECK_INTERVAL: u32 = 50;

/// The overcurrent threshold in mA: a percentage of the full-scale current.
pub open spec fn threshold_spec() -> u32 {
    (config::CURRENT_AT_3V3_MA * config::OVERCURRENT_THRESHOLD_PCT / 100) as u32
}

/// Overcurrent threshold in mA: OVERCURRENT_THRESHOLD_PCT of full scale.
pub fn overcurrent_threshold() -> (t: u32)
    ensures
        t == threshold_spec(),
{
    (config::CURRENT_AT_3V3_MA * config::OVERCURRENT_THRESHOLD_PCT) / 100
}

/// Current in mA for a reading of the ESCON analog output.
pub open spec fn current_spec(adc_value: u16) -> int {
    clamp_adc(adc_value) * config::CURRENT_AT_3V3_MA / (ADC_FULL_SCALE as int)
}

/// One current reading: store the current, run the overcurrent detector and
/// latch an overcurrent error when it triggers. The detector trips once the
/// current has been at or above the threshold (full scale, i.e. a saturated
/// reading) for `OVERCURRENT_DEBOUNCE_MS`. Returns (current_ma, status).
pub fn current_step(
    detector: &mut ThresholdDetector,
    state: &mut ControllerState,
    adc_value: u16,
    now_ms: u64,
) -> (r: (u32, ThresholdStatus))
    requires
        old(detector)@ matches Some(s) ==> s + config::OVERCURRENT_DEBOUNCE_MS <= u64::MAX,
    ensures
        r.0 == current_spec(adc_value),
        (final(detector)@, r.1) == threshold_step(
            old(detector)@,
            r.0,
            (threshold_spec() - 1) as u32,
            now_ms,
            config::OVERCURRENT_DEBOUNCE_MS,
        ),
        r.0 >= threshold_spec() <==> adc_value >= ADC_FULL_SCALE,
        (r.1 == ThresholdStatus::Below) <==> r.0 < threshold_spec(),
        (r.1 == ThresholdStatus::Triggered) <==> (r.0 >= threshold_spec() && (old(detector)@ matches Some(
            start,
        ) && now_ms >= start + config::OVERCURRENT_DEBOUNCE_MS)),
        final(state)@ == (if r.1 == ThresholdStatus::Triggered {
            ControllerModel { current_ma: r.0, ..old(state)@ }.after(ErrorReport::Overcurrent)
        } else {
            ControllerModel { current_ma: r.0, ..old(state)@ }
        }),
{
    let current_ma = adc_to_current_ma(adc_value, config::CURRENT_AT_3V3_MA);
    proof {
        let c = clamp_adc(adc_value);
        if c < 4095 {
            assert(c * 5200 / 4095 < 5200) by (nonlinear_arith)
                requires
                    0 <= c < 4095,
            ;
        }
    }
    set_current_ma(state, current_ma);
    // "At or above the threshold" is "above one less than it".
    let status = detector.check(
        current_ma,
        overcurrent_threshold() - 1,
        now_ms,
        config::OVERCURRENT_DEBOUNCE_MS,
    );
    if matches!(status, ThresholdStatus::Triggered) {
        report_overcurrent(state);
    }
    (current_ma, status)
}

/// Whether iteration `i` of the monitor also reads the temperature.
pub fn is_thermal_iteration(iteration: u32) -> (b: bool)
    ensures
        b == (iteration % THERMAL_CHECK_INTERVAL == 0),
{
    iteration % THERMAL_CHECK_INTERVAL == 0
}

} // verus!
