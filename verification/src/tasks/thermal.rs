//! Decision of the MCU temperature monitor: a thermal shutdown at or above
//! the temperature limit.
use crate::adc::{clamp_adc, ADC_FULL_SCALE};
use crate::state::config;
use crate::state::{report_thermal, ControllerState, ErrorReport};
use crate::temperature::{adc_to_temp_c, temp_spec, DEFAULT_ADC_VREF_MV};
use vstd::prelude::*;

verus! {

/// Temperature check interval of the stand-alone thermal monitor (5s).
pub const THERMAL_CHECK_INTERVAL_MS: u64 = 5000;

/// One temperature reading: convert it and latch a thermal error at or
/// above the shutdown temperature. Returns the temperature.
pub fn thermal_step(state: &mut ControllerState, temp_adc: u16) -> (t: i32)
    ensures
        t == temp_spec((clamp_adc(temp_adc) * DEFAULT_ADC_VREF_MV / (ADC_FULL_SCALE as int)) as u32),
        final(state)@ == (if t >= config::THERMAL_SHUTDOWN_C {
            old(state)@.after(ErrorReport::Thermal)
        } else {
            old(state)@
        }),
{
    let temp_c = adc_to_temp_c(temp_adc);
    if temp_c >= config::THERMAL_SHUTDOWN_C {
        report_thermal(state);
    }
    temp_c
}

} // verus!
