//! ADC conversion for the ESCON analog current output.
use vstd::prelude::*;

verus! {

/// Full-scale reading of the 12-bit ADC.
pub const ADC_FULL_SCALE: u32 = 4095;

/// An ADC reading clamped to the 12-bit range.
pub open spec fn clamp_adc(adc_value: u16) -> int {
    if adc_value > ADC_FULL_SCALE {
        ADC_FULL_SCALE as int
    } else {
        adc_value as int
    }
}

/// Convert ADC reading to current in milliamps.
///
/// The RP2350 ADC is 12-bit (0-4095); readings above 4095 are clamped, and
/// full scale corresponds to `max_current_ma`.
pub fn adc_to_current_ma(adc_value: u16, max_current_ma: u32) -> (ma: u32)
    requires
        clamp_adc(adc_value) * max_current_ma <= u32::MAX,
    ensures
        ma == clamp_adc(adc_value) * max_current_ma / (ADC_FULL_SCALE as int),
{
    let clamped: u32 = if (adc_value as u32) > ADC_FULL_SCALE {
        ADC_FULL_SCALE
    } else {
        adc_value as u32
    };
    (clamped * max_current_ma) / ADC_FULL_SCALE
}

} // verus!
