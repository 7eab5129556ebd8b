//! Temperature conversion for the RP2350 internal temperature sensor.
use crate::adc::{clamp_adc, ADC_FULL_SCALE};
use vstd::prelude::*;

verus! {

/// ADC reference voltage in millivolts (default for RP2350).
pub const DEFAULT_ADC_VREF_MV: u32 = 3300;

/// Temperature sensor voltage at 27C in millivolts (RP2350 datasheet).
pub const TEMP_SENSOR_V27_MV: u32 = 706;

/// Temperature sensor slope in uV/C (1.721 mV/C).
pub const TEMP_SENSOR_SLOPE_UV_C: u32 = 1721;

/// Convert 12-bit ADC reading to voltage in millivolts (readings above 4095 clamp).
pub fn adc_to_voltage_mv(adc_value: u16, vref_mv: u32) -> (mv: u32)
    requires
        clamp_adc(adc_value) * vref_mv <= u32::MAX,
    ensures
        mv == clamp_adc(adc_value) * vref_mv / (ADC_FULL_SCALE as int),
{
    let clamped: u32 = if (adc_value as u32) > ADC_FULL_SCALE {
        ADC_FULL_SCALE
    } else {
        adc_value as u32
    };
    (clamped * vref_mv) / ADC_FULL_SCALE
}

/// A millivolt difference as the `i32` it is reinterpreted as (two's
/// complement wrap above `i32::MAX`).
pub open spec fn as_i32_spec(d: int) -> int {
    if d <= i32::MAX {
        d
    } else {
        d - 0x1_0000_0000
    }
}

/// `n / d` truncated toward zero, for a positive `d`.
pub open spec fn trunc_div(n: int, d: int) -> int {
    if n >= 0 {
        n / d
    } else {
        -((-n) / d)
    }
}

/// Temperature for a sensor voltage: T = 27 - (V - 706) / 1.721, each side
/// of 706 mV truncated toward 27C (in `i32` arithmetic).
pub open spec fn temp_spec(voltage_mv: u32) -> int {
    if voltage_mv > TEMP_SENSOR_V27_MV {
        27 - trunc_div(
            as_i32_spec(voltage_mv - TEMP_SENSOR_V27_MV) * 1000,
            TEMP_SENSOR_SLOPE_UV_C as int,
        )
    } else {
        27 + (TEMP_SENSOR_V27_MV - voltage_mv) * 1000 / (TEMP_SENSOR_SLOPE_UV_C as int)
    }
}

/// The `i32` arithmetic of `voltage_to_temp_c` does not overflow.
pub open spec fn temp_in_range(voltage_mv: u32) -> bool {
    voltage_mv > TEMP_SENSOR_V27_MV ==> i32::MIN <= as_i32_spec(voltage_mv - TEMP_SENSOR_V27_MV)
        * 1000 <= i32::MAX
}

/// Convert voltage to temperature using the RP2350 internal sensor.
pub fn voltage_to_temp_c(voltage_mv: u32) -> (t: i32)
    requires
        temp_in_range(voltage_mv),
    ensures
        t == temp_spec(voltage_mv),
{
    if voltage_mv > TEMP_SENSOR_V27_MV {
        let d: u32 = voltage_mv - TEMP_SENSOR_V27_MV;
        let n: i32 = d as i32;
        assert(n == if d <= 0x7FFF_FFFFu32 { d as int } else { d - 0x1_0000_0000int })
            by (bit_vector)
            requires
                n == d as i32,
        ;
        let q: i32 = n * 1000 / TEMP_SENSOR_SLOPE_UV_C as i32;
        assert(q == trunc_div(n * 1000, 1721));
        27i32 - q
    } else {
        27i32 + ((TEMP_SENSOR_V27_MV - voltage_mv) as i32 * 1000 / TEMP_SENSOR_SLOPE_UV_C as i32)
    }
}

/// Convert a 12-bit ADC reading directly to temperature in Celsius (3.3V reference).
pub fn adc_to_temp_c(adc_value: u16) -> (t: i32)
    ensures
        t == temp_spec((clamp_adc(adc_value) * DEFAULT_ADC_VREF_MV / (ADC_FULL_SCALE as int)) as u32),
{
    assert(clamp_adc(adc_value) * DEFAULT_ADC_VREF_MV <= 4095 * 3300);
    let voltage_mv = adc_to_voltage_mv(adc_value, DEFAULT_ADC_VREF_MV);
    assert(voltage_mv <= 3300) by (nonlinear_arith)
        requires
            voltage_mv == clamp_adc(adc_value) * 3300 / 4095,
            0 <= clamp_adc(adc_value) <= 4095,
    ;
    voltage_to_temp_c(voltage_mv)
}

} // verus!
