//! PWM and RPM conversion functions.
use vstd::arithmetic::div_mod::lemma_div_is_ordered;
use vstd::prelude::*;

verus! {

/// RPM for an output duty (0.01% units): 10% and below gives `min_rpm`, 90%
/// and above `max_rpm`, linear (rounded) in between.
pub open spec fn duty_to_rpm_spec(output_duty: u32, min_rpm: u32, max_rpm: u32) -> int {
    if output_duty <= 1000 {
        min_rpm as int
    } else if output_duty >= 9000 {
        max_rpm as int
    } else {
        min_rpm + ((output_duty - 1000) * (max_rpm - min_rpm) + 4000) / 8000
    }
}

/// Calculate RPM from output duty cycle (0.01% units, 1000 = 10%, 9000 = 90%).
pub fn duty_to_rpm(output_duty: u32, min_rpm: u32, max_rpm: u32) -> (rpm: u32)
    requires
        1000 < output_duty < 9000 ==> (min_rpm <= max_rpm && (output_duty - 1000) * (max_rpm
            - min_rpm) + 4000 <= u32::MAX && duty_to_rpm_spec(output_duty, min_rpm, max_rpm)
            <= u32::MAX),
    ensures
        rpm == duty_to_rpm_spec(output_duty, min_rpm, max_rpm),
{
    if output_duty <= 1000 {
        return min_rpm;
    }
    if output_duty >= 9000 {
        return max_rpm;
    }
    let duty_fraction = output_duty - 1000;
    min_rpm + (duty_fraction * (max_rpm - min_rpm) + 4000) / 8000
}

/// RPM from encoder frequency: frequency * 60 / pulses_per_rev, rounded; 0 for no pulses.
pub open spec fn frequency_to_rpm_spec(frequency_hz: u32, pulses_per_rev: u32) -> int {
    if pulses_per_rev == 0 {
        0
    } else {
        (frequency_hz * 60 + pulses_per_rev / 2) / (pulses_per_rev as int)
    }
}

/// Calculate RPM from encoder frequency.
pub fn frequency_to_rpm(frequency_hz: u32, pulses_per_rev: u32) -> (rpm: u32)
    requires
        pulses_per_rev > 0 ==> frequency_hz * 60 + pulses_per_rev / 2 <= u32::MAX,
    ensures
        rpm == frequency_to_rpm_spec(frequency_hz, pulses_per_rev),
{
    if pulses_per_rev == 0 {
        return 0;
    }
    (frequency_hz * 60 + pulses_per_rev / 2) / pulses_per_rev
}

/// Motor RPM for a spindle RPM: spindle_rpm * 1000 / belt_ratio_x1000,
/// rounded, truncated to u32; 0 for a zero ratio.
pub open spec fn spindle_to_motor_rpm_spec(spindle_rpm: u32, belt_ratio_x1000: u32) -> u32 {
    if belt_ratio_x1000 == 0 {
        0
    } else {
        ((spindle_rpm * 1000 + belt_ratio_x1000 / 2) / (belt_ratio_x1000 as int)) as u32
    }
}

/// Convert spindle RPM to motor RPM using the belt ratio.
pub fn spindle_to_motor_rpm(spindle_rpm: u32, belt_ratio_x1000: u32) -> (rpm: u32)
    ensures
        rpm == spindle_to_motor_rpm_spec(spindle_rpm, belt_ratio_x1000),
{
    if belt_ratio_x1000 == 0 {
        return 0;
    }
    ((spindle_rpm as u64 * 1000 + belt_ratio_x1000 as u64 / 2) / belt_ratio_x1000 as u64) as u32
}

/// ESCON output duty (0-1000 scale) for a motor RPM: 100 at or below
/// `min_rpm`, 900 at or above `max_rpm`, linear (rounded) in between.
pub open spec fn output_duty_spec(motor_rpm: u32, min_rpm: u32, max_rpm: u32) -> int {
    if motor_rpm <= min_rpm {
        100
    } else if motor_rpm >= max_rpm {
        900
    } else {
        let range = max_rpm - min_rpm;
        let d = 100 + ((motor_rpm - min_rpm) * 800 + range / 2) / range;
        if d < 900 {
            d
        } else {
            900
        }
    }
}

/// Convert motor RPM to ESCON output duty (0-1000 scale), the reverse of `duty_to_rpm`.
pub fn motor_rpm_to_output_duty(motor_rpm: u32, min_rpm: u32, max_rpm: u32) -> (duty: u16)
    ensures
        duty == output_duty_spec(motor_rpm, min_rpm, max_rpm),
        100 <= duty <= 900,
{
    if motor_rpm <= min_rpm {
        return 100;
    }
    if motor_rpm >= max_rpm {
        return 900;
    }
    let range = max_rpm - min_rpm;
    let offset = motor_rpm - min_rpm;
    let q = (offset as u64 * 800 + range as u64 / 2) / range as u64;
    assert(q <= 800) by (nonlinear_arith)
        requires
            q == (offset * 800 + range / 2) / (range as int),
            offset < range,
            range > 0,
    ;
    let d = 100 + q as u32;
    if d < 900 {
        d as u16
    } else {
        900
    }
}

/// The output duty never decreases as the motor speed rises.
pub proof fn lemma_output_duty_monotone(rpm1: u32, rpm2: u32, min_rpm: u32, max_rpm: u32)
    requires
        rpm1 <= rpm2,
    ensures
        output_duty_spec(rpm1, min_rpm, max_rpm) <= output_duty_spec(rpm2, min_rpm, max_rpm),
{
    if min_rpm < rpm1 && rpm2 < max_rpm {
        let range = max_rpm - min_rpm;
        lemma_div_is_ordered(
            (rpm1 - min_rpm) * 800 + range / 2,
            (rpm2 - min_rpm) * 800 + range / 2,
            range as int,
        );
    } else if min_rpm < rpm1 && rpm1 < max_rpm {
        let range = max_rpm - min_rpm;
        assert(((rpm1 - min_rpm) * 800 + range / 2) / (range as int) <= 800) by (nonlinear_arith)
            requires
                0 < rpm1 - min_rpm < range,
        ;
    } else if min_rpm < rpm2 && rpm2 < max_rpm {
        let range = max_rpm - min_rpm;
        assert(((rpm2 - min_rpm) * 800 + range / 2) / (range as int) >= 0) by (nonlinear_arith)
            requires
                0 < rpm2 - min_rpm < range,
        ;
    }
}

} // verus!
