//! Compile-time configuration of the controller.
//!
//! These values describe how Carvera's PWM request maps onto the ESCON
//! motor controller and must match the ESCON Studio settings.
use vstd::prelude::*;

verus! {

/// Minimum PWM duty cycle to ESCON (0.1% units, 100 = 10.0%).
pub const PWM_MIN_DUTY: u16 = 100;

/// Maximum PWM duty cycle to ESCON (0.1% units, 900 = 90.0%).
pub const PWM_MAX_DUTY: u16 = 900;

/// Speed at minimum duty cycle (ESCON Studio "Speed at 10%" setting).
pub const MIN_RPM: u32 = 0;

/// Speed at maximum duty cycle (ESCON Studio "Speed at 90%" setting).
pub const MAX_RPM: u32 = 12500;

/// Belt drive ratio (motor to spindle) x1000 for integer math (1.635:1).
pub const BELT_RATIO_X1000: u32 = 1635;

/// Maximum spindle RPM (motor max x belt ratio) = 20437.
/// Must match the Carvera setting `spindle.max_rpm`.
pub const CARVERA_SPINDLE_MAX_RPM: u32 = MAX_RPM * BELT_RATIO_X1000 / 1000;

/// Current at ADC full scale (3.3V) in mA.
pub const CURRENT_AT_3V3_MA: u32 = 5200;

/// Encoder pulses per motor revolution from the ESCON speed output.
pub const ESCON_PULSES_PER_REV: u32 = 4;

/// Stall if actual < 30% of requested.
pub const STALL_THRESHOLD_PCT: u32 = 30;

/// Stall condition must persist for 100ms.
pub const STALL_DEBOUNCE_MS: u64 = 100;

/// Speed must stay above threshold for 300ms to clear a stall.
pub const STALL_RECOVERY_MS: u64 = 300;

/// Base grace period after a speed change.
pub const BASE_GRACE_MS: u64 = 200;

/// Additional grace ms per 1000 RPM.
pub const RPM_GRACE_FACTOR: u64 = 15;

/// Requested-speed change rate (RPM/second) below which a change is treated as noise.
pub const SPEED_CHANGE_RATE_THRESHOLD: u32 = 500;

/// Overcurrent threshold as a percentage of `CURRENT_AT_3V3_MA`: a current
/// at or above it (at 100%, a saturated reading) counts as overcurrent.
pub const OVERCURRENT_THRESHOLD_PCT: u32 = 100;

/// Overcurrent must persist this long before triggering.
pub const OVERCURRENT_DEBOUNCE_MS: u64 = 500;

/// Hardware watchdog timeout.
pub const WATCHDOG_TIMEOUT_MS: u64 = 1000;

/// Delay before enabling the spindle on startup.
pub const STARTUP_DELAY_MS: u64 = 100;

/// MCU temperature limit (Celsius).
pub const THERMAL_SHUTDOWN_C: i32 = 70;

/// Show config values on display for this duration.
pub const STARTUP_CONFIG_DISPLAY_MS: u64 = 3000;

/// System clock frequency.
pub const CLOCK_HZ: u32 = 150_000_000;

/// Minimum requested spindle RPM before the enable output is asserted.
pub const MIN_ENABLE_RPM: u32 = 750;

/// Expected PWM input frequency from Carvera.
pub const PWM_INPUT_FREQ_HZ: u32 = 20_000;

/// PWM output frequency to ESCON.
pub const PWM_OUTPUT_FREQ_HZ: u32 = 1_000;

} // verus!
