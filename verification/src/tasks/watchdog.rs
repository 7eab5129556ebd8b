//! Watchdog health decision: feed the hardware watchdog during the startup
//! grace period, and afterwards only while every critical task has recorded
//! a recent heartbeat.
use crate::state::{is_heartbeat_recent, wrapped_elapsed};
use vstd::prelude::*;

verus! {

/// Watchdog feed interval (must be less than the watchdog timeout).
pub const FEED_INTERVAL_MS: u64 = 250;

/// Maximum allowed age for the spindle control heartbeat.
pub const SPINDLE_CONTROL_MAX_AGE_MS: u32 = 500;

/// Maximum allowed age for the current monitor heartbeat.
pub const CURRENT_MONITOR_MAX_AGE_MS: u32 = 500;

/// Maximum allowed age for the PWM input heartbeat.
pub const PWM_INPUT_MAX_AGE_MS: u32 = 500;

/// Maximum allowed age for the speed measurement heartbeat (edge-driven,
/// so a generous timeout).
pub const SPEED_MEASURE_MAX_AGE_MS: u32 = 1000;

/// Grace period after boot before heartbeats are required.
pub const STARTUP_GRACE_MS: u64 = 2000;

/// Last heartbeat (wrapping milliseconds) of each critical task.
#[derive(Clone, Copy, Debug)]
pub struct Heartbeats {
    pub spindle_control: u32,
    pub current_monitor: u32,
    pub pwm_input: u32,
    pub speed_measure: u32,
}

impl Heartbeats {
    /// All heartbeats at time zero.
    pub fn new() -> (h: Self)
        ensures
            h.spindle_control == 0 && h.current_monitor == 0 && h.pwm_input == 0 && h.speed_measure
                == 0,
    {
        Heartbeats { spindle_control: 0, current_monitor: 0, pwm_input: 0, speed_measure: 0 }
    }
}

/// Health of each task: (spindle, current, pwm, speed).
pub fn heartbeat_health(h: &Heartbeats, now_ms: u64) -> (r: (bool, bool, bool, bool))
    ensures
        r.0 == (wrapped_elapsed(now_ms as u32, h.spindle_control) <= SPINDLE_CONTROL_MAX_AGE_MS),
        r.1 == (wrapped_elapsed(now_ms as u32, h.current_monitor) <= CURRENT_MONITOR_MAX_AGE_MS),
        r.2 == (wrapped_elapsed(now_ms as u32, h.pwm_input) <= PWM_INPUT_MAX_AGE_MS),
        r.3 == (wrapped_elapsed(now_ms as u32, h.speed_measure) <= SPEED_MEASURE_MAX_AGE_MS),
{
    (
        is_heartbeat_recent(&h.spindle_control, now_ms, SPINDLE_CONTROL_MAX_AGE_MS),
        is_heartbeat_recent(&h.current_monitor, now_ms, CURRENT_MONITOR_MAX_AGE_MS),
        is_heartbeat_recent(&h.pwm_input, now_ms, PWM_INPUT_MAX_AGE_MS),
        is_heartbeat_recent(&h.speed_measure, now_ms, SPEED_MEASURE_MAX_AGE_MS),
    )
}

/// Whether to feed the watchdog: always during the startup grace period,
/// afterwards only if every task is healthy.
pub fn should_feed_watchdog(uptime_ms: u64, health: (bool, bool, bool, bool)) -> (feed: bool)
    ensures
        feed == (uptime_ms < STARTUP_GRACE_MS || (health.0 && health.1 && health.2 && health.3)),
{
    if uptime_ms < STARTUP_GRACE_MS {
        true
    } else {
        health.0 && health.1 && health.2 && health.3
    }
}

} // verus!
