//! Status LED pattern: solid on error, fast blink while enabled, slow
//! blink while idle.
use vstd::prelude::*;

verus! {

/// Slow blink half-period (1Hz blink).
pub const SLOW_BLINK_MS: u64 = 500;

/// Fast blink half-period (4Hz blink).
pub const FAST_BLINK_MS: u64 = 125;

/// How long the LED is held on in the error state before re-checking.
pub const ERROR_HOLD_MS: u64 = 100;

/// What the LED does next.
#[derive(Clone, Copy, Debug, PartialEq, Eq)]
pub enum LedAction {
    /// Drive the LED on, then wait.
    On { wait_ms: u64 },
    /// Toggle the LED, then wait.
    Toggle { wait_ms: u64 },
}

/// The LED action for the current error and enable state.
pub fn led_action(error: bool, enabled: bool) -> (a: LedAction)
    ensures
        a == (if error {
            LedAction::On { wait_ms: ERROR_HOLD_MS }
        } else if enabled {
            LedAction::Toggle { wait_ms: FAST_BLINK_MS }
        } else {
            LedAction::Toggle { wait_ms: SLOW_BLINK_MS }
        }),
{
    if error {
        LedAction::On { wait_ms: ERROR_HOLD_MS }
    } else if enabled {
        LedAction::Toggle { wait_ms: FAST_BLINK_MS }
    } else {
        LedAction::Toggle { wait_ms: SLOW_BLINK_MS }
    }
}

} // verus!
