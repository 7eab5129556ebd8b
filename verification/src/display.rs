//! Display types shared between the control logic and the LCD renderer.
use vstd::prelude::*;

verus! {

/// Error type for display and fault reporting.
#[derive(Debug, Clone, Copy, PartialEq, Eq)]
pub enum ErrorType {
    /// No error
    NoError,
    Stall,
    /// Stall was detected but alert has been released (spindle stopped for 2s+)
    StallCleared,
    Overcurrent,
    EsconAlert,
    Thermal,
}

/// Display status data.
#[derive(Clone, Copy)]
pub struct DisplayStatus {
    pub requested_rpm: u32,
    pub actual_rpm: u32,
    pub current_ma: u32,
    pub error: bool,
    pub error_type: ErrorType,
    pub enabled: bool,
    /// Time in ms to reach stable speed (shown briefly after stabilization)
    pub stabilization_time_ms: Option<u32>,
}

impl Default for DisplayStatus {
    /// The idle spindle: all zero, no error, disabled.
    fn default() -> (s: Self)
        ensures
            s.requested_rpm == 0,
            s.actual_rpm == 0,
            s.current_ma == 0,
            !s.error,
            s.error_type == ErrorType::NoError,
            !s.enabled,
            s.stabilization_time_ms is None,
    {
        DisplayStatus {
            requested_rpm: 0,
            actual_rpm: 0,
            current_ma: 0,
            error: false,
            error_type: ErrorType::NoError,
            enabled: false,
            stabilization_time_ms: None,
        }
    }
}

} // verus!
