//! Controller-wide state: task heartbeats, the measured current, the
//! enable flag, and the centralized error state with priority-based
//! arbitration.
//!
//! Priority order: Overcurrent > Thermal > Stall > StallCleared (stall
//! visually latched after its alert released) > EsconAlert > none.
//! Overcurrent and Thermal are permanent latches (only a power cycle
//! clears them). Stall follows the stall detector's two-phase latch;
//! the ESCON alert follows its pin.
pub mod config;
pub mod pins;

use crate::display::ErrorType;
use vstd::prelude::*;

verus! {

/// Record a heartbeat for a task: the current millisecond timestamp,
/// truncated to 32 bits (wrapping).
pub fn heartbeat(target: &mut u32, now_ms: u64)
    ensures
        *final(target) == now_ms as u32,
{
    *target = now_ms as u32;
}

/// Milliseconds from a 32-bit timestamp `last` to `now`, across a wrap of the counter.
pub open spec fn wrapped_elapsed(now: u32, last: u32) -> int {
    if now >= last {
        now - last
    } else {
        now - last + 0x1_0000_0000
    }
}

/// Whether a heartbeat is at most `max_age_ms` old; the 32-bit timestamps
/// are compared with wrapping arithmetic.
pub fn is_heartbeat_recent(target: &u32, now_ms: u64, max_age_ms: u32) -> (recent: bool)
    ensures
        recent == (wrapped_elapsed(now_ms as u32, *target) <= max_age_ms),
{
    let last = *target;
    let now_u32 = now_ms as u32;
    let elapsed = now_u32.wrapping_sub(last);
    elapsed <= max_age_ms
}

/// The abstract content of the [`ControllerState`].
pub struct ControllerModel {
    /// Motor current in mA.
    pub current_ma: u32,
    /// Spindle enable state.
    pub enabled: bool,
    /// Calibration sequence detection active (suppresses stall detection).
    pub cal_sequence_active: bool,
    /// Permanent safety shutdown latch (overcurrent or thermal).
    pub safety_shutdown: bool,
    pub overcurrent: bool,
    pub thermal: bool,
    pub stall_alert: bool,
    /// Stall visually latched (display shows the stall after the alert released).
    pub stall_latched: bool,
    pub escon_alert: bool,
}

/// A report to the centralized error state.
pub enum ErrorReport {
    Overcurrent,
    Thermal,
    StallAlert(bool),
    StallLatched(bool),
    EsconAlert(bool),
}

impl ControllerModel {
    /// The state after a report.
    pub open spec fn after(self, report: ErrorReport) -> ControllerModel {
        match report {
            ErrorReport::Overcurrent => ControllerModel {
                overcurrent: true,
                safety_shutdown: true,
                ..self
            },
            ErrorReport::Thermal => ControllerModel { thermal: true, safety_shutdown: true, ..self },
            ErrorReport::StallAlert(a) => ControllerModel { stall_alert: a, ..self },
            ErrorReport::StallLatched(l) => ControllerModel { stall_latched: l, ..self },
            ErrorReport::EsconAlert(a) => ControllerModel { escon_alert: a, ..self },
        }
    }

    /// Whether any error source is active.
    pub open spec fn any_error(self) -> bool {
        self.overcurrent || self.thermal || self.stall_alert || self.escon_alert
    }

    /// The highest-priority active error.
    pub open spec fn active_error(self) -> ErrorType {
        if self.overcurrent {
            ErrorType::Overcurrent
        } else if self.thermal {
            ErrorType::Thermal
        } else if self.stall_alert {
            ErrorType::Stall
        } else if self.stall_latched {
            ErrorType::StallCleared
        } else if self.escon_alert {
            ErrorType::EsconAlert
        } else {
            ErrorType::NoError
        }
    }
}

/// State shared between the controller's tasks.
pub struct ControllerState {
    current_ma: u32,
    enabled: bool,
    cal_sequence_active: bool,
    safety_shutdown: bool,
    overcurrent_error: bool,
    thermal_error: bool,
    stall_alert: bool,
    stall_latched: bool,
    escon_alert_active: bool,
}

impl View for ControllerState {
    type V = ControllerModel;

    closed spec fn view(&self) -> ControllerModel {
        ControllerModel {
            current_ma: self.current_ma,
            enabled: self.enabled,
            cal_sequence_active: self.cal_sequence_active,
            safety_shutdown: self.safety_shutdown,
            overcurrent: self.overcurrent_error,
            thermal: self.thermal_error,
            stall_alert: self.stall_alert,
            stall_latched: self.stall_latched,
            escon_alert: self.escon_alert_active,
        }
    }
}

impl ControllerState {
    /// The safety latch is set exactly when overcurrent or thermal has fired.
    #[verifier::type_invariant]
    closed spec fn inv(&self) -> bool {
        self.safety_shutdown == (self.overcurrent_error || self.thermal_error)
    }

    /// The power-up state: no current, disabled, no errors.
    pub open spec fn power_up() -> ControllerModel {
        ControllerModel {
            current_ma: 0,
            enabled: false,
            cal_sequence_active: false,
            safety_shutdown: false,
            overcurrent: false,
            thermal: false,
            stall_alert: false,
            stall_latched: false,
            escon_alert: false,
        }
    }

    /// The state at power-up.
    pub fn new() -> (s: Self)
        ensures
            s@ == ControllerState::power_up(),
    {
        ControllerState {
            current_ma: 0,
            enabled: false,
            cal_sequence_active: false,
            safety_shutdown: false,
            overcurrent_error: false,
            thermal_error: false,
            stall_alert: false,
            stall_latched: false,
            escon_alert_active: false,
        }
    }

    /// Set the spindle enable flag.
    pub fn set_enabled(&mut self, enabled: bool)
        ensures
            final(self)@ == (ControllerModel { enabled, ..old(self)@ }),
    {
        proof {
            use_type_invariant(&*self);
        }
        self.enabled = enabled;
    }

    /// The spindle enable flag.
    pub fn is_enabled(&self) -> (e: bool)
        ensures
            e == self@.enabled,
    {
        self.enabled
    }

    /// Set whether a calibration sequence is in progress.
    pub fn set_cal_sequence_active(&mut self, active: bool)
        ensures
            final(self)@ == (ControllerModel { cal_sequence_active: active, ..old(self)@ }),
    {
        proof {
            use_type_invariant(&*self);
        }
        self.cal_sequence_active = active;
    }

    /// Whether a calibration sequence is in progress.
    pub fn is_cal_sequence_active(&self) -> (a: bool)
        ensures
            a == self@.cal_sequence_active,
    {
        self.cal_sequence_active
    }

    /// Whether the stall alert output is reported active.
    pub fn is_stall_alert_active(&self) -> (a: bool)
        ensures
            a == self@.stall_alert,
    {
        self.stall_alert
    }
}

impl Default for ControllerState {
    fn default() -> (s: Self)
        ensures
            s@ == ControllerState::power_up(),
    {
        Self::new()
    }
}

/// Get current reading in mA.
pub fn get_current_ma(state: &ControllerState) -> (ma: u32)
    ensures
        ma == state@.current_ma,
{
    state.current_ma
}

/// Set current reading in mA.
pub fn set_current_ma(state: &mut ControllerState, value: u32)
    ensures
        final(state)@ == (ControllerModel { current_ma: value, ..old(state)@ }),
{
    proof {
        use_type_invariant(&*state);
    }
    state.current_ma = value;
}

/// Report overcurrent error. Permanently latches the safety shutdown.
pub fn report_overcurrent(state: &mut ControllerState)
    ensures
        final(state)@ == old(state)@.after(ErrorReport::Overcurrent),
{
    proof {
        use_type_invariant(&*state);
    }
    *state = ControllerState { overcurrent_error: true, safety_shutdown: true, ..*state };
}

/// Report thermal error. Permanently latches the safety shutdown.
pub fn report_thermal(state: &mut ControllerState)
    ensures
        final(state)@ == old(state)@.after(ErrorReport::Thermal),
{
    proof {
        use_type_invariant(&*state);
    }
    *state = ControllerState { thermal_error: true, safety_shutdown: true, ..*state };
}

/// Report stall alert state. Follows detector state (not permanently latched).
pub fn report_stall_alert(state: &mut ControllerState, active: bool)
    ensures
        final(state)@ == old(state)@.after(ErrorReport::StallAlert(active)),
{
    proof {
        use_type_invariant(&*state);
    }
    state.stall_alert = active;
}

/// Report stall visual latch state (display shows "Stall" vs "StallCleared").
pub fn report_stall_latched(state: &mut ControllerState, latched: bool)
    ensures
        final(state)@ == old(state)@.after(ErrorReport::StallLatched(latched)),
{
    proof {
        use_type_invariant(&*state);
    }
    state.stall_latched = latched;
}

/// Report ESCON alert state. Follows pin state (not latched).
pub fn report_escon_alert(state: &mut ControllerState, active: bool)
    ensures
        final(state)@ == old(state)@.after(ErrorReport::EsconAlert(active)),
{
    proof {
        use_type_invariant(&*state);
    }
    state.escon_alert_active = active;
}

/// Check if a permanent safety shutdown is latched (overcurrent or thermal).
pub fn is_safety_shutdown(state: &ControllerState) -> (s: bool)
    ensures
        s == state@.safety_shutdown,
        s == (state@.overcurrent || state@.thermal),
{
    proof {
        use_type_invariant(state);
    }
    state.safety_shutdown
}

/// Check if any error source is currently active.
pub fn any_error_active(state: &ControllerState) -> (a: bool)
    ensures
        a == state@.any_error(),
{
    state.overcurrent_error || state.thermal_error || state.stall_alert || state.escon_alert_active
}

/// Get the highest-priority active error type for display and GPIO output.
/// Priority: Overcurrent > Thermal > Stall > StallCleared > EsconAlert > None
pub fn get_active_error_type(state: &ControllerState) -> (e: ErrorType)
    ensures
        e == state@.active_error(),
{
    if state.overcurrent_error {
        return ErrorType::Overcurrent;
    }
    if state.thermal_error {
        return ErrorType::Thermal;
    }
    let stall_latched = state.stall_latched;
    let stall_alert = state.stall_alert;
    if stall_alert {
        return ErrorType::Stall;
    }
    if stall_latched {
        return ErrorType::StallCleared;
    }
    if state.escon_alert_active {
        return ErrorType::EsconAlert;
    }
    ErrorType::NoError
}

/// Overcurrent and thermal errors are permanent: once the safety shutdown
/// is latched no report clears it, nor the overcurrent or thermal flag, and
/// an error is then always active.
pub proof fn lemma_safety_latch_permanent(s: ControllerModel, report: ErrorReport)
    ensures
        s.safety_shutdown ==> s.after(report).safety_shutdown,
        s.overcurrent ==> (s.after(report).overcurrent && s.after(report).active_error()
            == ErrorType::Overcurrent),
        s.thermal ==> s.after(report).thermal,
        (s.overcurrent || s.thermal) ==> s.after(report).any_error(),
{
}

/// Stall and ESCON alerts follow their source: reporting them inactive
/// clears them, and with no latched fault and no stall latch the error
/// state is then clear.
pub proof fn lemma_alerts_follow_source(s: ControllerModel)
    ensures
        !s.after(ErrorReport::StallAlert(false)).stall_alert,
        !s.after(ErrorReport::EsconAlert(false)).escon_alert,
        (!s.overcurrent && !s.thermal && !s.stall_latched) ==> s.after(
            ErrorReport::StallAlert(false),
        ).after(ErrorReport::EsconAlert(false)).active_error() == ErrorType::NoError,
        (!s.overcurrent && !s.thermal) ==> !s.after(ErrorReport::StallAlert(false)).after(
            ErrorReport::EsconAlert(false),
        ).any_error(),
{
}

/// The reported error type is active exactly when some error source is, or
/// the stall latch is shown.
pub proof fn lemma_active_error_consistent(s: ControllerModel)
    ensures
        s.any_error() ==> s.active_error() != ErrorType::NoError,
        s.active_error() == ErrorType::NoError <==> (!s.any_error() && !s.stall_latched),
{
}

} // verus!
