//! Decisions of the LCD task: what the two lines and the backlight show for
//! a calibration status or a spindle status, when calibration owns the
//! display, and when the controller is re-initialised.
use crate::calibration::{CalPhase, CalibrationStatus};
use crate::display::{DisplayStatus, ErrorType};
use crate::lcd::format::{
    backlight_spec, blank_line, cal_line1_spec, cal_line2_spec, deviation_spec, error_line1,
    line1_spec, line2_spec, overlay, TEXT_CALIBRATION, TEXT_CAL_ABORTED, TEXT_CAL_CLEARED,
    TEXT_CAL_COMPLETE, TEXT_DETECTED, TEXT_NO_CALIBRATION, TEXT_RESTART, TEXT_RESUMING,
    TEXT_RUN_CAL, TEXT_SIGNAL_LOST, SPACE,
};
use crate::lcd::{
    calculate_backlight, calculate_deviation, format_cal_aborted, format_cal_cleared,
    format_cal_complete, format_cal_detect, format_cal_line1, format_cal_line2,
    format_error_lines, format_line1, format_line2, format_no_cal_warning, rgb, BacklightColor,
    Status,
};
use vstd::prelude::*;

verus! {

/// LCD update interval (500ms = 2Hz); the HD44780 refreshes in ~350ms.
pub const LCD_UPDATE_INTERVAL_MS: u64 = 500;

/// Update interval while calibration records, for a smooth step counter.
pub const RECORDING_UPDATE_INTERVAL_MS: u64 = 150;

/// Iterations between two re-initialisations (~5s at 500ms).
pub const RESET_ITERATIONS: u8 = 10;

/// Iterations between two re-initialisations while recording (~5s at 150ms).
pub const RECORDING_RESET_ITERATIONS: u8 = 33;

/// What the LCD shows: two lines and a backlight color.
#[derive(Clone, Copy)]
pub struct Screen {
    pub line1: [u8; 16],
    pub line2: [u8; 16],
    pub color: BacklightColor,
}

/// Whether calibration draws its own screens in this phase (the passive
/// phases Detecting and Loaded leave the spindle status on the display).
pub open spec fn cal_owns_spec(phase: CalPhase) -> bool {
    !(phase == CalPhase::Detecting || phase == CalPhase::Loaded)
}

/// Whether calibration owns the display in `phase`.
pub fn cal_owns_display(phase: CalPhase) -> (owns: bool)
    ensures
        owns == cal_owns_spec(phase),
{
    !matches!(phase, CalPhase::Detecting | CalPhase::Loaded)
}

/// Lines and color of the calibration screen for a status; none in the
/// passive phases.
pub open spec fn cal_screen_spec(s: CalibrationStatus) -> Option<(Seq<u8>, Seq<u8>, BacklightColor)> {
    match s.phase {
        CalPhase::NoCal => Some((TEXT_NO_CALIBRATION@, TEXT_RUN_CAL@, rgb(255, 255, 0))),
        CalPhase::SequenceDetected => Some(
            (
                overlay(blank_line(), 1, TEXT_CALIBRATION@),
                overlay(blank_line(), 3, TEXT_DETECTED@),
                rgb(255, 0, 255),
            ),
        ),
        CalPhase::Recording => Some(
            (
                cal_line1_spec(s.step, s.total_steps, s.expected_rpm),
                cal_line2_spec(s.measured_duty),
                rgb(0, 255, 255),
            ),
        ),
        CalPhase::Complete => Some(
            (overlay(blank_line(), 0, TEXT_CAL_COMPLETE@), TEXT_RESUMING@, rgb(0, 255, 0)),
        ),
        CalPhase::Cleared => Some(
            (overlay(blank_line(), 0, TEXT_CAL_CLEARED@), TEXT_RUN_CAL@, rgb(255, 255, 0)),
        ),
        CalPhase::Aborted => Some(
            (
                overlay(blank_line(), 0, TEXT_CAL_ABORTED@),
                overlay(blank_line(), 0, TEXT_SIGNAL_LOST@),
                rgb(255, 0, 0),
            ),
        ),
        CalPhase::Detecting => None,
        CalPhase::Loaded => None,
    }
}

/// Whether a screen shows the given lines and color.
pub open spec fn shows(screen: Screen, expected: (Seq<u8>, Seq<u8>, BacklightColor)) -> bool {
    screen.line1@ == expected.0 && screen.line2@ == expected.1 && screen.color == expected.2
}

/// The calibration screen for a status, or none in the passive phases.
pub fn cal_screen(status: &CalibrationStatus) -> (screen: Option<Screen>)
    ensures
        screen is Some <==> cal_screen_spec(*status) is Some,
        screen matches Some(sc) ==> shows(sc, cal_screen_spec(*status)->0),
{
    match status.phase {
        CalPhase::NoCal => {
            let (line1, line2) = format_no_cal_warning();
            Some(Screen { line1, line2, color: BacklightColor::yellow() })
        },
        CalPhase::SequenceDetected => {
            let (line1, line2) = format_cal_detect();
            Some(Screen { line1, line2, color: BacklightColor::magenta() })
        },
        CalPhase::Recording => {
            let line1 = format_cal_line1(status.step, status.total_steps, status.expected_rpm);
            let line2 = format_cal_line2(status.measured_duty);
            Some(Screen { line1, line2, color: BacklightColor::cyan() })
        },
        CalPhase::Complete => {
            let (line1, line2) = format_cal_complete();
            Some(Screen { line1, line2, color: BacklightColor::bright_green() })
        },
        CalPhase::Cleared => {
            let (line1, line2) = format_cal_cleared();
            Some(Screen { line1, line2, color: BacklightColor::yellow() })
        },
        CalPhase::Aborted => {
            let (line1, line2) = format_cal_aborted();
            Some(Screen { line1, line2, color: BacklightColor::red() })
        },
        CalPhase::Detecting => None,
        CalPhase::Loaded => None,
    }
}

/// The line-2 status for an error type.
pub open spec fn lcd_status_spec(error_type: ErrorType) -> Status {
    match error_type {
        ErrorType::NoError => Status::Normal,
        ErrorType::StallCleared => Status::StallCleared,
        ErrorType::Stall => Status::Stall,
        _ => Status::Error(error_type),
    }
}

/// Map an error type to the status shown on line 2.
pub fn lcd_status(error_type: ErrorType) -> (s: Status)
    ensures
        s == lcd_status_spec(error_type),
{
    match error_type {
        ErrorType::NoError => Status::Normal,
        ErrorType::StallCleared => Status::StallCleared,
        ErrorType::Stall => Status::Stall,
        ErrorType::Overcurrent => Status::Error(error_type),
        ErrorType::EsconAlert => Status::Error(error_type),
        ErrorType::Thermal => Status::Error(error_type),
    }
}

/// Lines and color of the status screen: a latched error fills both lines,
/// otherwise target, deviation and current on line 1 and status and
/// actual speed on line 2.
pub open spec fn status_screen_spec(s: DisplayStatus) -> (Seq<u8>, Seq<u8>, BacklightColor) {
    let color = backlight_spec(s.enabled, s.requested_rpm, s.actual_rpm, s.current_ma, s.error);
    match lcd_status_spec(s.error_type) {
        Status::Error(e) => (error_line1(e), TEXT_RESTART@, color),
        st => {
            let pct = deviation_spec(s.requested_rpm, s.actual_rpm) as i32;
            let (dev, overflow) = if s.requested_rpm == 0 {
                (0i32, None)
            } else if pct > 99 {
                (99i32, Some(pct))
            } else if pct < -99 {
                (-99i32, Some(pct))
            } else {
                (pct, None)
            };
            (
                line1_spec(s.requested_rpm, dev, s.current_ma),
                line2_spec(st, overflow, s.enabled, s.actual_rpm, s.stabilization_time_ms),
                color,
            )
        },
    }
}

/// The status screen for a spindle status.
pub fn status_screen(status: &DisplayStatus) -> (screen: Screen)
    requires
        status.current_ma * 100 <= u32::MAX,
    ensures
        shows(screen, status_screen_spec(*status)),
{
    let st = lcd_status(status.error_type);
    let (line1, line2) = match st {
        Status::Error(e) => format_error_lines(e),
        _ => {
            let (deviation_pct, overflow) = calculate_deviation(
                status.requested_rpm,
                status.actual_rpm,
            );
            let l1 = format_line1(status.requested_rpm, deviation_pct, status.current_ma);
            let l2 = format_line2(
                st,
                overflow,
                status.enabled,
                status.actual_rpm,
                status.stabilization_time_ms,
            );
            (l1, l2)
        },
    };
    let color = calculate_backlight(
        status.enabled,
        status.requested_rpm,
        status.actual_rpm,
        status.current_ma,
        status.error,
    );
    Screen { line1, line2, color }
}

/// The abstract state of an [`LcdController`].
pub struct LcdModel {
    /// Iterations since the last re-initialisation (wrapping).
    pub reset_counter: u8,
    /// The lines last written, rewritten after a re-initialisation.
    pub last_line1: Seq<u8>,
    pub last_line2: Seq<u8>,
    /// The last calibration phase reported.
    pub cal_phase: CalPhase,
}

/// Iterations between re-initialisations in a calibration phase.
pub open spec fn reset_threshold_spec(phase: CalPhase) -> u8 {
    if phase == CalPhase::Recording {
        RECORDING_RESET_ITERATIONS
    } else {
        RESET_ITERATIONS
    }
}

/// Update interval in a calibration phase.
pub open spec fn interval_spec(phase: CalPhase) -> u64 {
    if phase == CalPhase::Recording {
        RECORDING_UPDATE_INTERVAL_MS
    } else {
        LCD_UPDATE_INTERVAL_MS
    }
}

/// State of the LCD task between iterations.
pub struct LcdController {
    reset_counter: u8,
    last_line1: [u8; 16],
    last_line2: [u8; 16],
    cal_phase: CalPhase,
}

impl View for LcdController {
    type V = LcdModel;

    closed spec fn view(&self) -> LcdModel {
        LcdModel {
            reset_counter: self.reset_counter,
            last_line1: self.last_line1@,
            last_line2: self.last_line2@,
            cal_phase: self.cal_phase,
        }
    }
}

impl LcdController {
    /// A controller with blank lines, in the passive Detecting phase, so
    /// that the spindle status shows until calibration reports.
    pub fn new() -> (c: Self)
        ensures
            c@.reset_counter == 0,
            c@.last_line1 == blank_line(),
            c@.last_line2 == blank_line(),
            c@.cal_phase == CalPhase::Detecting,
    {
        let c = LcdController {
            reset_counter: 0,
            last_line1: [SPACE; 16],
            last_line2: [SPACE; 16],
            cal_phase: CalPhase::Detecting,
        };
        assert(c.last_line1@ =~= blank_line());
        assert(c.last_line2@ =~= blank_line());
        c
    }

    /// A new calibration status: remember its phase, and return the screen
    /// to draw when calibration owns the display.
    pub fn on_cal_status(&mut self, status: &CalibrationStatus) -> (screen: Option<Screen>)
        ensures
            final(self)@.cal_phase == status.phase,
            final(self)@.reset_counter == old(self)@.reset_counter,
            screen is Some <==> cal_owns_spec(status.phase),
            match screen {
                Some(sc) => shows(sc, cal_screen_spec(*status)->0) && final(self)@.last_line1
                    == sc.line1@ && final(self)@.last_line2 == sc.line2@,
                None => final(self)@.last_line1 == old(self)@.last_line1 && final(self)@.last_line2
                    == old(self)@.last_line2,
            },
    {
        self.cal_phase = status.phase;
        let screen = cal_screen(status);
        if let Some(sc) = screen {
            self.last_line1 = sc.line1;
            self.last_line2 = sc.line2;
        }
        screen
    }

    /// Whether calibration owns the display, so that spindle status
    /// updates are not drawn.
    pub fn cal_active(&self) -> (active: bool)
        ensures
            active == cal_owns_spec(self@.cal_phase),
    {
        cal_owns_display(self.cal_phase)
    }

    /// A new spindle status (drawn only while calibration does not own the
    /// display): the screen to draw.
    pub fn on_display_status(&mut self, status: &DisplayStatus) -> (screen: Screen)
        requires
            status.current_ma * 100 <= u32::MAX,
        ensures
            shows(screen, status_screen_spec(*status)),
            final(self)@ == (LcdModel {
                last_line1: screen.line1@,
                last_line2: screen.line2@,
                ..old(self)@
            }),
    {
        let screen = status_screen(status);
        self.last_line1 = screen.line1;
        self.last_line2 = screen.line2;
        screen
    }

    /// End of an iteration: count it, and return whether the controller
    /// must be re-initialised (and the last lines rewritten), which resets
    /// the count.
    pub fn tick(&mut self) -> (reinit: bool)
        ensures
            ({
                let c = (old(self)@.reset_counter + 1) % 256;
                &&& reinit == (c >= reset_threshold_spec(old(self)@.cal_phase))
                &&& final(self)@ == (LcdModel {
                    reset_counter: if reinit { 0 } else { c as u8 },
                    ..old(self)@
                })
            }),
    {
        let c = self.reset_counter.wrapping_add(1);
        let threshold: u8 = if matches!(self.cal_phase, CalPhase::Recording) {
            RECORDING_RESET_ITERATIONS
        } else {
            RESET_ITERATIONS
        };
        if c >= threshold {
            self.reset_counter = 0;
            true
        } else {
            self.reset_counter = c;
            false
        }
    }

    /// The lines last written.
    pub fn last_lines(&self) -> (lines: ([u8; 16], [u8; 16]))
        ensures
            lines.0@ == self@.last_line1,
            lines.1@ == self@.last_line2,
    {
        (self.last_line1, self.last_line2)
    }

    /// Wait before the next iteration.
    pub fn interval_ms(&self) -> (ms: u64)
        ensures
            ms == interval_spec(self@.cal_phase),
    {
        if matches!(self.cal_phase, CalPhase::Recording) {
            RECORDING_UPDATE_INTERVAL_MS
        } else {
            LCD_UPDATE_INTERVAL_MS
        }
    }
}

} // verus!
