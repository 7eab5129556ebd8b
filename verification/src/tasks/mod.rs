//! The decisions of the controller's tasks: each task's loop body as a
//! function from its state and inputs to its next state and actions. The
//! tasks themselves (timers, GPIO, PIO, ADC, flash) run around these.
pub mod spindle_control;
pub mod calibration;
pub mod current_monitor;
pub mod led;
pub mod watchdog;
pub mod pwm_input;
pub mod speed_measure;
pub mod lcd;
pub mod thermal;
