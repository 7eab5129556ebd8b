//! GPIO pin assignments for all peripherals.
use vstd::prelude::*;

verus! {

/// PWM input from Carvera (speed request).
pub const PWM_INPUT: u8 = 3;
/// PWM output to ESCON (speed control).
pub const PWM_OUTPUT: u8 = 4;
/// Enable output to ESCON.
pub const ENABLE: u8 = 5;
/// ESCON alert input (digital).
pub const ESCON_ALERT: u8 = 8;
/// Speed input from ESCON (4 ppr).
pub const SPEED_INPUT: u8 = 9;
/// Error output to Carvera.
pub const ERROR_OUTPUT: u8 = 10;
/// Onboard status LED.
pub const STATUS_LED: u8 = 25;
/// ADC input for current monitoring.
pub const CURRENT_ADC: u8 = 26;
/// LCD register select.
pub const LCD_RS: u8 = 16;
/// LCD enable.
pub const LCD_E: u8 = 17;
/// LCD data bit 4.
pub const LCD_D4: u8 = 18;
/// LCD data bit 5.
pub const LCD_D5: u8 = 22;
/// LCD data bit 6.
pub const LCD_D6: u8 = 20;
/// LCD data bit 7.
pub const LCD_D7: u8 = 21;
/// LCD RGB backlight, red channel (PWM).
pub const LCD_RED: u8 = 14;
/// LCD RGB backlight, green channel (PWM).
pub const LCD_GREEN: u8 = 12;
/// LCD RGB backlight, blue channel (PWM).
pub const LCD_BLUE: u8 = 13;

} // verus!
