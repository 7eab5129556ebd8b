//! HD44780 16x2 LCD content: line formatting, backlight colors and the
//! byte-level protocol decisions of the driver.
pub mod format;
pub mod hd44780;

pub use format::{
    calculate_backlight, calculate_deviation, format_cal_aborted, format_cal_cleared,
    format_cal_complete, format_cal_detect, format_cal_line1, format_cal_line2,
    format_error_lines, format_line1, format_line2, format_no_cal_warning, Status,
};

use vstd::prelude::*;

verus! {

/// RGB backlight color (0-255 per channel).
#[derive(Clone, Copy, Debug, PartialEq, Eq)]
pub struct BacklightColor {
    pub r: u8,
    pub g: u8,
    pub b: u8,
}

impl Default for BacklightColor {
    fn default() -> (c: Self)
        ensures
            c == (BacklightColor { r: 0, g: 0, b: 0 }),
    {
        BacklightColor { r: 0, g: 0, b: 0 }
    }
}

/// The color with the given channels.
pub open spec fn rgb(r: u8, g: u8, b: u8) -> BacklightColor {
    BacklightColor { r, g, b }
}

impl BacklightColor {
    pub fn new(r: u8, g: u8, b: u8) -> (c: Self)
        ensures
            c == rgb(r, g, b),
    {
        BacklightColor { r, g, b }
    }

    pub fn off() -> (c: Self)
        ensures
            c == rgb(0, 0, 0),
    {
        Self::new(0, 0, 0)
    }

    pub fn dim_green() -> (c: Self)
        ensures
            c == rgb(0, 15, 0),
    {
        Self::new(0, 15, 0)
    }

    pub fn bright_green() -> (c: Self)
        ensures
            c == rgb(0, 255, 0),
    {
        Self::new(0, 255, 0)
    }

    pub fn yellow() -> (c: Self)
        ensures
            c == rgb(255, 255, 0),
    {
        Self::new(255, 255, 0)
    }

    pub fn orange() -> (c: Self)
        ensures
            c == rgb(255, 128, 0),
    {
        Self::new(255, 128, 0)
    }

    pub fn red() -> (c: Self)
        ensures
            c == rgb(255, 0, 0),
    {
        Self::new(255, 0, 0)
    }

    pub fn blue() -> (c: Self)
        ensures
            c == rgb(0, 0, 255),
    {
        Self::new(0, 0, 255)
    }

    pub fn cyan() -> (c: Self)
        ensures
            c == rgb(0, 255, 255),
    {
        Self::new(0, 255, 255)
    }

    pub fn magenta() -> (c: Self)
        ensures
            c == rgb(255, 0, 255),
    {
        Self::new(255, 0, 255)
    }

    pub fn dim_blue() -> (c: Self)
        ensures
            c == rgb(0, 0, 30),
    {
        Self::new(0, 0, 30)
    }

    pub fn white() -> (c: Self)
        ensures
            c == rgb(255, 255, 255),
    {
        Self::new(255, 255, 255)
    }
}

/// Speed icon for HD44780 custom character slot 0: a tachometer/gauge shape (5x8 pixels).
pub const SPEED_ICON: [u8; 8] = [0x1F, 0x1F, 0x0E, 0x04, 0x04, 0x04, 0x00, 0x00];

} // verus!
