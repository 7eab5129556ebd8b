//! Byte-level decisions of the HD44780 4-bit driver and the common-anode
//! RGB backlight. The GPIO and PWM writes themselves happen around these.
use super::BacklightColor;
use vstd::prelude::*;

verus! {

/// Characters per line.
pub const LINE_WIDTH: usize = 16;

/// Nibble written three times to reset the controller.
pub const RESET_NIBBLE: u8 = 0x03;

/// Nibble that switches the controller to 4-bit mode.
pub const FOUR_BIT_NIBBLE: u8 = 0x02;

/// Function set: 4-bit bus, 2 lines, 5x8 font.
pub const CMD_FUNCTION_SET: u8 = 0x28;

/// Display off.
pub const CMD_DISPLAY_OFF: u8 = 0x08;

/// Clear the display.
pub const CMD_CLEAR: u8 = 0x01;

/// Entry mode: increment the address after each write.
pub const CMD_ENTRY_MODE: u8 = 0x06;

/// Display on, cursor off.
pub const CMD_DISPLAY_ON: u8 = 0x0C;

/// Set the CGRAM address to custom character 0.
pub const CMD_CGRAM_CHAR0: u8 = 0x40;

/// Set the DDRAM address to the start of line 0.
pub const CMD_LINE0: u8 = 0x80;

/// Set the DDRAM address to the start of line 1.
pub const CMD_LINE1: u8 = 0xC0;

/// PWM counter top of the backlight channels.
pub const BACKLIGHT_PWM_TOP: u16 = 65535;

/// The "set DDRAM address" command for the start of a row: row 0, any
/// other row is line 1.
pub fn ddram_address(row: u8) -> (cmd: u8)
    ensures
        cmd == (if row == 0 { CMD_LINE0 } else { CMD_LINE1 }),
{
    if row == 0 {
        CMD_LINE0
    } else {
        CMD_LINE1
    }
}

/// A byte as the two nibbles of the 4-bit bus, high nibble first.
pub fn split_byte(byte: u8) -> (nibbles: (u8, u8))
    ensures
        nibbles.0 == byte / 16,
        nibbles.1 == byte % 16,
        nibbles.0 * 16 + nibbles.1 == byte,
{
    let high = byte >> 4;
    let low = byte & 0x0F;
    assert(byte >> 4 == byte / 16) by (bit_vector);
    assert(byte & 0x0F == byte % 16) by (bit_vector);
    (high, low)
}

/// Levels of the data lines D4..D7 for a nibble: D4 carries bit 0.
pub fn nibble_levels(nibble: u8) -> (levels: [bool; 4])
    ensures
        forall|i: int| 0 <= i < 4 ==> levels@[i] == ((nibble / pow2_u8(i)) % 2 == 1),
{
    let d4 = nibble & 0x01 != 0;
    let d5 = nibble & 0x02 != 0;
    let d6 = nibble & 0x04 != 0;
    let d7 = nibble & 0x08 != 0;
    assert(d4 == (nibble % 2 == 1)) by (bit_vector)
        requires
            d4 == (nibble & 0x01 != 0),
    ;
    assert(d5 == ((nibble / 2) % 2 == 1)) by (bit_vector)
        requires
            d5 == (nibble & 0x02 != 0),
    ;
    assert(d6 == ((nibble / 4) % 2 == 1)) by (bit_vector)
        requires
            d6 == (nibble & 0x04 != 0),
    ;
    assert(d7 == ((nibble / 8) % 2 == 1)) by (bit_vector)
        requires
            d7 == (nibble & 0x08 != 0),
    ;
    [d4, d5, d6, d7]
}

/// 2 to the power `i`, for the bit positions of a nibble.
pub open spec fn pow2_u8(i: int) -> u8 {
    if i == 0 {
        1
    } else if i == 1 {
        2
    } else if i == 2 {
        4
    } else {
        8
    }
}

/// Number of bytes of a text that fit on a line.
pub fn visible_len(len: usize) -> (n: usize)
    ensures
        n == (if len < LINE_WIDTH { len } else { LINE_WIDTH }),
{
    if len < LINE_WIDTH {
        len
    } else {
        LINE_WIDTH
    }
}

/// PWM compare value of one backlight channel: 0-255 scaled to 0-65535 and
/// inverted, since the LEDs are common-anode (low duty is bright).
pub fn channel_duty(level: u8) -> (duty: u16)
    ensures
        duty == 65535 - level * 257,
{
    65535 - (level as u16) * 257
}

/// PWM compare values (red, green, blue) for a backlight color.
pub fn backlight_duties(color: &BacklightColor) -> (duties: (u16, u16, u16))
    ensures
        duties.0 == 65535 - color.r * 257,
        duties.1 == 65535 - color.g * 257,
        duties.2 == 65535 - color.b * 257,
{
    (channel_duty(color.r), channel_duty(color.g), channel_duty(color.b))
}

} // verus!
