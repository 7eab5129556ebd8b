//! LCD formatting functions.
//!
//! Pure functions for formatting 16x2 LCD display lines and calculating
//! RGB backlight colors.
use super::{rgb, BacklightColor};
use crate::display::ErrorType;
use crate::state::config;
use vstd::arithmetic::div_mod::lemma_div_denominator;
use vstd::prelude::*;

verus! {

/// ASCII space.
pub const SPACE: u8 = 0x20;

/// "STALL!"
pub const TEXT_STALL: [u8; 6] = [0x53u8, 0x54u8, 0x41u8, 0x4Cu8, 0x4Cu8, 0x21u8];

/// "ERROR!"
pub const TEXT_ERROR: [u8; 6] = [0x45u8, 0x52u8, 0x52u8, 0x4Fu8, 0x52u8, 0x21u8];

/// "OFF - STALLED"
pub const TEXT_OFF_STALLED: [u8; 13] = [
    0x4Fu8, 0x46u8, 0x46u8, 0x20u8, 0x2Du8, 0x20u8, 0x53u8, 0x54u8, 0x41u8, 0x4Cu8, 0x4Cu8, 0x45u8, 0x44u8,
];

/// "WARN"
pub const TEXT_WARN: [u8; 4] = [0x57u8, 0x41u8, 0x52u8, 0x4Eu8];

/// "OFF"
pub const TEXT_OFF: [u8; 3] = [0x4Fu8, 0x46u8, 0x46u8];

/// "OK"
pub const TEXT_OK: [u8; 2] = [0x4Fu8, 0x4Bu8];

/// "ACT:"
pub const TEXT_ACT: [u8; 4] = [0x41u8, 0x43u8, 0x54u8, 0x3Au8];

/// "A:"
pub const TEXT_A: [u8; 2] = [0x41u8, 0x3Au8];

/// "  RESTART REQD  "
pub const TEXT_RESTART: [u8; 16] = [
    0x20u8, 0x20u8, 0x52u8, 0x45u8, 0x53u8, 0x54u8, 0x41u8, 0x52u8, 0x54u8, 0x20u8, 0x52u8, 0x45u8, 0x51u8, 0x44u8, 0x20u8, 0x20u8,
];

/// "!! ESCON ALERT !"
pub const TEXT_ESCON_ALERT: [u8; 16] = [
    0x21u8, 0x21u8, 0x20u8, 0x45u8, 0x53u8, 0x43u8, 0x4Fu8, 0x4Eu8, 0x20u8, 0x41u8, 0x4Cu8, 0x45u8, 0x52u8, 0x54u8, 0x20u8, 0x21u8,
];

/// "! OVER CURRENT !"
pub const TEXT_OVER_CURRENT: [u8; 16] = [
    0x21u8, 0x20u8, 0x4Fu8, 0x56u8, 0x45u8, 0x52u8, 0x20u8, 0x43u8, 0x55u8, 0x52u8, 0x52u8, 0x45u8, 0x4Eu8, 0x54u8, 0x20u8, 0x21u8,
];

/// "! THERMAL FAULT!"
pub const TEXT_THERMAL: [u8; 16] = [
    0x21u8, 0x20u8, 0x54u8, 0x48u8, 0x45u8, 0x52u8, 0x4Du8, 0x41u8, 0x4Cu8, 0x20u8, 0x46u8, 0x41u8, 0x55u8, 0x4Cu8, 0x54u8, 0x21u8,
];

/// "!    ERROR     !"
pub const TEXT_GENERIC_ERROR: [u8; 16] = [
    0x21u8, 0x20u8, 0x20u8, 0x20u8, 0x20u8, 0x45u8, 0x52u8, 0x52u8, 0x4Fu8, 0x52u8, 0x20u8, 0x20u8, 0x20u8, 0x20u8, 0x20u8, 0x21u8,
];

/// " CALIBRATION "
pub const TEXT_CALIBRATION: [u8; 13] = [
    0x20u8, 0x43u8, 0x41u8, 0x4Cu8, 0x49u8, 0x42u8, 0x52u8, 0x41u8, 0x54u8, 0x49u8, 0x4Fu8, 0x4Eu8, 0x20u8,
];

/// "DETECTED! "
pub const TEXT_DETECTED: [u8; 10] = [0x44u8, 0x45u8, 0x54u8, 0x45u8, 0x43u8, 0x54u8, 0x45u8, 0x44u8, 0x21u8, 0x20u8];

/// " NO CALIBRATION "
pub const TEXT_NO_CALIBRATION: [u8; 16] = [
    0x20u8, 0x4Eu8, 0x4Fu8, 0x20u8, 0x43u8, 0x41u8, 0x4Cu8, 0x49u8, 0x42u8, 0x52u8, 0x41u8, 0x54u8, 0x49u8, 0x4Fu8, 0x4Eu8, 0x20u8,
];

/// " RUN CAL GCODE  "
pub const TEXT_RUN_CAL: [u8; 16] = [
    0x20u8, 0x52u8, 0x55u8, 0x4Eu8, 0x20u8, 0x43u8, 0x41u8, 0x4Cu8, 0x20u8, 0x47u8, 0x43u8, 0x4Fu8, 0x44u8, 0x45u8, 0x20u8, 0x20u8,
];

/// "CAL COMPLETE!"
pub const TEXT_CAL_COMPLETE: [u8; 13] = [
    0x43u8, 0x41u8, 0x4Cu8, 0x20u8, 0x43u8, 0x4Fu8, 0x4Du8, 0x50u8, 0x4Cu8, 0x45u8, 0x54u8, 0x45u8, 0x21u8,
];

/// "  RESUMING...   "
pub const TEXT_RESUMING: [u8; 16] = [
    0x20u8, 0x20u8, 0x52u8, 0x45u8, 0x53u8, 0x55u8, 0x4Du8, 0x49u8, 0x4Eu8, 0x47u8, 0x2Eu8, 0x2Eu8, 0x2Eu8, 0x20u8, 0x20u8, 0x20u8,
];

/// "CAL CLEARED!"
pub const TEXT_CAL_CLEARED: [u8; 12] = [
    0x43u8, 0x41u8, 0x4Cu8, 0x20u8, 0x43u8, 0x4Cu8, 0x45u8, 0x41u8, 0x52u8, 0x45u8, 0x44u8, 0x21u8,
];

/// "CAL ABORTED! "
pub const TEXT_CAL_ABORTED: [u8; 13] = [
    0x43u8, 0x41u8, 0x4Cu8, 0x20u8, 0x41u8, 0x42u8, 0x4Fu8, 0x52u8, 0x54u8, 0x45u8, 0x44u8, 0x21u8, 0x20u8,
];

/// "SIGNAL LOST "
pub const TEXT_SIGNAL_LOST: [u8; 12] = [
    0x53u8, 0x49u8, 0x47u8, 0x4Eu8, 0x41u8, 0x4Cu8, 0x20u8, 0x4Cu8, 0x4Fu8, 0x53u8, 0x54u8, 0x20u8,
];

/// "IN"
pub const TEXT_IN: [u8; 2] = [0x49u8, 0x4Eu8];

/// A blank line.
pub open spec fn blank_line() -> Seq<u8> {
    Seq::new(16, |i: int| SPACE)
}

/// `base` with `text` written from position `pos`.
pub open spec fn overlay(base: Seq<u8>, pos: int, text: Seq<u8>) -> Seq<u8> {
    base.take(pos) + text + base.skip(pos + text.len())
}

/// 10^k.
pub open spec fn pow10(k: nat) -> int
    decreases k,
{
    if k == 0 {
        1
    } else {
        10 * pow10((k - 1) as nat)
    }
}

/// The ASCII digit of the last decimal digit of `v`.
pub open spec fn digit(v: int) -> u8 {
    (48 + v % 10) as u8
}

/// `val` right-aligned in a field of `width` characters: leading zeros are
/// spaces, and digits beyond the field width are dropped.
pub open spec fn right_aligned(val: int, width: nat) -> Seq<u8> {
    Seq::new(
        width,
        |i: int|
            {
                let k = (width - 1 - i) as nat;
                if k == 0 || (val as int) / pow10(k) > 0 {
                    digit(((val as int) / pow10(k)) as int)
                } else {
                    SPACE
                }
            },
    )
}

proof fn lemma_pow10_positive(k: nat)
    ensures
        pow10(k) >= 1,
    decreases k,
{
    if k > 0 {
        lemma_pow10_positive((k - 1) as nat);
    }
}

proof fn lemma_pow10_step(val: int, k: nat)
    requires
        val >= 0,
    ensures
        (val as int) / pow10(k + 1) == ((val as int) / pow10(k)) / 10,
{
    lemma_pow10_positive(k);
    lemma_div_denominator(val, pow10(k), 10);
    assert(pow10(k + 1) == pow10(k) * 10);
}

proof fn lemma_zero_stays_zero(val: int, j: nat, k: nat)
    requires
        val >= 0,
        j <= k,
        (val as int) / pow10(j) == 0,
    ensures
        (val as int) / pow10(k) == 0,
    decreases k - j,
{
    if j < k {
        lemma_zero_stays_zero(val, j, (k - 1) as nat);
        lemma_pow10_step(val, (k - 1) as nat);
    }
}

/// Write `val` right-aligned into `buf[start..start + width]`.
fn write_u32_right(buf: &mut [u8; 16], start: usize, val: u32, width: usize)
    requires
        1 <= width <= 6,
        start + width <= 16,
    ensures
        final(buf)@ == overlay(old(buf)@, start as int, right_aligned(val as int, width as nat)),
{
    let ghost w = width as nat;
    let ghost target = right_aligned(val as int, w);
    let mut i = width - 1;
    let mut n = val;
    proof {
        lemma_pow10_positive(0);
        assert((val as int) / pow10(0) == val);
    }
    buf[start + i] = 0x30u8 + (n % 10) as u8;
    proof {
        lemma_pow10_step(val as int, 0);
    }
    n = n / 10;
    while n > 0 && i > 0
        invariant
            1 <= width <= 6,
            start + width <= 16,
            w == width,
            target == right_aligned(val as int, w),
            i < width,
            n == (val as int) / pow10((width - i) as nat),
            buf@.len() == 16,
            forall|p: int| 0 <= p < start ==> #[trigger] buf@[p] == old(buf)@[p],
            forall|p: int| start + width <= p < 16 ==> #[trigger] buf@[p] == old(buf)@[p],
            forall|p: int| i <= p < width ==> #[trigger] buf@[start + p] == target[p],
            forall|p: int| 0 <= p < i ==> #[trigger] buf@[start + p] == old(buf)@[start + p],
        decreases i,
    {
        i = i - 1;
        proof {
            assert((val as int) / pow10((w - 1 - i) as nat) == n);
        }
        buf[start + i] = 0x30u8 + (n % 10) as u8;
        proof {
            lemma_pow10_step(val as int, (w - 1 - i) as nat);
        }
        n = n / 10;
    }
    proof {
        if n == 0 {
            assert forall|p: int| 0 <= p < i implies target[p] == SPACE by {
                lemma_zero_stays_zero(val as int, (w - i) as nat, (w - 1 - p) as nat);
            }
        }
    }
    let mut p: usize = 0;
    while p < i
        invariant
            p <= i < width,
            1 <= width <= 6,
            start + width <= 16,
            target == right_aligned(val as int, w),
            w == width,
            buf@.len() == 16,
            n == 0 || i == 0,
            n == 0 ==> forall|q: int| 0 <= q < i ==> #[trigger] target[q] == SPACE,
            forall|q: int| 0 <= q < start ==> #[trigger] buf@[q] == old(buf)@[q],
            forall|q: int| start + width <= q < 16 ==> #[trigger] buf@[q] == old(buf)@[q],
            forall|q: int| i <= q < width ==> #[trigger] buf@[start + q] == target[q],
            forall|q: int| 0 <= q < p ==> #[trigger] buf@[start + q] == SPACE,
        decreases i - p,
    {
        buf[start + p] = SPACE;
        p = p + 1;
    }
    assert forall|q: int| 0 <= q < 16 implies #[trigger] buf@[q] == overlay(
        old(buf)@,
        start as int,
        target,
    )[q] by {
        if start <= q < start + width {
            assert(buf@[start + (q - start)] == target[q - start]);
        }
    }
    assert(buf@ =~= overlay(old(buf)@, start as int, target));
}

/// Write `text` into `buf` from position `pos`.
fn put(buf: &mut [u8; 16], pos: usize, text: &[u8])
    requires
        pos + text@.len() <= 16,
    ensures
        final(buf)@ == overlay(old(buf)@, pos as int, text@),
{
    let mut k: usize = 0;
    while k < text.len()
        invariant
            pos + text@.len() <= 16,
            k <= text@.len(),
            buf@.len() == 16,
            forall|q: int| 0 <= q < pos ==> #[trigger] buf@[q] == old(buf)@[q],
            forall|q: int| pos + text@.len() <= q < 16 ==> #[trigger] buf@[q] == old(buf)@[q],
            forall|q: int| pos + k <= q < pos + text@.len() ==> #[trigger] buf@[q] == old(buf)@[q],
            forall|q: int| 0 <= q < k ==> #[trigger] buf@[pos + q] == text@[q],
        decreases text@.len() - k,
    {
        buf[pos + k] = text[k];
        k = k + 1;
    }
    assert forall|q: int| 0 <= q < 16 implies #[trigger] buf@[q] == overlay(
        old(buf)@,
        pos as int,
        text@,
    )[q] by {
        if pos <= q < pos + text@.len() {
            assert(buf@[pos + (q - pos)] == text@[q - pos]);
        }
    }
    assert(buf@ =~= overlay(old(buf)@, pos as int, text@));
}

fn blank() -> (buf: [u8; 16])
    ensures
        buf@ == blank_line(),
{
    let buf = [SPACE; 16];
    assert(buf@ =~= blank_line());
    buf
}

/// Signed percentage deviation of `actual` from `target`, truncated toward zero.
pub open spec fn deviation_spec(target: u32, actual: u32) -> int {
    if actual >= target {
        (actual - target) * 100 / (target as int)
    } else {
        -((target - actual) * 100 / (target as int))
    }
}

/// Calculate deviation percentage from target.
/// Returns (capped_pct, overflow_pct) where overflow_pct is Some if |deviation| > 99%.
pub fn calculate_deviation(target: u32, actual: u32) -> (r: (i32, Option<i32>))
    ensures
        ({
            let pct = deviation_spec(target, actual) as i32;
            r == (if target == 0 {
                (0i32, None)
            } else if pct > 99 {
                (99i32, Some(pct))
            } else if pct < -99 {
                (-99i32, Some(pct))
            } else {
                (pct, None)
            })
        }),
{
    if target == 0 {
        return (0, None);
    }
    let pct: i32 = if actual >= target {
        (((actual - target) as u64 * 100 / target as u64) as i64) as i32
    } else {
        (-(((target - actual) as u64 * 100 / target as u64) as i64)) as i32
    };
    if pct > 99 {
        (99, Some(pct))
    } else if pct < -99 {
        (-99, Some(pct))
    } else {
        (pct, None)
    }
}

/// Magnitude of an i32 as u32.
pub open spec fn abs_i32(x: i32) -> int {
    if x < 0 {
        -x
    } else {
        x as int
    }
}

/// The 4-character deviation field at positions 7..11: " +2%" or "-35%".
pub open spec fn deviation_field(deviation_pct: i32) -> Seq<u8> {
    let a = abs_i32(deviation_pct);
    let sign = if deviation_pct > 0 {
        0x2Bu8
    } else if deviation_pct < 0 {
        0x2Du8
    } else {
        SPACE
    };
    if a >= 10 {
        seq![if deviation_pct > 0 { 0x2Bu8 } else { 0x2Du8 }, digit((a / 10) as int), digit((a) as int), 0x25u8]
    } else {
        seq![SPACE, sign, digit((a) as int), 0x25u8]
    }
}

/// Line 1: speed icon, target RPM (5 digits), deviation, current "X.XA".
pub open spec fn line1_spec(target_rpm: u32, deviation_pct: i32, current_ma: u32) -> Seq<u8> {
    seq![0u8] + right_aligned(target_rpm as int, 5) + seq![SPACE] + deviation_field(deviation_pct)
        + seq![SPACE, digit((current_ma / 1000) as int), 0x2Eu8, digit(((current_ma % 1000) / 100) as int), 0x41u8]
}

/// Format line 1: "i18000 -82% 5.1A" (16 chars).
/// Position 0 is custom char 0 (speed icon).
pub fn format_line1(target_rpm: u32, deviation_pct: i32, current_ma: u32) -> (line: [u8; 16])
    ensures
        line@ == line1_spec(target_rpm, deviation_pct, current_ma),
{
    let mut buf = blank();
    buf[0] = 0x00;
    write_u32_right(&mut buf, 1, target_rpm, 5);
    let abs_pct: u32 = if deviation_pct < 0 {
        (-(deviation_pct as i64)) as u32
    } else {
        deviation_pct as u32
    };
    if abs_pct >= 10 {
        if deviation_pct > 0 {
            buf[7] = 0x2Bu8;
        } else {
            buf[7] = 0x2Du8;
        }
        buf[8] = 0x30u8 + ((abs_pct / 10) % 10) as u8;
        buf[9] = 0x30u8 + (abs_pct % 10) as u8;
    } else {
        buf[7] = SPACE;
        if deviation_pct > 0 {
            buf[8] = 0x2Bu8;
        } else if deviation_pct < 0 {
            buf[8] = 0x2Du8;
        } else {
            buf[8] = SPACE;
        }
        buf[9] = 0x30u8 + (abs_pct % 10) as u8;
    }
    buf[10] = 0x25u8;
    let amps = current_ma / 1000;
    let tenths = (current_ma % 1000) / 100;
    buf[12] = 0x30u8 + (amps % 10) as u8;
    buf[13] = 0x2Eu8;
    buf[14] = 0x30u8 + (tenths % 10) as u8;
    buf[15] = 0x41u8;
    assert(buf@ =~= line1_spec(target_rpm, deviation_pct, current_ma));
    buf
}

/// Status for line 2.
#[derive(Clone, Copy, Debug, PartialEq)]
pub enum Status {
    Normal,
    Stall,
    /// Stall cleared but history indicator
    StallCleared,
    Error(ErrorType),
}

impl Default for Status {
    fn default() -> (s: Self)
        ensures
            s == Status::Normal,
    {
        Status::Normal
    }
}

/// The overflow warning text "WARN +300%" (positions 0..).
pub open spec fn warn_text(pct: i32) -> Seq<u8> {
    let a = abs_i32(pct);
    let sign = if pct >= 0 { 0x2Bu8 } else { 0x2Du8 };
    let digits = if a >= 100 {
        seq![digit((a / 100) as int), digit((a / 10) as int), digit((a) as int)]
    } else if a >= 10 {
        seq![digit((a / 10) as int), digit((a) as int)]
    } else {
        seq![digit((a) as int)]
    };
    TEXT_WARN@ + seq![SPACE, sign] + digits + seq![0x25u8]
}

/// The status part of line 2, and whether it is an error or warning.
pub open spec fn line2_head(status: Status, overflow_pct: Option<i32>, enabled: bool) -> (Seq<u8>, bool) {
    match status {
        Status::Stall => (overlay(blank_line(), 0, TEXT_STALL@), true),
        Status::Error(_) => (overlay(blank_line(), 0, TEXT_ERROR@), true),
        Status::StallCleared => (overlay(blank_line(), 0, TEXT_OFF_STALLED@), true),
        Status::Normal => match overflow_pct {
            Some(pct) => (overlay(blank_line(), 0, warn_text(pct)), true),
            None => if !enabled {
                (overlay(blank_line(), 0, TEXT_OFF@), false)
            } else {
                (overlay(blank_line(), 0, TEXT_OK@), false)
            },
        },
    }
}

/// Line 2: status, and while running without error the actual RPM (and the
/// stabilization time, when given).
pub open spec fn line2_spec(
    status: Status,
    overflow_pct: Option<i32>,
    enabled: bool,
    actual_rpm: u32,
    stabilization_time_ms: Option<u32>,
) -> Seq<u8> {
    let (head, warn) = line2_head(status, overflow_pct, enabled);
    if !warn && enabled {
        match stabilization_time_ms {
            Some(time_ms) => {
                let seconds = time_ms / 1000;
                let tenths = (time_ms % 1000) / 100;
                let timed = if seconds >= 10 {
                    overlay(
                        head,
                        2,
                        seq![digit((seconds / 10) as int), digit((seconds) as int), 0x2Eu8, digit((tenths) as int), 0x73u8],
                    )
                } else {
                    overlay(head, 3, seq![digit((seconds) as int), 0x2Eu8, digit((tenths) as int), 0x73u8])
                };
                overlay(overlay(timed, 8, TEXT_A@), 10, right_aligned(actual_rpm as int, 6))
            },
            None => overlay(overlay(head, 6, TEXT_ACT@), 10, right_aligned(actual_rpm as int, 6)),
        }
    } else {
        head
    }
}

/// Format line 2: status + actual RPM (16 chars).
/// "OK    ACT:12345", "STALL!" (no ACT when warning/error), or with
/// stabilization time "OK 1.3s A: 12345".
pub fn format_line2(
    status: Status,
    overflow_pct: Option<i32>,
    enabled: bool,
    actual_rpm: u32,
    stabilization_time_ms: Option<u32>,
) -> (line: [u8; 16])
    ensures
        line@ == line2_spec(status, overflow_pct, enabled, actual_rpm, stabilization_time_ms),
{
    let mut buf = blank();
    let has_error_or_warning;
    match status {
        Status::Stall => {
            has_error_or_warning = true;
            put(&mut buf, 0, TEXT_STALL.as_slice());
        },
        Status::Error(_) => {
            has_error_or_warning = true;
            put(&mut buf, 0, TEXT_ERROR.as_slice());
        },
        Status::StallCleared => {
            has_error_or_warning = true;
            put(&mut buf, 0, TEXT_OFF_STALLED.as_slice());
        },
        Status::Normal => {
            if let Some(pct) = overflow_pct {
                has_error_or_warning = true;
                put(&mut buf, 0, TEXT_WARN.as_slice());
                buf[4] = SPACE;
                if pct >= 0 {
                    buf[5] = 0x2Bu8;
                } else {
                    buf[5] = 0x2Du8;
                }
                let abs_pct: u32 = if pct < 0 {
                    (-(pct as i64)) as u32
                } else {
                    pct as u32
                };
                if abs_pct >= 100 {
                    buf[6] = 0x30u8 + ((abs_pct / 100) % 10) as u8;
                    buf[7] = 0x30u8 + ((abs_pct / 10) % 10) as u8;
                    buf[8] = 0x30u8 + (abs_pct % 10) as u8;
                    buf[9] = 0x25u8;
                } else if abs_pct >= 10 {
                    buf[6] = 0x30u8 + ((abs_pct / 10) % 10) as u8;
                    buf[7] = 0x30u8 + (abs_pct % 10) as u8;
                    buf[8] = 0x25u8;
                } else {
                    buf[6] = 0x30u8 + (abs_pct % 10) as u8;
                    buf[7] = 0x25u8;
                }
                assert(buf@ =~= overlay(blank_line(), 0, warn_text(pct)));
            } else if !enabled {
                has_error_or_warning = false;
                put(&mut buf, 0, TEXT_OFF.as_slice());
            } else {
                has_error_or_warning = false;
                put(&mut buf, 0, TEXT_OK.as_slice());
            }
        },
    }
    assert(buf@ == line2_head(status, overflow_pct, enabled).0);
    if !has_error_or_warning && enabled {
        if let Some(time_ms) = stabilization_time_ms {
            let seconds = time_ms / 1000;
            let tenths = (time_ms % 1000) / 100;
            let ghost head = buf@;
            if seconds >= 10 {
                buf[2] = 0x30u8 + ((seconds / 10) % 10) as u8;
                buf[3] = 0x30u8 + (seconds % 10) as u8;
                buf[4] = 0x2Eu8;
                buf[5] = 0x30u8 + (tenths % 10) as u8;
                buf[6] = 0x73u8;
                assert(buf@ =~= overlay(
                    head,
                    2,
                    seq![digit((seconds / 10) as int), digit(seconds as int), 0x2Eu8, digit(tenths as int), 0x73u8],
                ));
            } else {
                buf[3] = 0x30u8 + (seconds % 10) as u8;
                buf[4] = 0x2Eu8;
                buf[5] = 0x30u8 + (tenths % 10) as u8;
                buf[6] = 0x73u8;
                assert(buf@ =~= overlay(
                    head,
                    3,
                    seq![digit(seconds as int), 0x2Eu8, digit(tenths as int), 0x73u8],
                ));
            }
            put(&mut buf, 8, TEXT_A.as_slice());
            write_u32_right(&mut buf, 10, actual_rpm, 6);
        } else {
            put(&mut buf, 6, TEXT_ACT.as_slice());
            write_u32_right(&mut buf, 10, actual_rpm, 6);
        }
    }
    buf
}

/// Line 1 of the full-screen error display for an error type.
pub open spec fn error_line1(error_type: ErrorType) -> Seq<u8> {
    match error_type {
        ErrorType::EsconAlert => TEXT_ESCON_ALERT@,
        ErrorType::Overcurrent => TEXT_OVER_CURRENT@,
        ErrorType::Thermal => TEXT_THERMAL@,
        _ => TEXT_GENERIC_ERROR@,
    }
}

/// Format both LCD lines for a latched error (uses full display).
pub fn format_error_lines(error_type: ErrorType) -> (lines: ([u8; 16], [u8; 16]))
    ensures
        lines.0@ == error_line1(error_type),
        lines.1@ == TEXT_RESTART@,
{
    let line2 = TEXT_RESTART;
    let line1 = match error_type {
        ErrorType::EsconAlert => TEXT_ESCON_ALERT,
        ErrorType::Overcurrent => TEXT_OVER_CURRENT,
        ErrorType::Thermal => TEXT_THERMAL,
        _ => TEXT_GENERIC_ERROR,
    };
    (line1, line2)
}

/// Severity (0-3) from the current as a percentage of full scale.
pub open spec fn current_severity(current_pct: int) -> int {
    if current_pct <= 59 {
        0
    } else if current_pct <= 79 {
        1
    } else if current_pct <= 89 {
        2
    } else {
        3
    }
}

/// Severity (0-3) from the absolute deviation percentage.
pub open spec fn deviation_severity(abs_deviation: int) -> int {
    if abs_deviation <= 19 {
        0
    } else if abs_deviation <= 34 {
        1
    } else if abs_deviation <= 49 {
        2
    } else {
        3
    }
}

/// The backlight color for a spindle state.
pub open spec fn backlight_spec(
    enabled: bool,
    target_rpm: u32,
    actual_rpm: u32,
    current_ma: u32,
    error: bool,
) -> BacklightColor {
    if error {
        rgb(255, 0, 0)
    } else if !enabled {
        rgb(0, 15, 0)
    } else {
        let cs = current_severity(current_ma * 100 / (config::CURRENT_AT_3V3_MA as int));
        let dev = if target_rpm == 0 {
            0
        } else {
            let p = deviation_spec(target_rpm, actual_rpm) as i32;
            if p > 99 {
                99
            } else if p < -99 {
                -99
            } else {
                p as int
            }
        };
        let ds = deviation_severity(if dev < 0 { -dev } else { dev });
        let severity = if cs >= ds { cs } else { ds };
        if severity == 0 {
            rgb(0, 255, 0)
        } else if severity == 1 {
            rgb(255, 255, 0)
        } else if severity == 2 {
            rgb(255, 128, 0)
        } else {
            rgb(255, 0, 0)
        }
    }
}

/// Severity (0-3) shown by a running-spindle color: green, yellow, orange,
/// red; none (4) for any other color.
pub open spec fn color_severity(c: BacklightColor) -> int {
    if c == rgb(0, 255, 0) {
        0
    } else if c == rgb(255, 255, 0) {
        1
    } else if c == rgb(255, 128, 0) {
        2
    } else if c == rgb(255, 0, 0) {
        3
    } else {
        4
    }
}

/// Severity of the motor load: the current as a percentage of full scale.
pub open spec fn load_severity(current_ma: u32) -> int {
    current_severity(current_ma * 100 / (config::CURRENT_AT_3V3_MA as int))
}

/// Severity of the speed error: the deviation as `calculate_deviation`
/// reports it (capped at +/-99%, 0 without a target).
pub open spec fn speed_severity(target_rpm: u32, actual_rpm: u32) -> int {
    let pct = deviation_spec(target_rpm, actual_rpm) as i32;
    let capped: int = if target_rpm == 0 {
        0
    } else if pct > 99 {
        99
    } else if pct < -99 {
        -99
    } else {
        pct as int
    };
    deviation_severity(if capped < 0 { -capped } else { capped })
}

/// The color of a running spindle without error shows the worse of the two
/// severities, the load and the speed error: never less than either, and
/// equal to one of them. An error shows red, an idle spindle dim green.
pub proof fn lemma_backlight_worst_case(
    enabled: bool,
    target_rpm: u32,
    actual_rpm: u32,
    current_ma: u32,
    error: bool,
)
    ensures
        ({
            let c = backlight_spec(enabled, target_rpm, actual_rpm, current_ma, error);
            let s = color_severity(c);
            &&& error ==> c == rgb(255, 0, 0)
            &&& (!error && !enabled) ==> c == rgb(0, 15, 0)
            &&& (!error && enabled) ==> {
                &&& s >= load_severity(current_ma)
                &&& s >= speed_severity(target_rpm, actual_rpm)
                &&& (s == load_severity(current_ma) || s == speed_severity(target_rpm, actual_rpm))
            }
        }),
{
}

/// Calculate RGB backlight color based on spindle state: red on error, dim
/// green when off, otherwise green/yellow/orange/red by the worse of the
/// current load and the speed deviation.
pub fn calculate_backlight(
    enabled: bool,
    target_rpm: u32,
    actual_rpm: u32,
    current_ma: u32,
    error: bool,
) -> (color: BacklightColor)
    requires
        current_ma * 100 <= u32::MAX,
    ensures
        color == backlight_spec(enabled, target_rpm, actual_rpm, current_ma, error),
{
    if error {
        return BacklightColor::red();
    }
    if !enabled {
        return BacklightColor::dim_green();
    }
    let current_pct = (current_ma * 100 / config::CURRENT_AT_3V3_MA) as i32;
    let current_severity: u8 = if current_pct <= 59 {
        0
    } else if current_pct <= 79 {
        1
    } else if current_pct <= 89 {
        2
    } else {
        3
    };
    let (deviation_pct, _) = calculate_deviation(target_rpm, actual_rpm);
    let abs_deviation = if deviation_pct < 0 {
        -deviation_pct
    } else {
        deviation_pct
    };
    let deviation_severity: u8 = if abs_deviation <= 19 {
        0
    } else if abs_deviation <= 34 {
        1
    } else if abs_deviation <= 49 {
        2
    } else {
        3
    };
    let severity = if current_severity >= deviation_severity {
        current_severity
    } else {
        deviation_severity
    };
    if severity == 0 {
        BacklightColor::bright_green()
    } else if severity == 1 {
        BacklightColor::yellow()
    } else if severity == 2 {
        BacklightColor::orange()
    } else {
        BacklightColor::red()
    }
}

/// Calibration line 1: "C 005/386  5000 ".
pub open spec fn cal_line1_spec(step: u16, total: u16, rpm: u16) -> Seq<u8> {
    seq![0x43u8, SPACE, digit((step / 100) as int), digit((step / 10) as int), digit(step as int), 0x2Fu8, digit((total / 100) as int), digit((total / 10) as int), digit(total as int), SPACE, SPACE]
        + right_aligned(rpm as int, 5)
}

/// Format calibration line 1: "C 005/386  5000 " (16 chars).
pub fn format_cal_line1(step: u16, total: u16, rpm: u16) -> (line: [u8; 16])
    ensures
        line@ == cal_line1_spec(step, total, rpm),
{
    let mut buf = blank();
    buf[0] = 0x43u8;
    buf[2] = 0x30u8 + ((step / 100) % 10) as u8;
    buf[3] = 0x30u8 + ((step / 10) % 10) as u8;
    buf[4] = 0x30u8 + (step % 10) as u8;
    buf[5] = 0x2Fu8;
    buf[6] = 0x30u8 + ((total / 100) % 10) as u8;
    buf[7] = 0x30u8 + ((total / 10) % 10) as u8;
    buf[8] = 0x30u8 + (total % 10) as u8;
    write_u32_right(&mut buf, 11, rpm as u32, 5);
    assert(buf@ =~= cal_line1_spec(step, total, rpm));
    buf
}

/// Calibration line 2: "IN 24.47%" with the duty as a percentage with two decimals.
pub open spec fn cal_line2_spec(duty: u16) -> Seq<u8> {
    let whole = duty / 100;
    let frac = duty % 100;
    let number = if whole >= 100 {
        seq![0x31u8, 0x30u8, 0x30u8]
    } else if whole >= 10 {
        seq![SPACE, digit((whole / 10) as int), digit(whole as int)]
    } else {
        seq![SPACE, SPACE, digit(whole as int)]
    };
    TEXT_IN@ + seq![SPACE] + number + seq![0x2Eu8, digit((frac / 10) as int), digit(frac as int), 0x25u8]
        + Seq::new(6, |i: int| SPACE)
}

/// Format calibration line 2: "IN 24.47%       " (16 chars).
pub fn format_cal_line2(duty: u16) -> (line: [u8; 16])
    ensures
        line@ == cal_line2_spec(duty),
{
    let mut buf = blank();
    buf[0] = 0x49u8;
    buf[1] = 0x4Eu8;
    let whole = duty / 100;
    let frac = duty % 100;
    if whole >= 100 {
        buf[3] = 0x31u8;
        buf[4] = 0x30u8;
        buf[5] = 0x30u8;
    } else if whole >= 10 {
        buf[3] = SPACE;
        buf[4] = 0x30u8 + ((whole / 10) % 10) as u8;
        buf[5] = 0x30u8 + (whole % 10) as u8;
    } else {
        buf[3] = SPACE;
        buf[4] = SPACE;
        buf[5] = 0x30u8 + (whole % 10) as u8;
    }
    buf[6] = 0x2Eu8;
    buf[7] = 0x30u8 + ((frac / 10) % 10) as u8;
    buf[8] = 0x30u8 + (frac % 10) as u8;
    buf[9] = 0x25u8;
    assert(buf@ =~= cal_line2_spec(duty));
    buf
}

/// Format calibration detection display (two lines).
pub fn format_cal_detect() -> (lines: ([u8; 16], [u8; 16]))
    ensures
        lines.0@ == overlay(blank_line(), 1, TEXT_CALIBRATION@),
        lines.1@ == overlay(blank_line(), 3, TEXT_DETECTED@),
{
    let mut line1 = blank();
    let mut line2 = blank();
    put(&mut line1, 1, TEXT_CALIBRATION.as_slice());
    put(&mut line2, 3, TEXT_DETECTED.as_slice());
    (line1, line2)
}

/// Format "no calibration" warning display.
pub fn format_no_cal_warning() -> (lines: ([u8; 16], [u8; 16]))
    ensures
        lines.0@ == TEXT_NO_CALIBRATION@,
        lines.1@ == TEXT_RUN_CAL@,
{
    (TEXT_NO_CALIBRATION, TEXT_RUN_CAL)
}

/// Format calibration complete display.
pub fn format_cal_complete() -> (lines: ([u8; 16], [u8; 16]))
    ensures
        lines.0@ == overlay(blank_line(), 0, TEXT_CAL_COMPLETE@),
        lines.1@ == TEXT_RESUMING@,
{
    let mut line1 = blank();
    put(&mut line1, 0, TEXT_CAL_COMPLETE.as_slice());
    (line1, TEXT_RESUMING)
}

/// Format calibration cleared display.
pub fn format_cal_cleared() -> (lines: ([u8; 16], [u8; 16]))
    ensures
        lines.0@ == overlay(blank_line(), 0, TEXT_CAL_CLEARED@),
        lines.1@ == TEXT_RUN_CAL@,
{
    let mut line1 = blank();
    put(&mut line1, 0, TEXT_CAL_CLEARED.as_slice());
    (line1, TEXT_RUN_CAL)
}

/// Format calibration aborted display.
pub fn format_cal_aborted() -> (lines: ([u8; 16], [u8; 16]))
    ensures
        lines.0@ == overlay(blank_line(), 0, TEXT_CAL_ABORTED@),
        lines.1@ == overlay(blank_line(), 0, TEXT_SIGNAL_LOST@),
{
    let mut line1 = blank();
    let mut line2 = blank();
    put(&mut line1, 0, TEXT_CAL_ABORTED.as_slice());
    put(&mut line2, 0, TEXT_SIGNAL_LOST.as_slice());
    (line1, line2)
}

} // verus!
