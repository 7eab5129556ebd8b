//! Flash persistence format for calibration data.
//!
//! ## Flash Layout v2 (4096 bytes)
//!
//! ```text
//! Bytes 0-3:   Magic (0x43414C32 = "CAL2")
//! Byte  4:     Version (2)
//! Byte  5:     Reserved (0)
//! Bytes 6-7:   Count as u16 LE (1-386)
//! Bytes 8-9:   CRC-16 checksum of points data
//! Bytes 10+:   Points array (count x 4 bytes, packed: rpm_le16 | duty_le16)
//! ```
//!
//! The remaining bytes hold the erased-flash value 0xFF.
use crate::calibration::{empty_calibration_table, CalibrationPoint, CalibrationTable, CAL_STEPS};
use vstd::prelude::*;
use vstd::slice::slice_subrange;

verus! {

/// Magic bytes: "CAL2" as ASCII.
pub const MAGIC_BYTES: [u8; 4] = [0x43, 0x41, 0x4C, 0x32];

/// Current format version.
pub const VERSION: u8 = 2;

/// Header size in bytes (magic:4 + version:1 + reserved:1 + count:2 + crc:2 = 10).
pub const HEADER_SIZE: usize = 10;

/// Flash sector size.
pub const SECTOR_SIZE: usize = 4096;

/// Offset within 4MB flash for calibration storage (last sector).
pub const FLASH_OFFSET: u32 = 0x3F_F000;

/// One bit of CRC-16/CCITT (polynomial 0x1021, MSB first).
pub open spec fn crc_shift(crc: u16) -> u16 {
    if crc & 0x8000u16 != 0 {
        ((crc << 1u16) ^ 0x1021u16) as u16
    } else {
        (crc << 1u16) as u16
    }
}

/// `k` CRC bit steps.
pub open spec fn crc_shifts(crc: u16, k: nat) -> u16
    decreases k,
{
    if k == 0 {
        crc
    } else {
        crc_shift(crc_shifts(crc, (k - 1) as nat))
    }
}

/// Fold one byte into the CRC.
pub open spec fn crc_byte(crc: u16, byte: u8) -> u16 {
    crc_shifts((crc ^ ((byte as u16) << 8u16)) as u16, 8)
}

/// CRC-16/CCITT of a byte sequence (initial value 0xFFFF, no final xor).
pub open spec fn crc16_spec(data: Seq<u8>) -> u16
    decreases data.len(),
{
    if data.len() == 0 {
        0xFFFFu16
    } else {
        crc_byte(crc16_spec(data.drop_last()), data.last())
    }
}

/// One bit step of the register is multiplication by x modulo the CCITT
/// polynomial x^16 + x^12 + x^5 + 1: the register doubles, and when the
/// bit shifted out of the top was set, the low terms x^12 + x^5 + 1
/// (0x1021) are added (xor).
pub proof fn lemma_crc_shift_is_ccitt(c: u16)
    ensures
        c < 0x8000 ==> crc_shift(c) == 2 * c,
        c >= 0x8000 ==> crc_shift(c) == (((2 * c - 0x10000) as u16) ^ 0x1021u16),
{
    assert(c < 0x8000 ==> crc_shift(c) == 2 * c) by (bit_vector);
    assert(c >= 0x8000 ==> crc_shift(c) == (((2 * c - 0x10000) as u16) ^ 0x1021u16))
        by (bit_vector);
}

/// The CRC is computed byte by byte from the initial value 0xFFFF, so the
/// CRC of a concatenation continues from the CRC of its first part; and on
/// the catalogue check input "123456789" it gives 0x29B1, the check value
/// of CRC-16/CCITT-FALSE (polynomial 0x1021, init 0xFFFF, not reflected, no
/// final xor).
pub proof fn lemma_crc16_ccitt_false(a: Seq<u8>, b: Seq<u8>)
    ensures
        crc16_spec(Seq::empty()) == 0xFFFFu16,
        crc16_from(crc16_spec(a), b) == crc16_spec(a + b),
        crc16_spec(seq![0x31u8, 0x32u8, 0x33u8, 0x34u8, 0x35u8, 0x36u8, 0x37u8, 0x38u8, 0x39u8])
            == 0x29B1u16,
    decreases b.len(),
{
    if b.len() > 0 {
        lemma_crc16_ccitt_false(a, b.drop_last());
        assert((a + b).drop_last() =~= a + b.drop_last());
    } else {
        assert(a + b =~= a);
    }
    lemma_crc16_check_value();
}

/// The bytes of the catalogue check input "123456789", one at a time.
proof fn lemma_crc16_check_value()
    ensures
        crc16_spec(seq![0x31u8, 0x32u8, 0x33u8, 0x34u8, 0x35u8, 0x36u8, 0x37u8, 0x38u8, 0x39u8])
            == 0x29B1u16,
{
    let s = seq![0x31u8, 0x32u8, 0x33u8, 0x34u8, 0x35u8, 0x36u8, 0x37u8, 0x38u8, 0x39u8];
    reveal_with_fuel(crc_shifts, 9);
    assert(crc_byte(0xFFFFu16, 0x31u8) == 0xC782u16) by (bit_vector);
    assert(crc_byte(0xC782u16, 0x32u8) == 0x3DBAu16) by (bit_vector);
    assert(crc_byte(0x3DBAu16, 0x33u8) == 0x5BCEu16) by (bit_vector);
    assert(crc_byte(0x5BCEu16, 0x34u8) == 0x5349u16) by (bit_vector);
    assert(crc_byte(0x5349u16, 0x35u8) == 0x4560u16) by (bit_vector);
    assert(crc_byte(0x4560u16, 0x36u8) == 0x2EF4u16) by (bit_vector);
    assert(crc_byte(0x2EF4u16, 0x37u8) == 0x7718u16) by (bit_vector);
    assert(crc_byte(0x7718u16, 0x38u8) == 0xA12Bu16) by (bit_vector);
    assert(crc_byte(0xA12Bu16, 0x39u8) == 0x29B1u16) by (bit_vector);
    assert(s.take(0) =~= Seq::<u8>::empty());
    assert(s.take(1).drop_last() =~= s.take(0));
    assert(s.take(2).drop_last() =~= s.take(1));
    assert(s.take(3).drop_last() =~= s.take(2));
    assert(s.take(4).drop_last() =~= s.take(3));
    assert(s.take(5).drop_last() =~= s.take(4));
    assert(s.take(6).drop_last() =~= s.take(5));
    assert(s.take(7).drop_last() =~= s.take(6));
    assert(s.take(8).drop_last() =~= s.take(7));
    assert(s.drop_last() =~= s.take(8));
    assert(s.take(1).last() == 0x31u8);
    assert(s.take(1).len() == 1);
    assert(crc16_spec(s.take(0)) == 0xFFFFu16);
    assert(crc16_spec(s.take(1)) == crc_byte(crc16_spec(s.take(0)), 0x31u8));
    assert(crc16_spec(s.take(1)) == 0xC782u16);
    assert(s.take(2).last() == 0x32u8);
    assert(crc16_spec(s.take(2)) == 0x3DBAu16);
    assert(s.take(3).last() == 0x33u8);
    assert(crc16_spec(s.take(3)) == 0x5BCEu16);
    assert(s.take(4).last() == 0x34u8);
    assert(crc16_spec(s.take(4)) == 0x5349u16);
    assert(s.take(5).last() == 0x35u8);
    assert(crc16_spec(s.take(5)) == 0x4560u16);
    assert(s.take(6).last() == 0x36u8);
    assert(crc16_spec(s.take(6)) == 0x2EF4u16);
    assert(s.take(7).last() == 0x37u8);
    assert(crc16_spec(s.take(7)) == 0x7718u16);
    assert(s.take(8).last() == 0x38u8);
    assert(crc16_spec(s.take(8)) == 0xA12Bu16);
    assert(s.last() == 0x39u8);
}

/// The CRC register after folding the bytes of `data` into `crc`.
pub open spec fn crc16_from(crc: u16, data: Seq<u8>) -> u16
    decreases data.len(),
{
    if data.len() == 0 {
        crc
    } else {
        crc_byte(crc16_from(crc, data.drop_last()), data.last())
    }
}

/// Compute CRC-16/CCITT over a byte slice.
/// Polynomial: 0x1021, Init: 0xFFFF
pub fn compute_crc16(data: &[u8]) -> (crc: u16)
    ensures
        crc == crc16_spec(data@),
{
    let mut crc: u16 = 0xFFFF;
    let mut i: usize = 0;
    while i < data.len()
        invariant
            i <= data@.len(),
            crc == crc16_spec(data@.take(i as int)),
        decreases data@.len() - i,
    {
        let byte = data[i];
        assert(data@.take(i + 1).drop_last() =~= data@.take(i as int));
        crc = crc ^ ((byte as u16) << 8);
        let ghost start = crc;
        let mut b: usize = 0;
        while b < 8
            invariant
                b <= 8,
                crc == crc_shifts(start, b as nat),
            decreases 8 - b,
        {
            if crc & 0x8000 != 0 {
                crc = (crc << 1) ^ 0x1021;
            } else {
                crc = crc << 1;
            }
            b = b + 1;
        }
        i = i + 1;
    }
    assert(data@.take(data@.len() as int) =~= data@);
    crc
}

/// Low byte of a u16.
pub open spec fn lo_byte(x: u16) -> u8 {
    (x & 0xFFu16) as u8
}

/// High byte of a u16.
pub open spec fn hi_byte(x: u16) -> u8 {
    (x >> 8u16) as u8
}

/// A little-endian u16 from two bytes.
pub open spec fn le_u16(lo: u8, hi: u8) -> u16 {
    ((lo as u16) | ((hi as u16) << 8u16)) as u16
}

/// Byte `k` (0..4) of a packed point: rpm_le16 | duty_le16.
pub open spec fn point_byte(p: CalibrationPoint, k: int) -> u8 {
    if k == 0 {
        lo_byte(p.expected_rpm)
    } else if k == 1 {
        hi_byte(p.expected_rpm)
    } else if k == 2 {
        lo_byte(p.measured_duty)
    } else {
        hi_byte(p.measured_duty)
    }
}

/// The packed points region for the first `count` points.
pub open spec fn points_bytes(points: Seq<CalibrationPoint>, count: int) -> Seq<u8> {
    Seq::new((4 * count) as nat, |j: int| point_byte(points[j / 4], j % 4))
}

/// The 4096-byte sector image of a table.
pub open spec fn sector_image(table: CalibrationTable) -> Seq<u8> {
    let n = table.count as int;
    let data = points_bytes(table.points@, n);
    let crc = crc16_spec(data);
    Seq::new(
        SECTOR_SIZE as nat,
        |j: int|
            if j < 4 {
                MAGIC_BYTES@[j]
            } else if j == 4 {
                VERSION
            } else if j == 5 {
                0u8
            } else if j == 6 {
                lo_byte(table.count)
            } else if j == 7 {
                hi_byte(table.count)
            } else if j == 8 {
                lo_byte(crc)
            } else if j == 9 {
                hi_byte(crc)
            } else if j < HEADER_SIZE + 4 * n {
                data[j - HEADER_SIZE]
            } else {
                0xFFu8
            },
    )
}

/// The point stored at index `i` of a sector image.
pub open spec fn stored_point(buf: Seq<u8>, i: int) -> CalibrationPoint {
    let o = HEADER_SIZE + 4 * i;
    CalibrationPoint {
        expected_rpm: le_u16(buf[o], buf[o + 1]),
        measured_duty: le_u16(buf[o + 2], buf[o + 3]),
    }
}

/// The count field of a sector image.
pub open spec fn stored_count(buf: Seq<u8>) -> u16 {
    le_u16(buf[6], buf[7])
}

/// Whether a sector image holds a valid table: magic, version, a count in
/// 1..=386 and a matching checksum of the points region.
pub open spec fn sector_valid(buf: Seq<u8>) -> bool {
    let n = stored_count(buf) as int;
    &&& buf.subrange(0, 4) == MAGIC_BYTES@
    &&& buf[4] == VERSION
    &&& 0 < n <= CAL_STEPS
    &&& le_u16(buf[8], buf[9]) == crc16_spec(buf.subrange(
        HEADER_SIZE as int,
        HEADER_SIZE + 4 * n,
    ))
}

proof fn lemma_le_roundtrip(x: u16)
    ensures
        le_u16(lo_byte(x), hi_byte(x)) == x,
{
    assert(((((x & 0xFFu16) as u8) as u16) | ((((x >> 8u16) as u8) as u16) << 8u16)) == x)
        by (bit_vector);
}

fn le_bytes(x: u16) -> (b: (u8, u8))
    ensures
        b.0 == lo_byte(x),
        b.1 == hi_byte(x),
{
    ((x & 0xFF) as u8, (x >> 8) as u8)
}

fn from_le(lo: u8, hi: u8) -> (x: u16)
    ensures
        x == le_u16(lo, hi),
{
    (lo as u16) | ((hi as u16) << 8)
}

/// Serialize a calibration table into a 4096-byte flash buffer.
pub fn serialize_calibration(table: &CalibrationTable, buf: &mut [u8; SECTOR_SIZE])
    requires
        table.count <= CAL_STEPS,
    ensures
        final(buf)@ == sector_image(*table),
{
    let n = table.count as usize;
    let ghost data = points_bytes(table.points@, n as int);
    let mut k: usize = 0;
    while k < SECTOR_SIZE
        invariant
            k <= SECTOR_SIZE,
            buf@.len() == SECTOR_SIZE,
            forall|j: int| 0 <= j < k ==> #[trigger] buf@[j] == 0xFFu8,
        decreases SECTOR_SIZE - k,
    {
        buf[k] = 0xFF;
        k = k + 1;
    }
    buf[0] = MAGIC_BYTES[0];
    buf[1] = MAGIC_BYTES[1];
    buf[2] = MAGIC_BYTES[2];
    buf[3] = MAGIC_BYTES[3];
    buf[4] = VERSION;
    buf[5] = 0;
    let (c0, c1) = le_bytes(table.count);
    buf[6] = c0;
    buf[7] = c1;
    let mut i: usize = 0;
    while i < n
        invariant
            n == table.count,
            n <= CAL_STEPS,
            i <= n,
            data == points_bytes(table.points@, n as int),
            buf@.len() == SECTOR_SIZE,
            buf@[0] == MAGIC_BYTES@[0],
            buf@[1] == MAGIC_BYTES@[1],
            buf@[2] == MAGIC_BYTES@[2],
            buf@[3] == MAGIC_BYTES@[3],
            buf@[4] == VERSION,
            buf@[5] == 0,
            buf@[6] == lo_byte(table.count),
            buf@[7] == hi_byte(table.count),
            forall|j: int| HEADER_SIZE <= j < HEADER_SIZE + 4 * i ==> #[trigger] buf@[j] == data[j
                - HEADER_SIZE],
            forall|j: int| HEADER_SIZE + 4 * i <= j < SECTOR_SIZE ==> #[trigger] buf@[j] == 0xFFu8,
        decreases n - i,
    {
        let offset = HEADER_SIZE + i * 4;
        let p = table.points[i];
        let (r0, r1) = le_bytes(p.expected_rpm);
        let (d0, d1) = le_bytes(p.measured_duty);
        buf[offset] = r0;
        buf[offset + 1] = r1;
        buf[offset + 2] = d0;
        buf[offset + 3] = d1;
        proof {
            assert forall|j: int| HEADER_SIZE <= j < HEADER_SIZE + 4 * (i + 1) implies #[trigger] buf@[j]
                == data[j - HEADER_SIZE] by {
                if j >= HEADER_SIZE + 4 * i {
                    let q = j - HEADER_SIZE;
                    assert(q / 4 == i);
                    assert(q % 4 == j - offset);
                }
            }
        }
        i = i + 1;
    }
    let data_len = n * 4;
    let region = slice_subrange(buf.as_slice(), HEADER_SIZE, HEADER_SIZE + data_len);
    assert(region@ =~= data);
    let crc = compute_crc16(region);
    let (k0, k1) = le_bytes(crc);
    buf[8] = k0;
    buf[9] = k1;
    assert(buf@ =~= sector_image(*table));
}

/// Deserialize a calibration table from a 4096-byte flash buffer.
///
/// Validates magic, version, count range, and CRC-16 checksum; returns
/// `None` if any validation fails (including the old "CAL1" format).
pub fn deserialize_calibration(buf: &[u8; SECTOR_SIZE]) -> (t: Option<CalibrationTable>)
    ensures
        t is Some <==> sector_valid(buf@),
        t matches Some(table) ==> {
            &&& table.count == stored_count(buf@)
            &&& forall|i: int| 0 <= i < table.count ==> #[trigger] table.points@[i] == stored_point(buf@, i)
            &&& forall|i: int| table.count <= i < CAL_STEPS ==> #[trigger] table.points@[i] == (
            CalibrationPoint { expected_rpm: 0, measured_duty: 0 })
        },
{
    if buf[0] != MAGIC_BYTES[0] || buf[1] != MAGIC_BYTES[1] || buf[2] != MAGIC_BYTES[2] || buf[3]
        != MAGIC_BYTES[3] {
        proof {
            if buf@.subrange(0, 4) == MAGIC_BYTES@ {
                assert(buf@.subrange(0, 4)[0] == buf@[0]);
                assert(buf@.subrange(0, 4)[1] == buf@[1]);
                assert(buf@.subrange(0, 4)[2] == buf@[2]);
                assert(buf@.subrange(0, 4)[3] == buf@[3]);
            }
        }
        return None;
    }
    assert(buf@.subrange(0, 4) =~= MAGIC_BYTES@);
    if buf[4] != VERSION {
        return None;
    }
    let count = from_le(buf[6], buf[7]);
    if count == 0 || count as usize > CAL_STEPS {
        return None;
    }
    let data_len = count as usize * 4;
    let stored_crc = from_le(buf[8], buf[9]);
    let region = slice_subrange(buf.as_slice(), HEADER_SIZE, HEADER_SIZE + data_len);
    let computed_crc = compute_crc16(region);
    if stored_crc != computed_crc {
        return None;
    }
    let mut table = empty_calibration_table();
    table.count = count;
    let n = count as usize;
    let mut i: usize = 0;
    while i < n
        invariant
            n == count,
            n <= CAL_STEPS,
            i <= n,
            table.count == count,
            buf@.len() == SECTOR_SIZE,
            forall|j: int| 0 <= j < i ==> #[trigger] table.points@[j] == stored_point(buf@, j),
            forall|j: int| i <= j < CAL_STEPS ==> #[trigger] table.points@[j] == (CalibrationPoint {
                expected_rpm: 0,
                measured_duty: 0,
            }),
        decreases n - i,
    {
        let offset = HEADER_SIZE + i * 4;
        let expected_rpm = from_le(buf[offset], buf[offset + 1]);
        let measured_duty = from_le(buf[offset + 2], buf[offset + 3]);
        table.points[i] = CalibrationPoint { expected_rpm, measured_duty };
        i = i + 1;
    }
    Some(table)
}

/// Compute the checksum of a table's points region (for display/logging).
pub fn compute_checksum(table: &CalibrationTable) -> (crc: u16)
    requires
        table.count <= CAL_STEPS,
    ensures
        crc == crc16_spec(points_bytes(table.points@, table.count as int)),
{
    let n = table.count as usize;
    let ghost pb = points_bytes(table.points@, n as int);
    let mut data: Vec<u8> = Vec::new();
    let mut i: usize = 0;
    while i < n
        invariant
            n == table.count,
            n <= CAL_STEPS,
            i <= n,
            pb == points_bytes(table.points@, n as int),
            data@.len() == 4 * i,
            forall|j: int| 0 <= j < 4 * i ==> #[trigger] data@[j] == pb[j],
        decreases n - i,
    {
        let p = table.points[i];
        let (r0, r1) = le_bytes(p.expected_rpm);
        let (d0, d1) = le_bytes(p.measured_duty);
        data.push(r0);
        data.push(r1);
        data.push(d0);
        data.push(d1);
        proof {
            assert forall|j: int| 0 <= j < 4 * (i + 1) implies #[trigger] data@[j] == pb[j] by {
                if j >= 4 * i {
                    assert(j / 4 == i);
                }
            }
        }
        i = i + 1;
    }
    assert(data@ =~= pb);
    compute_crc16(data.as_slice())
}

/// A stored table reads back as written: deserializing the sector image of
/// a table with 1..=386 points gives the same count and the same points,
/// with the unused slots zero.
pub proof fn lemma_flash_roundtrip(table: CalibrationTable)
    requires
        0 < table.count <= CAL_STEPS,
    ensures
        sector_valid(sector_image(table)),
        stored_count(sector_image(table)) == table.count,
        forall|i: int| 0 <= i < table.count ==> #[trigger] stored_point(sector_image(table), i)
            == table.points@[i],
{
    let buf = sector_image(table);
    let n = table.count as int;
    let data = points_bytes(table.points@, n);
    lemma_le_roundtrip(table.count);
    lemma_le_roundtrip(crc16_spec(data));
    assert(buf.subrange(0, 4) =~= MAGIC_BYTES@);
    assert(buf.subrange(HEADER_SIZE as int, HEADER_SIZE + 4 * n) =~= data);
    assert forall|i: int| 0 <= i < table.count implies #[trigger] stored_point(buf, i)
        == table.points@[i] by {
        let p = table.points@[i];
        let o = HEADER_SIZE + 4 * i;
        assert((4 * i) / 4 == i && (4 * i) % 4 == 0);
        assert((4 * i + 1) / 4 == i && (4 * i + 1) % 4 == 1);
        assert((4 * i + 2) / 4 == i && (4 * i + 2) % 4 == 2);
        assert((4 * i + 3) / 4 == i && (4 * i + 3) % 4 == 3);
        lemma_le_roundtrip(p.expected_rpm);
        lemma_le_roundtrip(p.measured_duty);
    }
}

} // verus!
