//! Calibration flash image: CRC, serialization and validation.
use carvera_spindle::calibration::{CalibrationPoint, CalibrationTable, CAL_STEPS};
use carvera_spindle::flash_store::{
    compute_checksum, compute_crc16, deserialize_calibration, serialize_calibration, HEADER_SIZE,
    MAGIC_BYTES, SECTOR_SIZE, VERSION,
};

fn make_test_table() -> CalibrationTable {
    let mut table = CalibrationTable::default();
    table.count = 3;
    table.points[0] = CalibrationPoint {
        expected_rpm: 500,
        measured_duty: 245,
    };
    table.points[1] = CalibrationPoint {
        expected_rpm: 750,
        measured_duty: 367,
    };
    table.points[2] = CalibrationPoint {
        expected_rpm: 1000,
        measured_duty: 489,
    };
    table
}

#[test]
fn test_crc16_basic() {
    let data = b"Hello";
    let crc = compute_crc16(data);
    // Just verify it's deterministic and non-zero
    assert_ne!(crc, 0);
    assert_eq!(crc, compute_crc16(data));
}

#[test]
fn test_crc16_different_data() {
    let crc1 = compute_crc16(b"Hello");
    let crc2 = compute_crc16(b"World");
    assert_ne!(crc1, crc2);
}

#[test]
fn test_serialize_deserialize_roundtrip() {
    let table = make_test_table();
    let mut buf = [0u8; SECTOR_SIZE];

    serialize_calibration(&table, &mut buf);
    let result = deserialize_calibration(&buf).expect("Deserialization should succeed");

    assert_eq!(result.count, 3);
    assert_eq!(result.points[0].expected_rpm, 500);
    assert_eq!(result.points[0].measured_duty, 245);
    assert_eq!(result.points[1].expected_rpm, 750);
    assert_eq!(result.points[1].measured_duty, 367);
    assert_eq!(result.points[2].expected_rpm, 1000);
    assert_eq!(result.points[2].measured_duty, 489);
}

#[test]
fn test_deserialize_bad_magic() {
    let table = make_test_table();
    let mut buf = [0u8; SECTOR_SIZE];
    serialize_calibration(&table, &mut buf);

    // Corrupt magic
    buf[0] = 0x00;
    assert!(deserialize_calibration(&buf).is_none());
}

#[test]
fn test_deserialize_bad_version() {
    let table = make_test_table();
    let mut buf = [0u8; SECTOR_SIZE];
    serialize_calibration(&table, &mut buf);

    // Wrong version
    buf[4] = 99;
    assert!(deserialize_calibration(&buf).is_none());
}

#[test]
fn test_deserialize_bad_crc() {
    let table = make_test_table();
    let mut buf = [0u8; SECTOR_SIZE];
    serialize_calibration(&table, &mut buf);

    // Corrupt a data byte
    buf[HEADER_SIZE] ^= 0xFF;
    assert!(deserialize_calibration(&buf).is_none());
}

#[test]
fn test_deserialize_zero_count() {
    let mut buf = [0u8; SECTOR_SIZE];
    buf[0..4].copy_from_slice(&MAGIC_BYTES);
    buf[4] = VERSION;
    buf[5] = 0; // reserved
    buf[6..8].copy_from_slice(&0u16.to_le_bytes()); // Zero count should fail
    assert!(deserialize_calibration(&buf).is_none());
}

#[test]
fn test_deserialize_count_too_high() {
    let mut buf = [0u8; SECTOR_SIZE];
    buf[0..4].copy_from_slice(&MAGIC_BYTES);
    buf[4] = VERSION;
    buf[5] = 0; // reserved
    buf[6..8].copy_from_slice(&400u16.to_le_bytes()); // > CAL_STEPS should fail
    assert!(deserialize_calibration(&buf).is_none());
}

#[test]
fn test_deserialize_erased_flash() {
    // Erased flash is all 0xFF
    let buf = [0xFF; SECTOR_SIZE];
    assert!(deserialize_calibration(&buf).is_none());
}

#[test]
fn test_compute_checksum_matches() {
    let table = make_test_table();
    let mut buf = [0u8; SECTOR_SIZE];
    serialize_calibration(&table, &mut buf);

    let stored_crc = u16::from_le_bytes([buf[8], buf[9]]);
    let computed_crc = compute_checksum(&table);
    assert_eq!(stored_crc, computed_crc);
}

#[test]
fn test_full_386_point_roundtrip() {
    let mut table = CalibrationTable::default();
    table.count = CAL_STEPS as u16;
    for i in 0..CAL_STEPS {
        let rpm = 750 + i as u16 * 50;
        let duty = ((rpm as u32 * 10000) / 20437) as u16;
        table.points[i] = CalibrationPoint {
            expected_rpm: rpm,
            measured_duty: duty,
        };
    }

    let mut buf = [0u8; SECTOR_SIZE];
    serialize_calibration(&table, &mut buf);
    let result = deserialize_calibration(&buf).expect("386-point roundtrip should work");

    assert_eq!(result.count, CAL_STEPS as u16);
    for i in 0..CAL_STEPS {
        assert_eq!(result.points[i].expected_rpm, table.points[i].expected_rpm);
        assert_eq!(
            result.points[i].measured_duty,
            table.points[i].measured_duty
        );
    }

    // Verify fits in sector: header(10) + 386*4 = 1554 < 4096
    let total = HEADER_SIZE + CAL_STEPS * 4;
    assert!(
        total <= SECTOR_SIZE,
        "Data size {} exceeds sector {}",
        total,
        SECTOR_SIZE
    );
}

#[test]
fn test_rejects_old_cal1_format() {
    // Old CAL1 magic should be rejected
    let mut buf = [0u8; SECTOR_SIZE];
    buf[0..4].copy_from_slice(&[0x43, 0x41, 0x4C, 0x31]); // "CAL1"
    buf[4] = 1; // old version
    buf[5] = 3; // old count field
    assert!(deserialize_calibration(&buf).is_none());
}
