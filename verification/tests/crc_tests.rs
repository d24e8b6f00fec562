//! Checksum engine against reference values and single-byte changes.

use tle5012::compute_crc;

#[test]
fn crc_of_empty_is_complement_of_seed() {
    assert_eq!(compute_crc(&[]), 0x00);
}

#[test]
fn crc_of_single_zero_byte() {
    assert_eq!(compute_crc(&[0x00]), 0x3B);
}

#[test]
fn crc_reference_check_value() {
    // The standard check input for this polynomial, seed and final complement.
    assert_eq!(compute_crc(b"123456789"), 0x4B);
}

#[test]
fn crc_changes_when_any_byte_changes() {
    let base = [0x80u8, 0x21, 0x12, 0x34];
    let reference = compute_crc(&base);
    for i in 0..base.len() {
        for bit in 0..8 {
            let mut flipped = base;
            flipped[i] ^= 1 << bit;
            assert_ne!(compute_crc(&flipped), reference);
        }
    }
}

#[test]
fn crc_depends_on_byte_order() {
    assert_ne!(compute_crc(&[0x12, 0x34]), compute_crc(&[0x34, 0x12]));
}
