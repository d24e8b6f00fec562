//! Decoder behaviour on the reference inputs.

use tle5012::{from_i15_to_i16, from_i9_to_i16};

#[test]
fn i15_zero() {
    assert_eq!(from_i15_to_i16(0x0000), 0);
}

#[test]
fn i15_bit14_set_rest_zero() {
    assert_eq!(from_i15_to_i16(0x4000), -16384);
}

#[test]
fn i15_all_low_bits() {
    assert_eq!(from_i15_to_i16(0x7FFF), -1);
}

#[test]
fn i15_ignores_bit15() {
    assert_eq!(from_i15_to_i16(0x8000), 0);
    assert_eq!(from_i15_to_i16(0xC000), -16384);
}

#[test]
fn i15_positive() {
    assert_eq!(from_i15_to_i16(0x3FFF), 0x3FFF);
}

#[test]
fn i9_zero() {
    assert_eq!(from_i9_to_i16(0x0000), 0);
}

#[test]
fn i9_bit8_set_rest_zero() {
    assert_eq!(from_i9_to_i16(0x0100), -256);
}

#[test]
fn i9_all_low_bits() {
    assert_eq!(from_i9_to_i16(0x01FF), -1);
}

#[test]
fn i9_ignores_high_bits() {
    assert_eq!(from_i9_to_i16(0xFE00), 0);
    assert_eq!(from_i9_to_i16(0xFF00), -256);
}

#[test]
fn i9_positive() {
    assert_eq!(from_i9_to_i16(0x00FF), 255);
}
