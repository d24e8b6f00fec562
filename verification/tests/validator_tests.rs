//! Safety-word validation: fault bits in priority order, then the checksum.

use tle5012::{compute_crc, Error, SimBus, SimPin, Tle5012};

fn driver() -> Tle5012<SimBus, SimPin> {
    Tle5012::new(SimBus::new(Vec::new(), None), SimPin::new()).unwrap()
}

#[test]
fn system_bit_clear_is_system_fault_regardless_of_other_bits() {
    let mut d = driver();
    assert_eq!(d.check_safety(0xBFFF, 0x8001, 0x1234), Err(Error::System));
    assert_eq!(d.check_safety(0x0000, 0x8001, 0x1234), Err(Error::System));
    assert_eq!(d.check_safety(0x3FFF, 0x8001, 0x1234), Err(Error::System));
}

#[test]
fn interface_bit_clear_is_interface_fault() {
    let mut d = driver();
    assert_eq!(d.check_safety(0xDFFF, 0x8001, 0x1234), Err(Error::InterfaceAccess));
    assert_eq!(d.check_safety(0x4000, 0x8001, 0x1234), Err(Error::InterfaceAccess));
}

#[test]
fn angle_bit_clear_is_invalid_angle_fault() {
    let mut d = driver();
    assert_eq!(d.check_safety(0xEFFF, 0x8001, 0x1234), Err(Error::InvalidAngle));
    assert_eq!(d.check_safety(0x6000, 0x8001, 0x1234), Err(Error::InvalidAngle));
}

#[test]
fn all_bits_set_and_correct_checksum_returns_data_unchanged() {
    let mut d = driver();
    let crc = compute_crc(&[0x80, 0x01, 0x12, 0x34]);
    assert_eq!(crc, 0xF1);
    let safety = 0xFF00 | crc as u16;
    assert_eq!(d.check_safety(safety, 0x8001, 0x1234), Ok(0x1234));
}

#[test]
fn all_bits_set_and_wrong_checksum_is_checksum_fault() {
    let mut d = driver();
    let crc = compute_crc(&[0x80, 0x01, 0x12, 0x34]);
    let safety = 0xFF00 | (crc ^ 0x01) as u16;
    assert_eq!(d.check_safety(safety, 0x8001, 0x1234), Err(Error::Crc));
}

#[test]
fn calc_crc_accepts_only_the_true_checksum() {
    let mut d = driver();
    let buf = [0x80, 0x01, 0x12, 0x34];
    let crc = compute_crc(&buf);
    assert!(d.calc_crc(&buf, crc).is_ok());
    assert_eq!(d.calc_crc(&buf, crc ^ 0x80), Err(Error::Crc));
}
