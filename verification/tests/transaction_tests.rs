//! End-to-end transactions over the simulated bus, including failures
//! injected mid-transaction.

use tle5012::{compute_crc, spi_mode, Error, SimBus, SimError, SimPin, Tle5012};

/// The safety word the chip would answer for a read of `cmd` that
/// returned `data`: all fault bits set, checksum over command and data.
fn good_safety(cmd: u16, data: u16) -> u16 {
    let bytes = [(cmd >> 8) as u8, cmd as u8, (data >> 8) as u8, data as u8];
    0xFF00 | compute_crc(&bytes) as u16
}

#[test]
fn status_read_returns_the_data_word() {
    let responses = vec![0x0000, 0x1234, good_safety(0x8001, 0x1234)];
    let mut d = Tle5012::new(SimBus::new(responses, None), SimPin::new()).unwrap();
    assert_eq!(d.read_status(), Ok(0x1234));
    let (_, pin) = d.release();
    assert!(!pin.is_low());
}

#[test]
fn status_read_with_flipped_checksum_is_checksum_fault() {
    let responses = vec![0x0000, 0x1234, good_safety(0x8001, 0x1234) ^ 0x0001];
    let mut d = Tle5012::new(SimBus::new(responses, None), SimPin::new()).unwrap();
    assert_eq!(d.read_status(), Err(Error::Crc));
}

#[test]
fn status_read_with_system_bit_clear_is_system_fault_despite_good_checksum() {
    let responses = vec![0x0000, 0x1234, good_safety(0x8001, 0x1234) & !0x4000];
    let mut d = Tle5012::new(SimBus::new(responses, None), SimPin::new()).unwrap();
    assert_eq!(d.read_status(), Err(Error::System));
}

#[test]
fn angle_read_decodes_the_15_bit_field() {
    let responses = vec![0x0000, 0x4000, good_safety(0x8021, 0x4000)];
    let mut d = Tle5012::new(SimBus::new(responses, None), SimPin::new()).unwrap();
    assert_eq!(d.read_angle_value(), Ok(-16384));
}

#[test]
fn temperature_read_decodes_the_9_bit_field() {
    let responses = vec![0x0000, 0x0100, good_safety(0x8051, 0x0100)];
    let mut d = Tle5012::new(SimBus::new(responses, None), SimPin::new()).unwrap();
    assert_eq!(d.read_temp(), Ok(-256));
}

#[test]
fn write_returns_success_on_validated_echo() {
    // The chip echoes the payload beat back on the safety beat's command
    // side; the safety word covers the command and the payload.
    let responses = vec![0x0000, 0x0000, good_safety(0x0011, 0xABCD)];
    let mut d = Tle5012::new(SimBus::new(responses, None), SimPin::new()).unwrap();
    assert_eq!(d.write_activation_status(0xABCD), Ok(true));
    let (_, pin) = d.release();
    assert!(!pin.is_low());
}

#[test]
fn write_with_fault_bit_clear_fails() {
    let responses = vec![0x0000, 0x0000, good_safety(0x0011, 0xABCD) & !0x2000];
    let mut d = Tle5012::new(SimBus::new(responses, None), SimPin::new()).unwrap();
    assert_eq!(d.write_activation_status(0xABCD), Err(Error::InterfaceAccess));
}

#[test]
fn transfer_failure_on_first_beat_releases_chip_select() {
    let responses = vec![0x0000, 0x1234, good_safety(0x8001, 0x1234)];
    let mut d = Tle5012::new(SimBus::new(responses, Some(0)), SimPin::new()).unwrap();
    assert_eq!(d.read_status(), Err(Error::Spi(SimError)));
    let (_, pin) = d.release();
    assert!(!pin.is_low());
}

#[test]
fn transfer_failure_on_second_beat_releases_chip_select() {
    let responses = vec![0x0000, 0x1234, good_safety(0x8001, 0x1234)];
    let mut d = Tle5012::new(SimBus::new(responses, Some(1)), SimPin::new()).unwrap();
    assert_eq!(d.read_status(), Err(Error::Spi(SimError)));
    let (_, pin) = d.release();
    assert!(!pin.is_low());
}

#[test]
fn transfer_failure_on_third_beat_releases_chip_select() {
    let responses = vec![0x0000, 0x1234, good_safety(0x8001, 0x1234)];
    let mut d = Tle5012::new(SimBus::new(responses, Some(2)), SimPin::new()).unwrap();
    assert_eq!(d.read_status(), Err(Error::Spi(SimError)));
    let (_, pin) = d.release();
    assert!(!pin.is_low());
}

#[test]
fn write_failure_mid_transaction_releases_chip_select() {
    let responses = vec![0x0000, 0x0000, good_safety(0x0011, 0xABCD)];
    let mut d = Tle5012::new(SimBus::new(responses, Some(1)), SimPin::new()).unwrap();
    assert_eq!(d.write_activation_status(0xABCD), Err(Error::Spi(SimError)));
    let (_, pin) = d.release();
    assert!(!pin.is_low());
}

#[test]
fn spi_mode_is_configurable_per_chip_variant() {
    let a = spi_mode(false);
    assert!(!a.clock_idle_high);
    assert!(a.capture_on_second_edge);
    let b = spi_mode(true);
    assert!(b.clock_idle_high);
    assert!(b.capture_on_second_edge);
}

#[test]
fn failed_transaction_aborts_without_further_transfers() {
    let responses = vec![0x0000, 0x1234, good_safety(0x8001, 0x1234)];
    let mut d = Tle5012::new(SimBus::new(responses, Some(1)), SimPin::new()).unwrap();
    assert_eq!(d.read_status(), Err(Error::Spi(SimError)));
    let (bus, _) = d.release();
    assert_eq!(bus.transfers_attempted(), 2);
}

#[test]
fn successful_read_makes_exactly_three_transfers() {
    let responses = vec![0x0000, 0x1234, good_safety(0x8001, 0x1234)];
    let mut d = Tle5012::new(SimBus::new(responses, None), SimPin::new()).unwrap();
    assert_eq!(d.read_status(), Ok(0x1234));
    let (bus, _) = d.release();
    assert_eq!(bus.transfers_attempted(), 3);
}
