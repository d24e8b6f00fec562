//! Register map: every symbol encodes to its chip-defined address and
//! decodes back to itself.

use tle5012::{Address, ReadCmd, ReadUpdCmd, WriteCmd};

#[test]
fn read_addresses_are_the_chip_defined_ones() {
    assert_eq!(ReadCmd::STA_CMD_NOSAFETY.addr(), 0x8000);
    assert_eq!(ReadCmd::STA_CMD.addr(), 0x8001);
    assert_eq!(ReadCmd::ACTIV_STA_CMD.addr(), 0x8011);
    assert_eq!(ReadCmd::ANGLE_VAL_CMD.addr(), 0x8021);
    assert_eq!(ReadCmd::ANGLE_SPD_CMD.addr(), 0x8031);
    assert_eq!(ReadCmd::ANGLE_REV_CMD.addr(), 0x8041);
    assert_eq!(ReadCmd::TEMP_CMD.addr(), 0x8051);
    assert_eq!(ReadCmd::INTMODE_1.addr(), 0x8061);
    assert_eq!(ReadCmd::SIL.addr(), 0x8071);
    assert_eq!(ReadCmd::INTMODE_2.addr(), 0x8081);
    assert_eq!(ReadCmd::INTMODE_3.addr(), 0x8091);
    assert_eq!(ReadCmd::OFFSET_X.addr(), 0x80A1);
    assert_eq!(ReadCmd::OFFSET_Y.addr(), 0x80B1);
    assert_eq!(ReadCmd::SYNCH.addr(), 0x80C1);
    assert_eq!(ReadCmd::IFAB.addr(), 0x80D1);
    assert_eq!(ReadCmd::INTMODE_4.addr(), 0x80E1);
    assert_eq!(ReadCmd::TEMP_COEFF.addr(), 0x80F1);
    assert_eq!(ReadCmd::RAW_X_CMD.addr(), 0x8101);
    assert_eq!(ReadCmd::RAW_Y_CMD.addr(), 0x8111);
}

#[test]
fn read_upd_addresses_are_the_chip_defined_ones() {
    assert_eq!(ReadUpdCmd::STA_CMD.addr(), 0x8401);
    assert_eq!(ReadUpdCmd::ANGLE_VAL_CMD.addr(), 0x8421);
    assert_eq!(ReadUpdCmd::ANGLE_SPD_CMD.addr(), 0x8431);
    assert_eq!(ReadUpdCmd::ANGLE_REV_CMD.addr(), 0x8441);
}

#[test]
fn write_addresses_are_the_chip_defined_ones() {
    assert_eq!(WriteCmd::ACTIV_STA.addr(), 0x0011);
    assert_eq!(WriteCmd::INTMODE_1.addr(), 0x5061);
    assert_eq!(WriteCmd::SIL.addr(), 0x5071);
    assert_eq!(WriteCmd::INTMODE_2.addr(), 0x5081);
    assert_eq!(WriteCmd::INTMODE_3.addr(), 0x5091);
    assert_eq!(WriteCmd::OFFSET_X.addr(), 0x50A1);
    assert_eq!(WriteCmd::OFFSET_Y.addr(), 0x50B1);
    assert_eq!(WriteCmd::SYNCH.addr(), 0x50C1);
    assert_eq!(WriteCmd::IFAB.addr(), 0x50D1);
    assert_eq!(WriteCmd::INTMODE_4.addr(), 0x50E1);
    assert_eq!(WriteCmd::TEMP_COEFF.addr(), 0x50F1);
}

#[test]
fn read_map_round_trips() {
    let all = [
        ReadCmd::STA_CMD_NOSAFETY,
        ReadCmd::STA_CMD,
        ReadCmd::ACTIV_STA_CMD,
        ReadCmd::ANGLE_VAL_CMD,
        ReadCmd::ANGLE_SPD_CMD,
        ReadCmd::ANGLE_REV_CMD,
        ReadCmd::TEMP_CMD,
        ReadCmd::INTMODE_1,
        ReadCmd::SIL,
        ReadCmd::INTMODE_2,
        ReadCmd::INTMODE_3,
        ReadCmd::OFFSET_X,
        ReadCmd::OFFSET_Y,
        ReadCmd::SYNCH,
        ReadCmd::IFAB,
        ReadCmd::INTMODE_4,
        ReadCmd::TEMP_COEFF,
        ReadCmd::RAW_X_CMD,
        ReadCmd::RAW_Y_CMD,
    ];
    for c in all {
        assert_eq!(ReadCmd::decode(c.addr()), Some(c));
    }
}

#[test]
fn read_upd_map_round_trips() {
    let all = [
        ReadUpdCmd::STA_CMD,
        ReadUpdCmd::ANGLE_VAL_CMD,
        ReadUpdCmd::ANGLE_SPD_CMD,
        ReadUpdCmd::ANGLE_REV_CMD,
    ];
    for c in all {
        assert_eq!(ReadUpdCmd::decode(c.addr()), Some(c));
    }
}

#[test]
fn write_map_round_trips() {
    let all = [
        WriteCmd::ACTIV_STA,
        WriteCmd::INTMODE_1,
        WriteCmd::SIL,
        WriteCmd::INTMODE_2,
        WriteCmd::INTMODE_3,
        WriteCmd::OFFSET_X,
        WriteCmd::OFFSET_Y,
        WriteCmd::SYNCH,
        WriteCmd::IFAB,
        WriteCmd::INTMODE_4,
        WriteCmd::TEMP_COEFF,
    ];
    for c in all {
        assert_eq!(WriteCmd::decode(c.addr()), Some(c));
    }
}

#[test]
fn unknown_addresses_decode_to_none() {
    assert_eq!(ReadCmd::decode(0x1234), None);
    assert_eq!(ReadUpdCmd::decode(0x8001), None);
    assert_eq!(WriteCmd::decode(0x8001), None);
}
