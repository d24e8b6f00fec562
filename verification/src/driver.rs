//! Transaction engine and safety-word validation.
//!
//! A register access is three full-duplex frames inside one chip-select
//! window: the command, the data word, and the safety word.  The safety
//! word is validated before the data is believed: three fault bits are
//! checked in priority order, then the checksum byte is compared against
//! the CRC-8 of the command and data bytes.  The chip-select line is
//! released on every exit path, including transfer failures.

use vstd::prelude::*;

use crate::bus::{ChipSelect, SpiBus};
use crate::codec::{decode_i15, decode_i9, from_i15_to_i16, from_i9_to_i16, hi8, hi_byte, lo8,
    lo_byte};
use crate::crc::{compute_crc, crc8};
use crate::regs::{Address, ReadCmd, ReadUpdCmd, WriteCmd};

verus! {

/// Safety-word bit that is clear when the chip reports a system fault.
pub const SYSTEM_ERROR_MASK: u16 = 0x4000;

/// Safety-word bit that is clear when the chip reports an interface-access fault.
pub const INTERFACE_ERROR_MASK: u16 = 0x2000;

/// Safety-word bit that is clear when the chip reports an invalid angle.
pub const INV_ANGLE_ERROR_MASK: u16 = 0x1000;

/// Why a register operation failed.
#[derive(Debug, PartialEq, Eq)]
pub enum Error<E> {
    /// The chip reported a system fault.
    System,
    /// The chip reported an interface-access fault.
    InterfaceAccess,
    /// The chip reported an invalid angle value.
    InvalidAngle,
    /// The computed CRC-8 disagrees with the chip-reported checksum.
    Crc,
    /// An underlying bus transfer failed; the cause is carried along.
    Spi(E),
}

/// The verdict on one transaction: the three fault bits in priority
/// order, then the checksum over the four command and data bytes against
/// the low byte of the safety word; the data word is returned unchanged
/// only when all checks pass.
pub open spec fn validate_spec<E>(safety: u16, cmd: u16, data: u16) -> Result<u16, Error<E>> {
    if safety & SYSTEM_ERROR_MASK == 0 {
        Err(Error::System)
    } else if safety & INTERFACE_ERROR_MASK == 0 {
        Err(Error::InterfaceAccess)
    } else if safety & INV_ANGLE_ERROR_MASK == 0 {
        Err(Error::InvalidAngle)
    } else if crc8(seq![hi8(cmd), lo8(cmd), hi8(data), lo8(data)]) != lo8(safety) {
        Err(Error::Crc)
    } else {
        Ok(data)
    }
}

/// The word the chip answered on the data beat: the second exchange
/// after the old history `h0`.
pub open spec fn data_word(h0: Seq<(u16, u16)>, h1: Seq<(u16, u16)>) -> u16 {
    h1[h0.len() as int + 1].1
}

/// The word the chip answered on the safety beat: the third exchange
/// after the old history `h0`.
pub open spec fn safety_word(h0: Seq<(u16, u16)>, h1: Seq<(u16, u16)>) -> u16 {
    h1[h0.len() as int + 2].1
}

/// The frames of a completed read: the command goes out on the first
/// beat, and each later beat echoes back out what the previous beat
/// received, as the bus buffer is reused.
pub open spec fn read_frames(h0: Seq<(u16, u16)>, h1: Seq<(u16, u16)>, cmd: u16) -> bool {
    let n = h0.len() as int;
    &&& h1.len() == n + 3
    &&& h1[n].0 == cmd
    &&& h1[n + 1].0 == h1[n].1
    &&& h1[n + 2].0 == h1[n + 1].1
}

/// The frames of a completed write: the command, then the data payload,
/// then an echo of what the data beat received.
pub open spec fn write_frames(h0: Seq<(u16, u16)>, h1: Seq<(u16, u16)>, cmd: u16, data: u16) -> bool {
    let n = h0.len() as int;
    &&& h1.len() == n + 3
    &&& h1[n].0 == cmd
    &&& h1[n + 1].0 == data
    &&& h1[n + 2].0 == h1[n + 1].1
}

/// What every register operation does to the bus: it extends the history
/// by at most three exchanges, the first of which sends the command.
pub open spec fn exchange_shape(h0: Seq<(u16, u16)>, h1: Seq<(u16, u16)>, cmd: u16) -> bool {
    &&& h0.is_prefix_of(h1)
    &&& h1.len() <= h0.len() + 3
    &&& (h1.len() > h0.len() ==> h1[h0.len() as int].0 == cmd)
}

/// Contract of a raw register read returning the validated data word.
pub open spec fn read_contract<E>(
    h0: Seq<(u16, u16)>,
    h1: Seq<(u16, u16)>,
    cmd: u16,
    r: Result<u16, Error<E>>,
) -> bool {
    &&& exchange_shape(h0, h1, cmd)
    &&& ((r matches Err(Error::Spi(_))) <==> h1.len() < h0.len() + 3)
    &&& (h1.len() == h0.len() + 3 ==> {
        &&& read_frames(h0, h1, cmd)
        &&& r == validate_spec::<E>(safety_word(h0, h1), cmd, data_word(h0, h1))
    })
}

/// Contract of a register read whose data word holds a 15-bit signed field.
pub open spec fn read_contract_i15<E>(
    h0: Seq<(u16, u16)>,
    h1: Seq<(u16, u16)>,
    cmd: u16,
    r: Result<i16, Error<E>>,
) -> bool {
    &&& exchange_shape(h0, h1, cmd)
    &&& ((r matches Err(Error::Spi(_))) <==> h1.len() < h0.len() + 3)
    &&& (h1.len() == h0.len() + 3 ==> {
        &&& read_frames(h0, h1, cmd)
        &&& r == (match validate_spec::<E>(safety_word(h0, h1), cmd, data_word(h0, h1)) {
            Ok(v) => Ok(decode_i15(v)),
            Err(e) => Err(e),
        })
    })
}

/// Contract of a register read whose data word holds a 9-bit signed field.
pub open spec fn read_contract_i9<E>(
    h0: Seq<(u16, u16)>,
    h1: Seq<(u16, u16)>,
    cmd: u16,
    r: Result<i16, Error<E>>,
) -> bool {
    &&& exchange_shape(h0, h1, cmd)
    &&& ((r matches Err(Error::Spi(_))) <==> h1.len() < h0.len() + 3)
    &&& (h1.len() == h0.len() + 3 ==> {
        &&& read_frames(h0, h1, cmd)
        &&& r == (match validate_spec::<E>(safety_word(h0, h1), cmd, data_word(h0, h1)) {
            Ok(v) => Ok(decode_i9(v)),
            Err(e) => Err(e),
        })
    })
}

/// Contract of a register read whose data word is reinterpreted as `i16`.
pub open spec fn read_contract_raw<E>(
    h0: Seq<(u16, u16)>,
    h1: Seq<(u16, u16)>,
    cmd: u16,
    r: Result<i16, Error<E>>,
) -> bool {
    &&& exchange_shape(h0, h1, cmd)
    &&& ((r matches Err(Error::Spi(_))) <==> h1.len() < h0.len() + 3)
    &&& (h1.len() == h0.len() + 3 ==> {
        &&& read_frames(h0, h1, cmd)
        &&& r == (match validate_spec::<E>(safety_word(h0, h1), cmd, data_word(h0, h1)) {
            Ok(v) => Ok(v as i16),
            Err(e) => Err(e),
        })
    })
}

/// Contract of a register write returning a success flag.
pub open spec fn write_contract<E>(
    h0: Seq<(u16, u16)>,
    h1: Seq<(u16, u16)>,
    cmd: u16,
    data: u16,
    r: Result<bool, Error<E>>,
) -> bool {
    &&& exchange_shape(h0, h1, cmd)
    &&& ((r matches Err(Error::Spi(_))) <==> h1.len() < h0.len() + 3)
    &&& (h1.len() == h0.len() + 3 ==> {
        &&& write_frames(h0, h1, cmd, data)
        &&& r == (match validate_spec::<E>(safety_word(h0, h1), cmd, data) {
            Ok(_) => Ok(true),
            Err(e) => Err(e),
        })
    })
}

/// The validator's checks are ordered and short-circuit: a cleared
/// system bit wins over every other condition, then the interface bit,
/// then the angle bit, and only with all three set is the checksum
/// consulted; a transaction with all bits set is accepted exactly when
/// the checksum over the command and data bytes matches, and then the
/// data word comes back unchanged.
pub proof fn lemma_validation_priority<E>(safety: u16, cmd: u16, data: u16)
    ensures
        safety & SYSTEM_ERROR_MASK == 0 ==> validate_spec::<E>(safety, cmd, data) == Err::<
            u16,
            Error<E>,
        >(Error::System),
        (safety & SYSTEM_ERROR_MASK != 0 && safety & INTERFACE_ERROR_MASK == 0)
            ==> validate_spec::<E>(safety, cmd, data) == Err::<u16, Error<E>>(
            Error::InterfaceAccess,
        ),
        (safety & SYSTEM_ERROR_MASK != 0 && safety & INTERFACE_ERROR_MASK != 0 && safety
            & INV_ANGLE_ERROR_MASK == 0) ==> validate_spec::<E>(safety, cmd, data) == Err::<
            u16,
            Error<E>,
        >(Error::InvalidAngle),
        (safety & SYSTEM_ERROR_MASK != 0 && safety & INTERFACE_ERROR_MASK != 0 && safety
            & INV_ANGLE_ERROR_MASK != 0 && crc8(seq![hi8(cmd), lo8(cmd), hi8(data), lo8(data)])
            == lo8(safety)) ==> validate_spec::<E>(safety, cmd, data) == Ok::<u16, Error<E>>(data),
        (safety & SYSTEM_ERROR_MASK != 0 && safety & INTERFACE_ERROR_MASK != 0 && safety
            & INV_ANGLE_ERROR_MASK != 0 && crc8(seq![hi8(cmd), lo8(cmd), hi8(data), lo8(data)])
            != lo8(safety)) ==> validate_spec::<E>(safety, cmd, data) == Err::<u16, Error<E>>(
            Error::Crc,
        ),
{
}

/// Driver for the angle sensor.
///
/// It owns the bus and the chip-select pin exclusively; one register
/// operation runs at a time, and the chip-select line is inactive again
/// whenever an operation has returned.
pub struct Tle5012<SPI, CS> {
    spi: SPI,
    cs: CS,
    hist: Ghost<Seq<(u16, u16)>>,
    cs_low: Ghost<bool>,
}

impl<SPI, CS> Tle5012<SPI, CS> where SPI: SpiBus, CS: ChipSelect {
    /// All exchanges the driver has completed on its bus, oldest first.
    pub closed spec fn history(&self) -> Seq<(u16, u16)> {
        self.hist@
    }

    /// Whether the driver has no transaction open: the chip-select line
    /// was left driven high.
    pub closed spec fn cs_inactive(&self) -> bool {
        !self.cs_low@
    }

    /// The bus the driver owns.
    pub closed spec fn bus(&self) -> SPI {
        self.spi
    }

    /// The chip-select pin the driver owns.
    pub closed spec fn pin(&self) -> CS {
        self.cs
    }

    /// Create a new driver from a bus and a chip-select pin.
    pub fn new(spi: SPI, cs: CS) -> (r: Result<Self, SPI::BusError>)
        ensures
            r matches Ok(d) && d.history() == Seq::<(u16, u16)>::empty() && d.cs_inactive()
                && d.bus() == spi && d.pin() == cs,
    {
        Ok(Tle5012 { spi, cs, hist: Ghost(Seq::empty()), cs_low: Ghost(false) })
    }

    /// Give back the bus and the chip-select pin.
    pub fn release(self) -> (r: (SPI, CS))
        ensures
            r.0 == self.bus(),
            r.1 == self.pin(),
    {
        (self.spi, self.cs)
    }

    /// Compare the CRC-8 of `buf` against the chip-reported checksum.
    pub fn calc_crc(&mut self, buf: &[u8], crc_orig: u8) -> (r: Result<(), Error<SPI::BusError>>)
        ensures
            *final(self) == *old(self),
            r is Ok <==> crc8(buf@) == crc_orig,
            r matches Err(e) ==> e is Crc,
    {
        let crc = compute_crc(buf);
        if crc != crc_orig {
            Err(Error::Crc)
        } else {
            Ok(())
        }
    }

    /// Judge one transaction from its safety word, command word and data
    /// word: fault bits first, in priority order, then the checksum; the
    /// data word is returned unchanged only when everything passes.
    pub fn check_safety(&mut self, safety: u16, cmd: u16, data: u16) -> (r: Result<
        u16,
        Error<SPI::BusError>,
    >)
        ensures
            *final(self) == *old(self),
            r == validate_spec::<SPI::BusError>(safety, cmd, data),
    {
        if safety & SYSTEM_ERROR_MASK == 0 {
            Err(Error::System)
        } else if safety & INTERFACE_ERROR_MASK == 0 {
            Err(Error::InterfaceAccess)
        } else if safety & INV_ANGLE_ERROR_MASK == 0 {
            Err(Error::InvalidAngle)
        } else {
            let buffer: [u8; 4] = [hi_byte(cmd), lo_byte(cmd), hi_byte(data), lo_byte(data)];
            let crc = lo_byte(safety);
            proof {
                assert(buffer@ =~= seq![hi8(cmd), lo8(cmd), hi8(data), lo8(data)]);
            }
            match self.calc_crc(buffer.as_slice(), crc) {
                Err(e) => Err(e),
                Ok(_) => Ok(data),
            }
        }
    }

    /// Perform one read transaction: command beat, data beat, safety
    /// beat, all inside one chip-select window, then validate.
    fn read_register<T: Address>(&mut self, reg: T) -> (r: Result<u16, Error<SPI::BusError>>)
        ensures
            final(self).cs_inactive(),
            read_contract(old(self).history(), final(self).history(), reg.addr_spec(), r),
    {
        self.cs.set_low();
        self.cs_low = Ghost(true);
        let cmd = reg.addr();

        let r1 = match self.spi.transfer(cmd) {
            Ok(v) => v,
            Err(e) => {
                self.cs.set_high();
                self.cs_low = Ghost(false);
                proof {
                    assert(old(self).history().is_prefix_of(self.history()));
                }
                return Err(Error::Spi(e));
            },
        };
        self.hist = Ghost(self.hist@.push((cmd, r1)));
        let data = match self.spi.transfer(r1) {
            Ok(v) => v,
            Err(e) => {
                self.cs.set_high();
                self.cs_low = Ghost(false);
                proof {
                    lemma_push_prefix(old(self).history(), self.history(), (cmd, r1));
                }
                return Err(Error::Spi(e));
            },
        };
        self.hist = Ghost(self.hist@.push((r1, data)));
        let safety = match self.spi.transfer(data) {
            Ok(v) => v,
            Err(e) => {
                self.cs.set_high();
                self.cs_low = Ghost(false);
                proof {
                    let h0 = old(self).history();
                    let h1 = self.history();
                    assert(h1 == h0.push((cmd, r1)).push((r1, data)));
                    assert(h1.take(h0.len() as int) =~= h0);
                    assert(h1[h0.len() as int] == (cmd, r1));
                }
                return Err(Error::Spi(e));
            },
        };
        self.hist = Ghost(self.hist@.push((data, safety)));
        self.cs.set_high();
        self.cs_low = Ghost(false);

        let res = self.check_safety(safety, cmd, data);
        proof {
            let h0 = old(self).history();
            let h1 = self.history();
            assert(h1 == h0.push((cmd, r1)).push((r1, data)).push((data, safety)));
            assert(h1.take(h0.len() as int) =~= h0);
            assert(h1[h0.len() as int] == (cmd, r1));
            assert(h1[h0.len() as int + 1] == (r1, data));
            assert(h1[h0.len() as int + 2] == (data, safety));
        }
        res
    }

    /// Perform one write transaction: command beat, payload beat, safety
    /// beat, all inside one chip-select window, then validate.
    fn write_register<T: Address>(&mut self, reg: T, data: u16) -> (r: Result<
        bool,
        Error<SPI::BusError>,
    >)
        ensures
            final(self).cs_inactive(),
            write_contract(old(self).history(), final(self).history(), reg.addr_spec(), data, r),
    {
        self.cs.set_low();
        self.cs_low = Ghost(true);
        let cmd = reg.addr();

        let r1 = match self.spi.transfer(cmd) {
            Ok(v) => v,
            Err(e) => {
                self.cs.set_high();
                self.cs_low = Ghost(false);
                proof {
                    assert(old(self).history().is_prefix_of(self.history()));
                }
                return Err(Error::Spi(e));
            },
        };
        self.hist = Ghost(self.hist@.push((cmd, r1)));
        let r2 = match self.spi.transfer(data) {
            Ok(v) => v,
            Err(e) => {
                self.cs.set_high();
                self.cs_low = Ghost(false);
                proof {
                    lemma_push_prefix(old(self).history(), self.history(), (cmd, r1));
                }
                return Err(Error::Spi(e));
            },
        };
        self.hist = Ghost(self.hist@.push((data, r2)));
        let safety = match self.spi.transfer(r2) {
            Ok(v) => v,
            Err(e) => {
                self.cs.set_high();
                self.cs_low = Ghost(false);
                proof {
                    let h0 = old(self).history();
                    let h1 = self.history();
                    assert(h1 == h0.push((cmd, r1)).push((data, r2)));
                    assert(h1.take(h0.len() as int) =~= h0);
                    assert(h1[h0.len() as int] == (cmd, r1));
                }
                return Err(Error::Spi(e));
            },
        };
        self.hist = Ghost(self.hist@.push((r2, safety)));
        self.cs.set_high();
        self.cs_low = Ghost(false);

        let res = match self.check_safety(safety, cmd, data) {
            Ok(_) => Ok(true),
            Err(e) => Err(e),
        };
        proof {
            let h0 = old(self).history();
            let h1 = self.history();
            assert(h1 == h0.push((cmd, r1)).push((data, r2)).push((r2, safety)));
            assert(h1.take(h0.len() as int) =~= h0);
            assert(h1[h0.len() as int] == (cmd, r1));
            assert(h1[h0.len() as int + 1] == (data, r2));
            assert(h1[h0.len() as int + 2] == (r2, safety));
        }
        res
    }
}

/// Named register operations, one per symbol of the register map.
impl<SPI, CS> Tle5012<SPI, CS> where SPI: SpiBus, CS: ChipSelect {
    /// Status of the module.
    pub fn read_status(&mut self) -> (r: Result<u16, Error<SPI::BusError>>)
        ensures
            final(self).cs_inactive(),
            read_contract(old(self).history(), final(self).history(), 0x8001, r),
    {
        self.read_register(ReadCmd::STA_CMD)
    }

    /// Status of the module, after re-latching a coherent snapshot.
    pub fn read_upd_status(&mut self) -> (r: Result<u16, Error<SPI::BusError>>)
        ensures
            final(self).cs_inactive(),
            read_contract(old(self).history(), final(self).history(), 0x8401, r),
    {
        self.read_register(ReadUpdCmd::STA_CMD)
    }

    /// Activation status of the module.
    pub fn read_activation_status(&mut self) -> (r: Result<u16, Error<SPI::BusError>>)
        ensures
            final(self).cs_inactive(),
            read_contract(old(self).history(), final(self).history(), 0x8011, r),
    {
        self.read_register(ReadCmd::ACTIV_STA_CMD)
    }

    /// First interrupt-mode register.
    pub fn read_int_mode_1(&mut self) -> (r: Result<u16, Error<SPI::BusError>>)
        ensures
            final(self).cs_inactive(),
            read_contract(old(self).history(), final(self).history(), 0x8061, r),
    {
        self.read_register(ReadCmd::INTMODE_1)
    }

    /// SIL register.
    pub fn read_sil(&mut self) -> (r: Result<u16, Error<SPI::BusError>>)
        ensures
            final(self).cs_inactive(),
            read_contract(old(self).history(), final(self).history(), 0x8071, r),
    {
        self.read_register(ReadCmd::SIL)
    }

    /// Second interrupt-mode register.
    pub fn read_int_mode_2(&mut self) -> (r: Result<u16, Error<SPI::BusError>>)
        ensures
            final(self).cs_inactive(),
            read_contract(old(self).history(), final(self).history(), 0x8081, r),
    {
        self.read_register(ReadCmd::INTMODE_2)
    }

    /// Third interrupt-mode register.
    pub fn read_int_mode_3(&mut self) -> (r: Result<u16, Error<SPI::BusError>>)
        ensures
            final(self).cs_inactive(),
            read_contract(old(self).history(), final(self).history(), 0x8091, r),
    {
        self.read_register(ReadCmd::INTMODE_3)
    }

    /// X offset register.
    pub fn read_offset_x(&mut self) -> (r: Result<u16, Error<SPI::BusError>>)
        ensures
            final(self).cs_inactive(),
            read_contract(old(self).history(), final(self).history(), 0x80A1, r),
    {
        self.read_register(ReadCmd::OFFSET_X)
    }

    /// Y offset register.
    pub fn read_offset_y(&mut self) -> (r: Result<u16, Error<SPI::BusError>>)
        ensures
            final(self).cs_inactive(),
            read_contract(old(self).history(), final(self).history(), 0x80B1, r),
    {
        self.read_register(ReadCmd::OFFSET_Y)
    }

    /// Synchronicity register.
    pub fn read_synch(&mut self) -> (r: Result<u16, Error<SPI::BusError>>)
        ensures
            final(self).cs_inactive(),
            read_contract(old(self).history(), final(self).history(), 0x80C1, r),
    {
        self.read_register(ReadCmd::SYNCH)
    }

    /// IFAB register.
    pub fn read_ifab(&mut self) -> (r: Result<u16, Error<SPI::BusError>>)
        ensures
            final(self).cs_inactive(),
            read_contract(old(self).history(), final(self).history(), 0x80D1, r),
    {
        self.read_register(ReadCmd::IFAB)
    }

    /// Fourth interrupt-mode register.
    pub fn read_int_mode_4(&mut self) -> (r: Result<u16, Error<SPI::BusError>>)
        ensures
            final(self).cs_inactive(),
            read_contract(old(self).history(), final(self).history(), 0x80E1, r),
    {
        self.read_register(ReadCmd::INTMODE_4)
    }

    /// Temperature-coefficient register.
    pub fn read_temp_coeff(&mut self) -> (r: Result<u16, Error<SPI::BusError>>)
        ensures
            final(self).cs_inactive(),
            read_contract(old(self).history(), final(self).history(), 0x80F1, r),
    {
        self.read_register(ReadCmd::TEMP_COEFF)
    }

    /// Angle value; the sensor returns a 15-bit signed field.
    pub fn read_angle_value(&mut self) -> (r: Result<i16, Error<SPI::BusError>>)
        ensures
            final(self).cs_inactive(),
            read_contract_i15(old(self).history(), final(self).history(), 0x8021, r),
    {
        let tmp = match self.read_register(ReadCmd::ANGLE_VAL_CMD) {
            Ok(v) => v,
            Err(e) => return Err(e),
        };
        Ok(from_i15_to_i16(tmp))
    }

    /// Angle value after re-latching a coherent snapshot; a 15-bit signed field.
    pub fn read_update_angle_value(&mut self) -> (r: Result<i16, Error<SPI::BusError>>)
        ensures
            final(self).cs_inactive(),
            read_contract_i15(old(self).history(), final(self).history(), 0x8421, r),
    {
        let tmp = match self.read_register(ReadUpdCmd::ANGLE_VAL_CMD) {
            Ok(v) => v,
            Err(e) => return Err(e),
        };
        Ok(from_i15_to_i16(tmp))
    }

    /// Angle speed; the sensor returns a 15-bit signed field.
    pub fn read_angle_speed(&mut self) -> (r: Result<i16, Error<SPI::BusError>>)
        ensures
            final(self).cs_inactive(),
            read_contract_i15(old(self).history(), final(self).history(), 0x8031, r),
    {
        let tmp = match self.read_register(ReadCmd::ANGLE_SPD_CMD) {
            Ok(v) => v,
            Err(e) => return Err(e),
        };
        Ok(from_i15_to_i16(tmp))
    }

    /// Angle speed after re-latching a coherent snapshot; a 15-bit signed field.
    pub fn read_update_angle_speed(&mut self) -> (r: Result<i16, Error<SPI::BusError>>)
        ensures
            final(self).cs_inactive(),
            read_contract_i15(old(self).history(), final(self).history(), 0x8431, r),
    {
        let tmp = match self.read_register(ReadUpdCmd::ANGLE_SPD_CMD) {
            Ok(v) => v,
            Err(e) => return Err(e),
        };
        Ok(from_i15_to_i16(tmp))
    }

    /// Angle revolution count; the sensor returns a 9-bit signed field.
    pub fn read_angle_revolution(&mut self) -> (r: Result<i16, Error<SPI::BusError>>)
        ensures
            final(self).cs_inactive(),
            read_contract_i9(old(self).history(), final(self).history(), 0x8041, r),
    {
        let tmp = match self.read_register(ReadCmd::ANGLE_REV_CMD) {
            Ok(v) => v,
            Err(e) => return Err(e),
        };
        Ok(from_i9_to_i16(tmp))
    }

    /// Angle revolution count after re-latching a coherent snapshot; a 9-bit signed field.
    pub fn read_update_angle_revolution(&mut self) -> (r: Result<i16, Error<SPI::BusError>>)
        ensures
            final(self).cs_inactive(),
            read_contract_i9(old(self).history(), final(self).history(), 0x8441, r),
    {
        let tmp = match self.read_register(ReadUpdCmd::ANGLE_REV_CMD) {
            Ok(v) => v,
            Err(e) => return Err(e),
        };
        Ok(from_i9_to_i16(tmp))
    }

    /// Temperature value; the sensor returns a 9-bit signed field.
    pub fn read_temp(&mut self) -> (r: Result<i16, Error<SPI::BusError>>)
        ensures
            final(self).cs_inactive(),
            read_contract_i9(old(self).history(), final(self).history(), 0x8051, r),
    {
        let tmp = match self.read_register(ReadCmd::TEMP_CMD) {
            Ok(v) => v,
            Err(e) => return Err(e),
        };
        Ok(from_i9_to_i16(tmp))
    }

    /// Raw X value.
    pub fn read_raw_x(&mut self) -> (r: Result<i16, Error<SPI::BusError>>)
        ensures
            final(self).cs_inactive(),
            read_contract_raw(old(self).history(), final(self).history(), 0x8101, r),
    {
        let tmp = match self.read_register(ReadCmd::RAW_X_CMD) {
            Ok(v) => v,
            Err(e) => return Err(e),
        };
        Ok(tmp as i16)
    }

    /// Raw Y value.
    pub fn read_raw_y(&mut self) -> (r: Result<i16, Error<SPI::BusError>>)
        ensures
            final(self).cs_inactive(),
            read_contract_raw(old(self).history(), final(self).history(), 0x8111, r),
    {
        let tmp = match self.read_register(ReadCmd::RAW_Y_CMD) {
            Ok(v) => v,
            Err(e) => return Err(e),
        };
        Ok(tmp as i16)
    }

    /// Set the activation status.
    pub fn write_activation_status(&mut self, data: u16) -> (r: Result<bool, Error<SPI::BusError>>)
        ensures
            final(self).cs_inactive(),
            write_contract(old(self).history(), final(self).history(), 0x0011, data, r),
    {
        self.write_register(WriteCmd::ACTIV_STA, data)
    }

    /// Set the first interrupt-mode register.
    pub fn write_int_mode_1(&mut self, data: u16) -> (r: Result<bool, Error<SPI::BusError>>)
        ensures
            final(self).cs_inactive(),
            write_contract(old(self).history(), final(self).history(), 0x5061, data, r),
    {
        self.write_register(WriteCmd::INTMODE_1, data)
    }

    /// Set the SIL register.
    pub fn write_sil(&mut self, data: u16) -> (r: Result<bool, Error<SPI::BusError>>)
        ensures
            final(self).cs_inactive(),
            write_contract(old(self).history(), final(self).history(), 0x5071, data, r),
    {
        self.write_register(WriteCmd::SIL, data)
    }

    /// Set the second interrupt-mode register.
    pub fn write_int_mode_2(&mut self, data: u16) -> (r: Result<bool, Error<SPI::BusError>>)
        ensures
            final(self).cs_inactive(),
            write_contract(old(self).history(), final(self).history(), 0x5081, data, r),
    {
        self.write_register(WriteCmd::INTMODE_2, data)
    }

    /// Set the third interrupt-mode register.
    pub fn write_int_mode_3(&mut self, data: u16) -> (r: Result<bool, Error<SPI::BusError>>)
        ensures
            final(self).cs_inactive(),
            write_contract(old(self).history(), final(self).history(), 0x5091, data, r),
    {
        self.write_register(WriteCmd::INTMODE_3, data)
    }

    /// Set the X offset register.
    pub fn write_offset_x(&mut self, data: u16) -> (r: Result<bool, Error<SPI::BusError>>)
        ensures
            final(self).cs_inactive(),
            write_contract(old(self).history(), final(self).history(), 0x50A1, data, r),
    {
        self.write_register(WriteCmd::OFFSET_X, data)
    }

    /// Set the Y offset register.
    pub fn write_offset_y(&mut self, data: u16) -> (r: Result<bool, Error<SPI::BusError>>)
        ensures
            final(self).cs_inactive(),
            write_contract(old(self).history(), final(self).history(), 0x50B1, data, r),
    {
        self.write_register(WriteCmd::OFFSET_Y, data)
    }

    /// Set the synchronicity register.
    pub fn write_synch(&mut self, data: u16) -> (r: Result<bool, Error<SPI::BusError>>)
        ensures
            final(self).cs_inactive(),
            write_contract(old(self).history(), final(self).history(), 0x50C1, data, r),
    {
        self.write_register(WriteCmd::SYNCH, data)
    }

    /// Set the IFAB register.
    pub fn write_ifab(&mut self, data: u16) -> (r: Result<bool, Error<SPI::BusError>>)
        ensures
            final(self).cs_inactive(),
            write_contract(old(self).history(), final(self).history(), 0x50D1, data, r),
    {
        self.write_register(WriteCmd::IFAB, data)
    }

    /// Set the fourth interrupt-mode register.
    pub fn write_int_mode_4(&mut self, data: u16) -> (r: Result<bool, Error<SPI::BusError>>)
        ensures
            final(self).cs_inactive(),
            write_contract(old(self).history(), final(self).history(), 0x50E1, data, r),
    {
        self.write_register(WriteCmd::INTMODE_4, data)
    }

    /// Set the temperature-coefficient register.
    pub fn write_temp_coeff(&mut self, data: u16) -> (r: Result<bool, Error<SPI::BusError>>)
        ensures
            final(self).cs_inactive(),
            write_contract(old(self).history(), final(self).history(), 0x50F1, data, r),
    {
        self.write_register(WriteCmd::TEMP_COEFF, data)
    }

}

/// A history extended by one exchange still has the old history as a prefix.
proof fn lemma_push_prefix(h0: Seq<(u16, u16)>, h1: Seq<(u16, u16)>, f: (u16, u16))
    requires
        h1 == h0.push(f),
    ensures
        h0.is_prefix_of(h1),
        h1[h0.len() as int] == f,
{
    assert(h1.take(h0.len() as int) =~= h0);
}

} // verus!
