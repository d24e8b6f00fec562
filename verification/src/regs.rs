//! Register map of the sensor.
//!
//! Three disjoint command namespaces exist: plain reads, reads that
//! re-latch a coherent snapshot before returning ("read with update"),
//! and writes.  The chip latches values differently per namespace, so the
//! three symbol sets are kept apart; each symbol encodes to a fixed
//! 16-bit bus address, and each address decodes back to its symbol.

use vstd::prelude::*;

verus! {

/// A command symbol that encodes to a 16-bit bus address.
pub trait Address: Sized {
    /// The address the symbol encodes to.
    spec fn addr_spec(self) -> u16;

    /// Encode the symbol to its bus address.
    fn addr(self) -> (r: u16)
        ensures
            r == self.addr_spec(),
    ;
}

/// Plain read commands.
#[allow(non_camel_case_types)]
#[derive(Clone, Copy, Debug, PartialEq, Eq, Structural)]
pub enum ReadCmd {
    STA_CMD_NOSAFETY,
    STA_CMD,
    ACTIV_STA_CMD,
    ANGLE_VAL_CMD,
    ANGLE_SPD_CMD,
    ANGLE_REV_CMD,
    TEMP_CMD,
    INTMODE_1,
    SIL,
    INTMODE_2,
    INTMODE_3,
    OFFSET_X,
    OFFSET_Y,
    SYNCH,
    IFAB,
    INTMODE_4,
    TEMP_COEFF,
    RAW_X_CMD,
    RAW_Y_CMD,
}

/// Read commands that re-latch a coherent snapshot before returning.
#[allow(non_camel_case_types)]
#[derive(Clone, Copy, Debug, PartialEq, Eq, Structural)]
pub enum ReadUpdCmd {
    STA_CMD,
    ANGLE_VAL_CMD,
    ANGLE_SPD_CMD,
    ANGLE_REV_CMD,
}

/// Write commands.
#[allow(non_camel_case_types)]
#[derive(Clone, Copy, Debug, PartialEq, Eq, Structural)]
pub enum WriteCmd {
    ACTIV_STA,
    INTMODE_1,
    SIL,
    INTMODE_2,
    INTMODE_3,
    OFFSET_X,
    OFFSET_Y,
    SYNCH,
    IFAB,
    INTMODE_4,
    TEMP_COEFF,
}

impl ReadCmd {
    /// The bus address of this plain-read command.
    pub open spec fn addr_of(self) -> u16 {
        match self {
            ReadCmd::STA_CMD_NOSAFETY => 0x8000,
            ReadCmd::STA_CMD => 0x8001,
            ReadCmd::ACTIV_STA_CMD => 0x8011,
            ReadCmd::ANGLE_VAL_CMD => 0x8021,
            ReadCmd::ANGLE_SPD_CMD => 0x8031,
            ReadCmd::ANGLE_REV_CMD => 0x8041,
            ReadCmd::TEMP_CMD => 0x8051,
            ReadCmd::INTMODE_1 => 0x8061,
            ReadCmd::SIL => 0x8071,
            ReadCmd::INTMODE_2 => 0x8081,
            ReadCmd::INTMODE_3 => 0x8091,
            ReadCmd::OFFSET_X => 0x80A1,
            ReadCmd::OFFSET_Y => 0x80B1,
            ReadCmd::SYNCH => 0x80C1,
            ReadCmd::IFAB => 0x80D1,
            ReadCmd::INTMODE_4 => 0x80E1,
            ReadCmd::TEMP_COEFF => 0x80F1,
            ReadCmd::RAW_X_CMD => 0x8101,
            ReadCmd::RAW_Y_CMD => 0x8111,
        }
    }

    /// The plain-read command at a bus address, if the address names one.
    pub open spec fn decode_spec(a: u16) -> Option<ReadCmd> {
        if a == 0x8000 {
            Some(ReadCmd::STA_CMD_NOSAFETY)
        } else if a == 0x8001 {
            Some(ReadCmd::STA_CMD)
        } else if a == 0x8011 {
            Some(ReadCmd::ACTIV_STA_CMD)
        } else if a == 0x8021 {
            Some(ReadCmd::ANGLE_VAL_CMD)
        } else if a == 0x8031 {
            Some(ReadCmd::ANGLE_SPD_CMD)
        } else if a == 0x8041 {
            Some(ReadCmd::ANGLE_REV_CMD)
        } else if a == 0x8051 {
            Some(ReadCmd::TEMP_CMD)
        } else if a == 0x8061 {
            Some(ReadCmd::INTMODE_1)
        } else if a == 0x8071 {
            Some(ReadCmd::SIL)
        } else if a == 0x8081 {
            Some(ReadCmd::INTMODE_2)
        } else if a == 0x8091 {
            Some(ReadCmd::INTMODE_3)
        } else if a == 0x80A1 {
            Some(ReadCmd::OFFSET_X)
        } else if a == 0x80B1 {
            Some(ReadCmd::OFFSET_Y)
        } else if a == 0x80C1 {
            Some(ReadCmd::SYNCH)
        } else if a == 0x80D1 {
            Some(ReadCmd::IFAB)
        } else if a == 0x80E1 {
            Some(ReadCmd::INTMODE_4)
        } else if a == 0x80F1 {
            Some(ReadCmd::TEMP_COEFF)
        } else if a == 0x8101 {
            Some(ReadCmd::RAW_X_CMD)
        } else if a == 0x8111 {
            Some(ReadCmd::RAW_Y_CMD)
        } else {
            None
        }
    }

    /// Decode a bus address back to its plain-read command.
    pub fn decode(a: u16) -> (r: Option<ReadCmd>)
        ensures
            r == ReadCmd::decode_spec(a),
    {
        match a {
            0x8000 => Some(ReadCmd::STA_CMD_NOSAFETY),
            0x8001 => Some(ReadCmd::STA_CMD),
            0x8011 => Some(ReadCmd::ACTIV_STA_CMD),
            0x8021 => Some(ReadCmd::ANGLE_VAL_CMD),
            0x8031 => Some(ReadCmd::ANGLE_SPD_CMD),
            0x8041 => Some(ReadCmd::ANGLE_REV_CMD),
            0x8051 => Some(ReadCmd::TEMP_CMD),
            0x8061 => Some(ReadCmd::INTMODE_1),
            0x8071 => Some(ReadCmd::SIL),
            0x8081 => Some(ReadCmd::INTMODE_2),
            0x8091 => Some(ReadCmd::INTMODE_3),
            0x80A1 => Some(ReadCmd::OFFSET_X),
            0x80B1 => Some(ReadCmd::OFFSET_Y),
            0x80C1 => Some(ReadCmd::SYNCH),
            0x80D1 => Some(ReadCmd::IFAB),
            0x80E1 => Some(ReadCmd::INTMODE_4),
            0x80F1 => Some(ReadCmd::TEMP_COEFF),
            0x8101 => Some(ReadCmd::RAW_X_CMD),
            0x8111 => Some(ReadCmd::RAW_Y_CMD),
            _ => None,
        }
    }
}

impl Address for ReadCmd {
    open spec fn addr_spec(self) -> u16 {
        self.addr_of()
    }

    fn addr(self) -> (r: u16) {
        match self {
            ReadCmd::STA_CMD_NOSAFETY => 0x8000,
            ReadCmd::STA_CMD => 0x8001,
            ReadCmd::ACTIV_STA_CMD => 0x8011,
            ReadCmd::ANGLE_VAL_CMD => 0x8021,
            ReadCmd::ANGLE_SPD_CMD => 0x8031,
            ReadCmd::ANGLE_REV_CMD => 0x8041,
            ReadCmd::TEMP_CMD => 0x8051,
            ReadCmd::INTMODE_1 => 0x8061,
            ReadCmd::SIL => 0x8071,
            ReadCmd::INTMODE_2 => 0x8081,
            ReadCmd::INTMODE_3 => 0x8091,
            ReadCmd::OFFSET_X => 0x80A1,
            ReadCmd::OFFSET_Y => 0x80B1,
            ReadCmd::SYNCH => 0x80C1,
            ReadCmd::IFAB => 0x80D1,
            ReadCmd::INTMODE_4 => 0x80E1,
            ReadCmd::TEMP_COEFF => 0x80F1,
            ReadCmd::RAW_X_CMD => 0x8101,
            ReadCmd::RAW_Y_CMD => 0x8111,
        }
    }
}

impl ReadUpdCmd {
    /// The bus address of this read-with-update command.
    pub open spec fn addr_of(self) -> u16 {
        match self {
            ReadUpdCmd::STA_CMD => 0x8401,
            ReadUpdCmd::ANGLE_VAL_CMD => 0x8421,
            ReadUpdCmd::ANGLE_SPD_CMD => 0x8431,
            ReadUpdCmd::ANGLE_REV_CMD => 0x8441,
        }
    }

    /// The read-with-update command at a bus address, if the address names one.
    pub open spec fn decode_spec(a: u16) -> Option<ReadUpdCmd> {
        if a == 0x8401 {
            Some(ReadUpdCmd::STA_CMD)
        } else if a == 0x8421 {
            Some(ReadUpdCmd::ANGLE_VAL_CMD)
        } else if a == 0x8431 {
            Some(ReadUpdCmd::ANGLE_SPD_CMD)
        } else if a == 0x8441 {
            Some(ReadUpdCmd::ANGLE_REV_CMD)
        } else {
            None
        }
    }

    /// Decode a bus address back to its read-with-update command.
    pub fn decode(a: u16) -> (r: Option<ReadUpdCmd>)
        ensures
            r == ReadUpdCmd::decode_spec(a),
    {
        match a {
            0x8401 => Some(ReadUpdCmd::STA_CMD),
            0x8421 => Some(ReadUpdCmd::ANGLE_VAL_CMD),
            0x8431 => Some(ReadUpdCmd::ANGLE_SPD_CMD),
            0x8441 => Some(ReadUpdCmd::ANGLE_REV_CMD),
            _ => None,
        }
    }
}

impl Address for ReadUpdCmd {
    open spec fn addr_spec(self) -> u16 {
        self.addr_of()
    }

    fn addr(self) -> (r: u16) {
        match self {
            ReadUpdCmd::STA_CMD => 0x8401,
            ReadUpdCmd::ANGLE_VAL_CMD => 0x8421,
            ReadUpdCmd::ANGLE_SPD_CMD => 0x8431,
            ReadUpdCmd::ANGLE_REV_CMD => 0x8441,
        }
    }
}

impl WriteCmd {
    /// The bus address of this write command.
    pub open spec fn addr_of(self) -> u16 {
        match self {
            WriteCmd::ACTIV_STA => 0x0011,
            WriteCmd::INTMODE_1 => 0x5061,
            WriteCmd::SIL => 0x5071,
            WriteCmd::INTMODE_2 => 0x5081,
            WriteCmd::INTMODE_3 => 0x5091,
            WriteCmd::OFFSET_X => 0x50A1,
            WriteCmd::OFFSET_Y => 0x50B1,
            WriteCmd::SYNCH => 0x50C1,
            WriteCmd::IFAB => 0x50D1,
            WriteCmd::INTMODE_4 => 0x50E1,
            WriteCmd::TEMP_COEFF => 0x50F1,
        }
    }

    /// The write command at a bus address, if the address names one.
    pub open spec fn decode_spec(a: u16) -> Option<WriteCmd> {
        if a == 0x0011 {
            Some(WriteCmd::ACTIV_STA)
        } else if a == 0x5061 {
            Some(WriteCmd::INTMODE_1)
        } else if a == 0x5071 {
            Some(WriteCmd::SIL)
        } else if a == 0x5081 {
            Some(WriteCmd::INTMODE_2)
        } else if a == 0x5091 {
            Some(WriteCmd::INTMODE_3)
        } else if a == 0x50A1 {
            Some(WriteCmd::OFFSET_X)
        } else if a == 0x50B1 {
            Some(WriteCmd::OFFSET_Y)
        } else if a == 0x50C1 {
            Some(WriteCmd::SYNCH)
        } else if a == 0x50D1 {
            Some(WriteCmd::IFAB)
        } else if a == 0x50E1 {
            Some(WriteCmd::INTMODE_4)
        } else if a == 0x50F1 {
            Some(WriteCmd::TEMP_COEFF)
        } else {
            None
        }
    }

    /// Decode a bus address back to its write command.
    pub fn decode(a: u16) -> (r: Option<WriteCmd>)
        ensures
            r == WriteCmd::decode_spec(a),
    {
        match a {
            0x0011 => Some(WriteCmd::ACTIV_STA),
            0x5061 => Some(WriteCmd::INTMODE_1),
            0x5071 => Some(WriteCmd::SIL),
            0x5081 => Some(WriteCmd::INTMODE_2),
            0x5091 => Some(WriteCmd::INTMODE_3),
            0x50A1 => Some(WriteCmd::OFFSET_X),
            0x50B1 => Some(WriteCmd::OFFSET_Y),
            0x50C1 => Some(WriteCmd::SYNCH),
            0x50D1 => Some(WriteCmd::IFAB),
            0x50E1 => Some(WriteCmd::INTMODE_4),
            0x50F1 => Some(WriteCmd::TEMP_COEFF),
            _ => None,
        }
    }
}

impl Address for WriteCmd {
    open spec fn addr_spec(self) -> u16 {
        self.addr_of()
    }

    fn addr(self) -> (r: u16) {
        match self {
            WriteCmd::ACTIV_STA => 0x0011,
            WriteCmd::INTMODE_1 => 0x5061,
            WriteCmd::SIL => 0x5071,
            WriteCmd::INTMODE_2 => 0x5081,
            WriteCmd::INTMODE_3 => 0x5091,
            WriteCmd::OFFSET_X => 0x50A1,
            WriteCmd::OFFSET_Y => 0x50B1,
            WriteCmd::SYNCH => 0x50C1,
            WriteCmd::IFAB => 0x50D1,
            WriteCmd::INTMODE_4 => 0x50E1,
            WriteCmd::TEMP_COEFF => 0x50F1,
        }
    }
}

/// Encoding a plain-read command and decoding the address yields the
/// command again: the plain-read map is injective.
pub proof fn lemma_read_cmd_roundtrip(c: ReadCmd)
    ensures
        ReadCmd::decode_spec(c.addr_of()) == Some(c),
{
}

/// Encoding a read-with-update command and decoding the address yields
/// the command again: the read-with-update map is injective.
pub proof fn lemma_read_upd_cmd_roundtrip(c: ReadUpdCmd)
    ensures
        ReadUpdCmd::decode_spec(c.addr_of()) == Some(c),
{
}

/// Encoding a write command and decoding the address yields the command
/// again: the write map is injective.
pub proof fn lemma_write_cmd_roundtrip(c: WriteCmd)
    ensures
        WriteCmd::decode_spec(c.addr_of()) == Some(c),
{
}

/// Two plain-read commands with the same address are the same command:
/// the plain-read map is injective.
pub proof fn lemma_read_cmd_injective(a: ReadCmd, b: ReadCmd)
    requires
        a.addr_of() == b.addr_of(),
    ensures
        a == b,
{
    lemma_read_cmd_roundtrip(a);
    lemma_read_cmd_roundtrip(b);
}

/// Two read-with-update commands with the same address are the same
/// command: the read-with-update map is injective.
pub proof fn lemma_read_upd_cmd_injective(a: ReadUpdCmd, b: ReadUpdCmd)
    requires
        a.addr_of() == b.addr_of(),
    ensures
        a == b,
{
    lemma_read_upd_cmd_roundtrip(a);
    lemma_read_upd_cmd_roundtrip(b);
}

/// Two write commands with the same address are the same command: the
/// write map is injective.
pub proof fn lemma_write_cmd_injective(a: WriteCmd, b: WriteCmd)
    requires
        a.addr_of() == b.addr_of(),
    ensures
        a == b,
{
    lemma_write_cmd_roundtrip(a);
    lemma_write_cmd_roundtrip(b);
}

/// The three command namespaces are disjoint: no address names a command
/// in more than one of them.
pub proof fn lemma_namespaces_disjoint(r: ReadCmd, u: ReadUpdCmd, w: WriteCmd)
    ensures
        r.addr_of() != u.addr_of(),
        r.addr_of() != w.addr_of(),
        u.addr_of() != w.addr_of(),
{
}

} // verus!
