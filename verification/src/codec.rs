//! Signed field decoding and big-endian byte access.
//!
//! The sensor embeds 15-bit and 9-bit two's-complement fields in the low
//! bits of an unsigned 16-bit word; the decoders here sign-extend them to
//! native `i16` values.  The byte helpers give the big-endian view of a
//! 16-bit word that the wire format and the checksum work over.

use vstd::prelude::*;

verus! {

/// High byte of a 16-bit word in its big-endian representation.
pub open spec fn hi8(w: u16) -> u8 {
    (w >> 8) as u8
}

/// Low byte of a 16-bit word in its big-endian representation.
pub open spec fn lo8(w: u16) -> u8 {
    (w & 0xff) as u8
}

/// The 15-bit two's-complement field in the low bits of `val`, as a signed value.
pub open spec fn decode_i15(val: u16) -> i16 {
    let t = val & 0x7fff;
    if t & 0x4000 != 0 {
        (t - 0x8000) as i16
    } else {
        t as i16
    }
}

/// The 9-bit two's-complement field in the low bits of `val`, as a signed value.
pub open spec fn decode_i9(val: u16) -> i16 {
    let t = val & 0x01ff;
    if t & 0x0100 != 0 {
        (t - 0x0200) as i16
    } else {
        t as i16
    }
}

/// High byte of `w`, big-endian.
pub fn hi_byte(w: u16) -> (r: u8)
    ensures
        r == hi8(w),
{
    (w >> 8) as u8
}

/// Low byte of `w`, big-endian.
pub fn lo_byte(w: u16) -> (r: u8)
    ensures
        r == lo8(w),
{
    (w & 0xff) as u8
}

/// Sign-extend the 15-bit field in the low bits of `val` to an `i16`.
///
/// Bits above the field are ignored; if bit 14 is set the field is
/// negative and `0x8000` is subtracted from the masked value.
pub fn from_i15_to_i16(val: u16) -> (r: i16)
    ensures
        r == decode_i15(val),
{
    let t = val & 0x7fff;
    if t & 0x4000 != 0 {
        proof {
            assert((val & 0x7fff) & 0x4000 != 0 ==> 0x4000 <= (val & 0x7fff) < 0x8000)
                by (bit_vector);
        }
        ((t as i32) - 0x8000) as i16
    } else {
        proof {
            assert(val & 0x7fff < 0x8000) by (bit_vector);
        }
        t as i16
    }
}

/// Sign-extend the 9-bit field in the low bits of `val` to an `i16`.
///
/// Bits above the field are ignored; if bit 8 is set the field is
/// negative and `0x0200` is subtracted from the masked value.
pub fn from_i9_to_i16(val: u16) -> (r: i16)
    ensures
        r == decode_i9(val),
{
    let t = val & 0x01ff;
    if t & 0x0100 != 0 {
        proof {
            assert((val & 0x01ff) & 0x0100 != 0 ==> 0x0100 <= (val & 0x01ff) < 0x0200)
                by (bit_vector);
        }
        ((t as i32) - 0x0200) as i16
    } else {
        proof {
            assert(val & 0x01ff < 0x0200) by (bit_vector);
        }
        t as i16
    }
}

} // verus!
