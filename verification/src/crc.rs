//! CRC-8 checksum engine.
//!
//! The chip protects every transaction with an 8-bit CRC over the command
//! and data bytes: polynomial `0x1d`, initial register `0xff`, MSB-first
//! bit processing, and a complemented final register.  The checksum is a
//! pure function of the byte sequence, defined here by [`crc8`] and
//! computed by [`compute_crc`].

use vstd::prelude::*;

verus! {

/// One MSB-first shift of the CRC register: shift left, then fold in the
/// polynomial when the bit shifted out was set.
pub open spec fn crc_bit(c: u8) -> u8 {
    if c & 0x80 != 0 {
        (c << 1) ^ 0x1d
    } else {
        c << 1
    }
}

/// `n` applications of [`crc_bit`] to `c`.
pub open spec fn crc_shift(c: u8, n: nat) -> u8
    decreases n,
{
    if n == 0 {
        c
    } else {
        crc_bit(crc_shift(c, (n - 1) as nat))
    }
}

/// Feed one input byte into the CRC register: XOR it in, then shift
/// eight times.
pub open spec fn crc_byte(c: u8, b: u8) -> u8 {
    crc_shift(c ^ b, 8)
}

/// The CRC register after feeding every byte of `s`, starting from the
/// seed `0xff`.
pub open spec fn crc_register(s: Seq<u8>) -> u8
    decreases s.len(),
{
    if s.len() == 0 {
        0xff
    } else {
        crc_byte(crc_register(s.drop_last()), s.last())
    }
}

/// The CRC-8 checksum of `s`: the complemented final register.
pub open spec fn crc8(s: Seq<u8>) -> u8 {
    !crc_register(s)
}

/// Compute the CRC-8 checksum of `buf`.
pub fn compute_crc(buf: &[u8]) -> (r: u8)
    ensures
        r == crc8(buf@),
{
    let mut crc: u8 = 0xff;
    let mut i: usize = 0;
    while i < buf.len()
        invariant
            i <= buf.len(),
            crc == crc_register(buf@.take(i as int)),
        decreases buf.len() - i,
    {
        let b = buf[i];
        crc = crc ^ b;
        let ghost c0 = crc;
        let mut j: usize = 0;
        while j < 8
            invariant
                j <= 8,
                i < buf.len(),
                b == buf@[i as int],
                c0 == crc_register(buf@.take(i as int)) ^ b,
                crc == crc_shift(c0, j as nat),
            decreases 8 - j,
        {
            if crc & 0x80 != 0 {
                crc = crc << 1;
                crc = crc ^ 0x1d;
            } else {
                crc = crc << 1;
            }
            j = j + 1;
        }
        proof {
            assert(crc == crc_byte(crc_register(buf@.take(i as int)), b));
            assert(buf@.take(i as int + 1).drop_last() =~= buf@.take(i as int));
            assert(buf@.take(i as int + 1).last() == b);
        }
        i = i + 1;
    }
    proof {
        assert(buf@.take(buf.len() as int) =~= buf@);
    }
    !crc
}

/// Feeding different bytes into the same register gives different registers.
pub proof fn lemma_crc_byte_injective_byte(c: u8, x: u8, y: u8)
    requires
        crc_byte(c, x) == crc_byte(c, y),
    ensures
        x == y,
{
    assert(crc_byte(c, x) == crc_byte(c, y) ==> x == y) by (bit_vector);
}

/// Feeding the same byte into different registers gives different registers.
pub proof fn lemma_crc_byte_injective_acc(a: u8, b: u8, x: u8)
    requires
        crc_byte(a, x) == crc_byte(b, x),
    ensures
        a == b,
{
    assert(crc_byte(a, x) == crc_byte(b, x) ==> a == b) by (bit_vector);
}

/// Changing one byte of the input changes the final CRC register.
pub proof fn lemma_crc_register_update(s: Seq<u8>, i: int, b: u8)
    requires
        0 <= i < s.len(),
        b != s[i],
    ensures
        crc_register(s.update(i, b)) != crc_register(s),
    decreases s.len(),
{
    let t = s.update(i, b);
    assert(t.len() == s.len());
    if i == s.len() - 1 {
        assert(t.drop_last() =~= s.drop_last());
        assert(t.last() == b);
        assert(s.last() == s[i]);
        if crc_register(t) == crc_register(s) {
            lemma_crc_byte_injective_byte(crc_register(s.drop_last()), b, s[i]);
        }
    } else {
        assert(t.drop_last() =~= s.drop_last().update(i, b));
        assert(t.last() == s.last());
        lemma_crc_register_update(s.drop_last(), i, b);
        if crc_register(t) == crc_register(s) {
            lemma_crc_byte_injective_acc(
                crc_register(t.drop_last()),
                crc_register(s.drop_last()),
                s.last(),
            );
        }
    }
}

/// Changing any one byte of the input changes the checksum: the CRC-8
/// engine has no collisions between inputs of equal length that differ
/// in a single byte.
pub proof fn lemma_crc8_byte_sensitive(s: Seq<u8>, i: int, b: u8)
    requires
        0 <= i < s.len(),
        b != s[i],
    ensures
        crc8(s.update(i, b)) != crc8(s),
{
    lemma_crc_register_update(s, i, b);
    let x = crc_register(s.update(i, b));
    let y = crc_register(s);
    assert(x != y ==> !x != !y) by (bit_vector);
}

} // verus!
