//! CRC16-CCITT in its X.25 form: polynomial 0x1021 reflected to 0x8408,
//! initial value 0xFFFF, final XOR 0xFFFF, little-endian on the wire.
//!
//! The specification folds the reflected polynomial into the running value one
//! bit at a time; the executable code follows it byte by byte.

use vstd::prelude::*;

verus! {

/// One shift-and-reduce step of the reflected polynomial 0x8408.
pub open spec fn spec_crc16_bit(crc: u16) -> u16 {
    if crc & 1 == 1 {
        (crc >> 1) ^ 0x8408
    } else {
        crc >> 1
    }
}

/// Eight bit steps in a row.
pub open spec fn spec_crc16_bits8(x: u16) -> u16 {
    spec_crc16_bit(spec_crc16_bit(spec_crc16_bit(spec_crc16_bit(
        spec_crc16_bit(spec_crc16_bit(spec_crc16_bit(spec_crc16_bit(x)))),
    ))))
}

/// Folding one byte into the running value: XOR into the low byte, then eight
/// bit steps.
pub open spec fn spec_crc16_byte(crc: u16, byte: u8) -> u16 {
    spec_crc16_bits8(crc ^ (byte as u16))
}

/// One step of the classic table-driven form of the same checksum: shift the
/// running value down a byte and XOR in the table entry picked by the low
/// byte of value and input — the entry for index `i` being the eight bit
/// steps of `i` itself.
pub open spec fn spec_crc16_table_step(crc: u16, byte: u8) -> u16 {
    (crc >> 8) ^ spec_crc16_bits8((crc ^ (byte as u16)) & 0xff)
}

/// The table-driven update over a whole sequence, front to back.
pub open spec fn spec_crc16_table_update(crc: u16, s: Seq<u8>) -> u16
    decreases s.len(),
{
    if s.len() == 0 {
        crc
    } else {
        spec_crc16_table_step(spec_crc16_table_update(crc, s.drop_last()), s.last())
    }
}

/// Folding a whole byte sequence into the running value, front to back.
pub open spec fn spec_crc16_update(crc: u16, s: Seq<u8>) -> u16
    decreases s.len(),
{
    if s.len() == 0 {
        crc
    } else {
        spec_crc16_byte(spec_crc16_update(crc, s.drop_last()), s.last())
    }
}

/// The checksum of a whole sequence: init, update, final XOR.
pub open spec fn spec_crc16(s: Seq<u8>) -> u16 {
    spec_crc16_update(0xffff, s) ^ 0xffff
}

/// The bit step distributes over XOR: the shift does, and the conditional
/// polynomial terms cancel exactly when both low bits are set.
proof fn lemma_crc16_bit_linear(x: u16, y: u16)
    ensures
        spec_crc16_bit(x ^ y) == spec_crc16_bit(x) ^ spec_crc16_bit(y),
{
    assert((x & 1 == 1 && y & 1 == 1 ==> (x ^ y) & 1 != 1 && (x ^ y) >> 1 == ((x >> 1) ^ 0x8408)
        ^ ((y >> 1) ^ 0x8408)) && (x & 1 == 1 && y & 1 != 1 ==> (x ^ y) & 1 == 1 && ((x ^ y) >> 1)
        ^ 0x8408 == ((x >> 1) ^ 0x8408) ^ (y >> 1)) && (x & 1 != 1 && y & 1 == 1 ==> (x ^ y) & 1
        == 1 && ((x ^ y) >> 1) ^ 0x8408 == (x >> 1) ^ ((y >> 1) ^ 0x8408)) && (x & 1 != 1 && y & 1
        != 1 ==> (x ^ y) & 1 != 1 && (x ^ y) >> 1 == (x >> 1) ^ (y >> 1))) by (bit_vector);
}

/// Eight bit steps distribute over XOR.
proof fn lemma_crc16_bits8_linear(x: u16, y: u16)
    ensures
        spec_crc16_bits8(x ^ y) == spec_crc16_bits8(x) ^ spec_crc16_bits8(y),
{
    let x1 = spec_crc16_bit(x);
    let y1 = spec_crc16_bit(y);
    let x2 = spec_crc16_bit(x1);
    let y2 = spec_crc16_bit(y1);
    let x3 = spec_crc16_bit(x2);
    let y3 = spec_crc16_bit(y2);
    let x4 = spec_crc16_bit(x3);
    let y4 = spec_crc16_bit(y3);
    let x5 = spec_crc16_bit(x4);
    let y5 = spec_crc16_bit(y4);
    let x6 = spec_crc16_bit(x5);
    let y6 = spec_crc16_bit(y5);
    let x7 = spec_crc16_bit(x6);
    let y7 = spec_crc16_bit(y6);
    lemma_crc16_bit_linear(x, y);
    lemma_crc16_bit_linear(x1, y1);
    lemma_crc16_bit_linear(x2, y2);
    lemma_crc16_bit_linear(x3, y3);
    lemma_crc16_bit_linear(x4, y4);
    lemma_crc16_bit_linear(x5, y5);
    lemma_crc16_bit_linear(x6, y6);
    lemma_crc16_bit_linear(x7, y7);
}

/// Eight bit steps on a value with a clear low byte reduce nothing: they
/// just move the high byte down.
proof fn lemma_crc16_bits8_high(x: u16)
    ensures
        spec_crc16_bits8(x & 0xff00) == x >> 8,
{
    assert(((x & 0xff00) & 1 != 1) && (((x & 0xff00) >> 1) & 1 != 1) && (((x & 0xff00) >> 1 >> 1)
        & 1 != 1) && (((x & 0xff00) >> 1 >> 1 >> 1) & 1 != 1) && (((x & 0xff00) >> 1 >> 1 >> 1
        >> 1) & 1 != 1) && (((x & 0xff00) >> 1 >> 1 >> 1 >> 1 >> 1) & 1 != 1) && (((x & 0xff00)
        >> 1 >> 1 >> 1 >> 1 >> 1 >> 1) & 1 != 1) && (((x & 0xff00) >> 1 >> 1 >> 1 >> 1 >> 1 >> 1
        >> 1) & 1 != 1) && ((x & 0xff00) >> 1 >> 1 >> 1 >> 1 >> 1 >> 1 >> 1 >> 1 == x >> 8)) by (
    bit_vector);
}

/// The byte fold equals the classic table step: shift the running value down
/// a byte and XOR in the table entry for the low byte of value and input.
/// This is the bridge between the bit-level definition and the reference
/// table form of CRC16/X.25.
pub proof fn lemma_crc16_byte_is_table_step(crc: u16, b: u8)
    ensures
        spec_crc16_byte(crc, b) == spec_crc16_table_step(crc, b),
{
    let x = (crc ^ (b as u16)) as u16;
    assert(x == (x & 0xff00) ^ (x & 0xff) && x >> 8 == crc >> 8) by (bit_vector)
        requires
            x == crc ^ (b as u16),
    ;
    lemma_crc16_bits8_linear(x & 0xff00, x & 0xff);
    lemma_crc16_bits8_high(x);
}

/// The whole update equals the table-driven update, byte for byte, on every
/// input: the bit-level checksum of this crate and the reference table
/// implementation are the same function.
pub proof fn lemma_crc16_update_is_table_update(crc: u16, s: Seq<u8>)
    ensures
        spec_crc16_update(crc, s) == spec_crc16_table_update(crc, s),
    decreases s.len(),
{
    if s.len() > 0 {
        lemma_crc16_update_is_table_update(crc, s.drop_last());
        lemma_crc16_byte_is_table_step(spec_crc16_update(crc, s.drop_last()), s.last());
    }
}

/// The running value is a fold: feeding `a + b` into an update is feeding
/// `a`, then `b`. With the final XOR this says the checksum of a whole
/// message equals init, update over its pieces in order, then final — the
/// update is a pure function of the running value and the bytes, with no
/// hidden state.
pub proof fn lemma_crc16_update_concat(crc: u16, a: Seq<u8>, b: Seq<u8>)
    ensures
        spec_crc16_update(crc, a + b) == spec_crc16_update(spec_crc16_update(crc, a), b),
    decreases b.len(),
{
    if b.len() == 0 {
        assert(a + b =~= a);
    } else {
        lemma_crc16_update_concat(crc, a, b.drop_last());
        assert((a + b).drop_last() =~= a + b.drop_last());
        assert((a + b).last() == b.last());
    }
}

fn crc16_bit(crc: u16) -> (r: u16)
    ensures
        r == spec_crc16_bit(crc),
{
    if crc & 1 == 1 {
        (crc >> 1) ^ 0x8408
    } else {
        crc >> 1
    }
}

fn crc16_byte(crc: u16, byte: u8) -> (r: u16)
    ensures
        r == spec_crc16_byte(crc, byte),
{
    let mut c: u16 = crc ^ (byte as u16);
    c = crc16_bit(c);
    c = crc16_bit(c);
    c = crc16_bit(c);
    c = crc16_bit(c);
    c = crc16_bit(c);
    c = crc16_bit(c);
    c = crc16_bit(c);
    c = crc16_bit(c);
    c
}

/// The initial running value of CRC16/X.25.
pub fn crc16_ccitt_init() -> (r: u16)
    ensures
        r == 0xffff_u16,
{
    0xffff
}

/// Folds `buf` into the running value `crc`, byte by byte.
pub fn crc16_ccitt_update(crc: u16, buf: &[u8]) -> (r: u16)
    ensures
        r == spec_crc16_update(crc, buf@),
{
    let mut c: u16 = crc;
    let mut i: usize = 0;
    while i < buf.len()
        invariant
            i <= buf.len(),
            c == spec_crc16_update(crc, buf@.take(i as int)),
        decreases buf.len() - i,
    {
        c = crc16_byte(c, buf[i]);
        proof {
            assert(buf@.take(i + 1 as int).drop_last() =~= buf@.take(i as int));
            assert(buf@.take(i + 1 as int).last() == buf@[i as int]);
        }
        i = i + 1;
    }
    proof {
        assert(buf@.take(buf@.len() as int) =~= buf@);
    }
    c
}

/// The final XOR of CRC16/X.25.
pub fn crc16_ccitt_final(crc: u16) -> (r: u16)
    ensures
        r == crc ^ 0xffff,
{
    crc ^ 0xffff
}

/// The checksum of `buf` in one call: init, update, final XOR.
pub fn crc16_ccitt_oneshot(buf: &[u8]) -> (r: u16)
    ensures
        r == spec_crc16(buf@),
{
    let mut crc: u16 = crc16_ccitt_init();
    crc = crc16_ccitt_update(crc, buf);
    crc16_ccitt_final(crc)
}

} // verus!
