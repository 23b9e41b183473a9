//! Reading and writing 16- and 24-bit integers at byte boundaries, in both
//! byte orders, as the wire formats of this crate need them.

use vstd::prelude::*;

verus! {

/// The 16-bit value carried little-endian by the bytes `b0 b1`.
pub open spec fn spec_u16_le(b0: u8, b1: u8) -> u16 {
    (b0 as u16) | ((b1 as u16) << 8)
}

/// The 16-bit value carried big-endian by the bytes `b0 b1`.
pub open spec fn spec_u16_be(b0: u8, b1: u8) -> u16 {
    (b1 as u16) | ((b0 as u16) << 8)
}

/// The 24-bit value carried big-endian by the bytes `b0 b1 b2`.
pub open spec fn spec_u24_be(b0: u8, b1: u8, b2: u8) -> u32 {
    (b2 as u32) | ((b1 as u32) << 8) | ((b0 as u32) << 16)
}

/// Reads the little-endian 16-bit value at the start of `buf`.
pub fn get_u16_le(buf: &[u8]) -> (r: u16)
    requires
        buf@.len() >= 2,
    ensures
        r == spec_u16_le(buf@[0], buf@[1]),
{
    (buf[0] as u16) | ((buf[1] as u16) << 8)
}

/// Reads the big-endian 16-bit value at the start of `buf`.
pub fn get_u16_be(buf: &[u8]) -> (r: u16)
    requires
        buf@.len() >= 2,
    ensures
        r == spec_u16_be(buf@[0], buf@[1]),
{
    (buf[1] as u16) | ((buf[0] as u16) << 8)
}

/// Reads the big-endian 24-bit value at the start of `buf`.
pub fn get_u24_be(buf: &[u8]) -> (r: u32)
    requires
        buf@.len() >= 3,
    ensures
        r == spec_u24_be(buf@[0], buf@[1], buf@[2]),
{
    (buf[2] as u32) | ((buf[1] as u32) << 8) | ((buf[0] as u32) << 16)
}

/// Writes `val` little-endian into `buf` at positions `off` and `off + 1`.
pub fn set_u16_le(buf: &mut Vec<u8>, off: usize, val: u16)
    requires
        off + 1 < old(buf)@.len(),
    ensures
        final(buf)@ == old(buf)@.update(off as int, (val & 0xff) as u8).update(
            off + 1,
            (val >> 8) as u8,
        ),
{
    proof {
        assert(val & 0xff < 256) by (bit_vector);
        assert(val >> 8 < 256) by (bit_vector);
    }
    let n: usize = buf.len();
    assert(off + 1 <= n);
    buf.set(off, (val & 0xff) as u8);
    buf.set(off + 1, (val >> 8) as u8);
}

/// Writes `val` big-endian into `buf` at positions `off` and `off + 1`.
pub fn set_u16_be(buf: &mut Vec<u8>, off: usize, val: u16)
    requires
        off + 1 < old(buf)@.len(),
    ensures
        final(buf)@ == old(buf)@.update(off as int, (val >> 8) as u8).update(
            off + 1,
            (val & 0xff) as u8,
        ),
{
    proof {
        assert(val & 0xff < 256) by (bit_vector);
        assert(val >> 8 < 256) by (bit_vector);
    }
    let n: usize = buf.len();
    assert(off + 1 <= n);
    buf.set(off, (val >> 8) as u8);
    buf.set(off + 1, (val & 0xff) as u8);
}

} // verus!
