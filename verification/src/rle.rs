//! Run-length decoder for the packed sprite images: an `RLE` header, a unit
//! size, a 32-bit big-endian output length, then units of a prefix byte, an
//! optional repeat count, and one halfword to repeat.
//!
//! Where the packed stream would drive a write past the output buffer, the
//! decoder answers with a decode error; a well-formed stream fills the
//! buffer exactly and ends exactly at the input's end.

use vstd::prelude::*;

verus! {

/// What can go wrong decoding a packed image.
#[derive(Clone, Copy, Debug, PartialEq, Eq, Structural)]
pub enum RLEError {
    /// The stream does not start with the `RLE` magic.
    HeaderError,
    /// The output buffer is not of the announced length.
    BufferMismatchError,
    /// The unit size is not the halfword one.
    UnsupportedUnitSizeError,
    /// The stream of units is malformed, ends early, or overruns the output.
    DecodeError,
}

/// The 32-bit big-endian value at `off`, reading only the bytes that exist:
/// each present byte shifts in from the right.
pub open spec fn spec_u32be_off(s: Seq<u8>, off: int) -> int {
    let v0: int = if off < s.len() {
        s[off] as int
    } else {
        0
    };
    let v1: int = if off + 1 < s.len() {
        v0 * 256 + s[off + 1]
    } else {
        v0
    };
    let v2: int = if off + 2 < s.len() {
        v1 * 256 + s[off + 2]
    } else {
        v1
    };
    if off + 3 < s.len() {
        v2 * 256 + s[off + 3]
    } else {
        v2
    }
}

/// Reads the 32-bit big-endian value at `off`, shifting in only the bytes
/// that exist.
pub fn u32be_from_slice_off(src: &[u8], off: usize) -> (r: usize)
    ensures
        r == spec_u32be_off(src@, off as int),
        r < 0x1_0000_0000,
{
    let n: usize = src.len();
    let mut val: u32 = 0;
    if off < n {
        val = src[off] as u32;
        if n - off > 1 {
            val = val * 256 + (src[off + 1] as u32);
        }
        if n - off > 2 {
            val = val * 256 + (src[off + 2] as u32);
        }
        if n - off > 3 {
            val = val * 256 + (src[off + 3] as u32);
        }
    }
    val as usize
}

/// One repeated halfword: `count` copies of the byte pair `b0 b1`.
pub open spec fn spec_pairs(b0: u8, b1: u8, count: int) -> Seq<u8> {
    Seq::new(
        2 * count as nat,
        |k: int|
            if k % 2 == 0 {
                b0
            } else {
                b1
            },
    )
}

/// What the halfword units from position `i` decode to, with `room` output
/// bytes left to fill. A prefix byte of 0 repeats the following pair once; 1
/// carries a one-byte count; 2 a two-byte big-endian count; any other prefix
/// is skipped with the byte after it. The decode succeeds exactly when the
/// output is filled at the same moment the input ends, and fails where a
/// unit is cut short or a run would overflow the room that is left.
pub open spec fn spec_rle_expand(src: Seq<u8>, i: int, room: int) -> Option<Seq<u8>>
    decreases src.len() + 2 - i,
{
    if room == 0 && i == src.len() {
        Some(Seq::empty())
    } else if room <= 0 || i >= src.len() {
        None
    } else {
        let prefix = src[i];
        if prefix == 0 {
            if i + 3 > src.len() {
                None
            } else {
                let rest = spec_rle_expand(src, i + 3, room - 2);
                if 2 > room || rest is None {
                    None
                } else {
                    Some(spec_pairs(src[i + 1], src[i + 2], 1) + rest->Some_0)
                }
            }
        } else if prefix == 1 {
            if i + 4 > src.len() {
                None
            } else {
                let count = src[i + 1] as int;
                let rest = spec_rle_expand(src, i + 4, room - 2 * count);
                if 2 * count > room || rest is None {
                    None
                } else {
                    Some(spec_pairs(src[i + 2], src[i + 3], count) + rest->Some_0)
                }
            }
        } else if prefix == 2 {
            if i + 5 > src.len() {
                None
            } else {
                let count = 256 * src[i + 1] + src[i + 2];
                let rest = spec_rle_expand(src, i + 5, room - 2 * count);
                if 2 * count > room || rest is None {
                    None
                } else {
                    Some(spec_pairs(src[i + 3], src[i + 4], count) + rest->Some_0)
                }
            }
        } else {
            spec_rle_expand(src, i + 2, room)
        }
    }
}

/// Whether the stream announces the `RLE` magic.
pub open spec fn spec_rle_magic_ok(src: Seq<u8>) -> bool {
    src[0] == 0x52 && src[1] == 0x4c && src[2] == 0x45
}

/// Decodes the packed stream `src` into `dest`, which must already be of the
/// announced output length. The output buffer keeps its length whatever
/// happens; on success it holds exactly the decoded bytes.
pub fn rle_decode(dest: &mut Vec<u8>, src: &[u8]) -> (r: Result<(), RLEError>)
    requires
        src@.len() >= 4,
    ensures
        final(dest)@.len() == old(dest)@.len(),
        match r {
            Ok(()) => spec_rle_magic_ok(src@) && src@[3] == 0x48 && old(dest)@.len()
                == spec_u32be_off(src@, 4) && spec_rle_expand(src@, 8, old(dest)@.len() as int)
                == Some(final(dest)@),
            Err(RLEError::HeaderError) => !spec_rle_magic_ok(src@) && final(dest)@ == old(dest)@,
            Err(RLEError::BufferMismatchError) => spec_rle_magic_ok(src@) && old(dest)@.len()
                != spec_u32be_off(src@, 4) && final(dest)@ == old(dest)@,
            Err(RLEError::UnsupportedUnitSizeError) => spec_rle_magic_ok(src@) && old(dest)@.len()
                == spec_u32be_off(src@, 4) && src@[3] != 0x48 && final(dest)@ == old(dest)@,
            Err(RLEError::DecodeError) => spec_rle_magic_ok(src@) && src@[3] == 0x48 && old(
                dest,
            )@.len() == spec_u32be_off(src@, 4) && spec_rle_expand(
                src@,
                8,
                old(dest)@.len() as int,
            ) is None,
        },
{
    if src[0] != 0x52 || src[1] != 0x4c || src[2] != 0x45 {
        return Err(RLEError::HeaderError);
    }
    let destlen: usize = u32be_from_slice_off(src, 4);
    if dest.len() != destlen {
        return Err(RLEError::BufferMismatchError);
    }
    if src[3] != 0x48 {
        return Err(RLEError::UnsupportedUnitSizeError);
    }
    let n: usize = src.len();
    let mut out_index: usize = 0;
    let mut in_index: usize = 8;
    while out_index < destlen && in_index < n
        invariant
            src@.len() == n,
            src@.len() >= 4,
            spec_rle_magic_ok(src@),
            src@[3] == 0x48,
            destlen == spec_u32be_off(src@, 4),
            dest@.len() == destlen,
            destlen == old(dest)@.len(),
            out_index <= destlen,
            (match spec_rle_expand(src@, in_index as int, destlen - out_index) {
                Some(rest) => spec_rle_expand(src@, 8, destlen as int) == Some(
                    dest@.take(out_index as int) + rest,
                ),
                None => spec_rle_expand(src@, 8, destlen as int) is None,
            }),
        decreases n - in_index,
    {
        let ghost room: int = destlen - out_index;
        let ghost i0: int = in_index as int;
        let ghost pre = dest@;
        let prefix = src[in_index];
        let count: usize;
        let b0: u8;
        let b1: u8;
        let advance: usize;
        if prefix == 0 {
            if n - in_index < 3 {
                proof {
                    assert(spec_rle_expand(src@, i0, room) is None);
                }
                return Err(RLEError::DecodeError);
            }
            count = 1;
            b0 = src[in_index + 1];
            b1 = src[in_index + 2];
            advance = 3;
        } else if prefix == 1 {
            if n - in_index < 4 {
                proof {
                    assert(spec_rle_expand(src@, i0, room) is None);
                }
                return Err(RLEError::DecodeError);
            }
            count = src[in_index + 1] as usize;
            b0 = src[in_index + 2];
            b1 = src[in_index + 3];
            advance = 4;
        } else if prefix == 2 {
            if n - in_index < 5 {
                proof {
                    assert(spec_rle_expand(src@, i0, room) is None);
                }
                return Err(RLEError::DecodeError);
            }
            count = 256 * (src[in_index + 1] as usize) + (src[in_index + 2] as usize);
            b0 = src[in_index + 3];
            b1 = src[in_index + 4];
            advance = 5;
        } else {
            // An unknown prefix carries no run; the stream skips it and the
            // byte after it.
            let left = n - in_index;
            in_index = in_index + (if left >= 2 {
                2
            } else {
                left
            });
            proof {
                assert(spec_rle_expand(src@, i0, room) == spec_rle_expand(src@, i0 + 2, room));
                if i0 + 2 > n {
                    assert(spec_rle_expand(src@, i0 + 2, room) is None);
                    assert(spec_rle_expand(src@, in_index as int, room) is None);
                }
            }
            continue ;
        }
        if 2 * count > destlen - out_index {
            proof {
                assert(spec_rle_expand(src@, i0, room) is None);
            }
            return Err(RLEError::DecodeError);
        }
        write_pairs(dest, out_index, b0, b1, count);
        proof {
            let rest_new = spec_rle_expand(src@, i0 + advance, room - 2 * count);
            assert(dest@.take(out_index + 2 * count as int) =~= pre.take(out_index as int)
                + spec_pairs(b0, b1, count as int));
            match spec_rle_expand(src@, i0, room) {
                Some(rest_old) => {
                    assert(rest_new is Some);
                    assert(rest_old == spec_pairs(b0, b1, count as int) + rest_new->Some_0);
                    assert(pre.take(out_index as int) + (spec_pairs(b0, b1, count as int)
                        + rest_new->Some_0) =~= dest@.take(out_index + 2 * count as int)
                        + rest_new->Some_0);
                },
                None => {},
            }
        }
        out_index = out_index + 2 * count;
        in_index = in_index + advance;
    }
    if out_index == destlen && in_index == n {
        proof {
            assert(dest@.take(destlen as int) =~= dest@);
        }
        Ok(())
    } else {
        Err(RLEError::DecodeError)
    }
}

/// Writes `count` copies of the byte pair `b0 b1` into `dest` at `out`,
/// leaving everything before `out` as it was.
fn write_pairs(dest: &mut Vec<u8>, out: usize, b0: u8, b1: u8, count: usize)
    requires
        out + 2 * count <= old(dest)@.len(),
    ensures
        final(dest)@.len() == old(dest)@.len(),
        final(dest)@.take(out as int) == old(dest)@.take(out as int),
        final(dest)@.subrange(out as int, out + 2 * count) == spec_pairs(b0, b1, count as int),
{
    let mut k: usize = 0;
    while k < count
        invariant
            k <= count,
            out + 2 * count <= dest@.len(),
            dest@.len() == old(dest)@.len(),
            dest@.take(out as int) == old(dest)@.take(out as int),
            forall|p: int|
                out <= p < out + 2 * k ==> dest@[p] == (if (p - out) % 2 == 0 {
                    b0
                } else {
                    b1
                }),
        decreases count - k,
    {
        let dl: usize = dest.len();
        assert(out + 2 * count <= dl);
        dest.set(out + 2 * k, b0);
        dest.set(out + 2 * k + 1, b1);
        proof {
            assert(dest@.take(out as int) =~= old(dest)@.take(out as int));
            assert forall|p: int|
                out <= p < out + 2 * (k + 1) implies dest@[p] == (if (p - out) % 2 == 0 {
                b0
            } else {
                b1
            }) by {
                if p == out + 2 * k {
                    assert((p - out) % 2 == 0);
                } else if p == out + 2 * k + 1 {
                    assert((p - out) % 2 == 1);
                }
            }
        }
        k = k + 1;
    }
    proof {
        assert(dest@.subrange(out as int, out + 2 * count) =~= spec_pairs(b0, b1, count as int));
    }
}

} // verus!
