//! Framing for the fingerprint reader's serial protocol: a magic, a fixed
//! address, a packet type, a big-endian length, the command bytes, and a
//! 16-bit additive checksum over type, length and payload. The byte-exact
//! frame building and response validation live here; moving the frames over
//! the wire is the port's business.

use vstd::prelude::*;

use crate::bytes::spec_u16_be;

verus! {

/// What can go wrong talking to the fingerprint reader.
#[derive(Clone, Copy, Debug, PartialEq, Eq, Structural)]
pub enum FPRError {
    /// The reader did not announce itself ready.
    InitFailed,
    /// The serial read failed.
    ReadError,
    /// The serial write failed.
    WriteError,
    /// A declared length exceeds the fixed frame buffer.
    BufferOverrun,
    /// The response header does not echo the frame sent.
    HeaderError,
    /// The response checksum does not match, or is cut short.
    ChecksumError,
    UnknownError,
}

/// The additive 16-bit checksum over a byte sequence, from the initial value
/// `iv`, wrapping as 16-bit addition does.
pub open spec fn spec_sum_up(s: Seq<u8>, iv: u16) -> u16
    decreases s.len(),
{
    if s.len() == 0 {
        iv
    } else {
        spec_sum_up(s.drop_last(), iv).wrapping_add(s.last() as u16)
    }
}

/// Sums the bytes of `b` onto `iv`, wrapping as 16-bit addition does.
pub fn sum_up(b: &[u8], iv: u16) -> (r: u16)
    ensures
        r == spec_sum_up(b@, iv),
{
    let mut chksum: u16 = iv;
    let mut i: usize = 0;
    while i < b.len()
        invariant
            i <= b@.len(),
            chksum == spec_sum_up(b@.take(i as int), iv),
        decreases b@.len() - i,
    {
        chksum = chksum.wrapping_add(b[i] as u16);
        proof {
            assert(b@.take(i + 1 as int).drop_last() =~= b@.take(i as int));
        }
        i = i + 1;
    }
    proof {
        assert(b@.take(b@.len() as int) =~= b@);
    }
    chksum
}

/// The six bytes every frame starts with: the protocol magic and the
/// broadcast module address.
pub open spec fn spec_fpr_prefix() -> Seq<u8> {
    seq![0xefu8, 0x01, 0xff, 0xff, 0xff, 0xff]
}

/// The bytes of one command frame: prefix, the command packet type, the
/// big-endian length of command plus checksum, the command bytes, and the
/// additive checksum over packet type, length and command.
pub open spec fn spec_fpr_command_frame(cmd: Seq<u8>) -> Seq<u8> {
    let clen = (cmd.len() + 2) as u16;
    let body = seq![0x01u8, (clen >> 8) as u8, (clen & 0xff) as u8] + cmd;
    let chk = spec_sum_up(body, 0);
    spec_fpr_prefix() + body + seq![(chk >> 8) as u8, (chk & 0xff) as u8]
}

/// Builds one command frame around `cmd`; a command that would not fit the
/// reader's 64-byte frame buffer is refused.
pub fn fpr_build_command(cmd: &[u8]) -> (r: Result<Vec<u8>, FPRError>)
    ensures
        match r {
            Ok(frame) => 9 + cmd@.len() + 2 <= 64 && frame@ == spec_fpr_command_frame(cmd@),
            Err(e) => e == FPRError::BufferOverrun && 9 + cmd@.len() + 2 > 64,
        },
{
    let n: usize = cmd.len();
    if n > 53 {
        return Err(FPRError::BufferOverrun);
    }
    let clen: u16 = (n + 2) as u16;
    let mut body: Vec<u8> = Vec::new();
    body.push(0x01);
    body.push((clen >> 8) as u8);
    body.push((clen & 0xff) as u8);
    let mut i: usize = 0;
    while i < n
        invariant
            i <= n,
            n == cmd@.len(),
            n + 2 <= 0xffff,
            clen == (n + 2) as u16,
            body@ == seq![0x01u8, (clen >> 8) as u8, (clen & 0xff) as u8] + cmd@.take(i as int),
        decreases n - i,
    {
        body.push(cmd[i]);
        proof {
            assert(cmd@.take(i + 1 as int) =~= cmd@.take(i as int) + seq![cmd@[i as int]]);
        }
        i = i + 1;
    }
    proof {
        assert(cmd@.take(n as int) =~= cmd@);
        assert(clen >> 8 < 256) by (bit_vector);
        assert(clen & 0xff < 256) by (bit_vector);
    }
    let chk: u16 = sum_up(body.as_slice(), 0);
    proof {
        assert(chk >> 8 < 256) by (bit_vector);
        assert(chk & 0xff < 256) by (bit_vector);
    }
    let mut frame: Vec<u8> = Vec::new();
    frame.push(0xef);
    frame.push(0x01);
    frame.push(0xff);
    frame.push(0xff);
    frame.push(0xff);
    frame.push(0xff);
    let mut j: usize = 0;
    let bn: usize = body.len();
    while j < bn
        invariant
            j <= bn,
            bn == body@.len(),
            frame@ == spec_fpr_prefix() + body@.take(j as int),
        decreases bn - j,
    {
        frame.push(body[j]);
        proof {
            assert(body@.take(j + 1 as int) =~= body@.take(j as int) + seq![body@[j as int]]);
        }
        j = j + 1;
    }
    proof {
        assert(body@.take(bn as int) =~= body@);
    }
    frame.push((chk >> 8) as u8);
    frame.push((chk & 0xff) as u8);
    proof {
        assert(frame@ =~= spec_fpr_command_frame(cmd@));
    }
    Ok(frame)
}

/// Whether a nine-byte response header echoes the frame prefix.
pub open spec fn spec_fpr_header_ok(hdr: Seq<u8>) -> bool {
    forall|j: int| 0 <= j < 6 ==> hdr[j] == spec_fpr_prefix()[j]
}

/// The checksum a response carries its payload under: the additive sum over
/// the header's last three bytes and the payload.
pub open spec fn spec_fpr_response_chk(hdr: Seq<u8>, payload: Seq<u8>) -> u16 {
    spec_sum_up(payload, spec_sum_up(hdr.subrange(6, 9), 0))
}

/// Validates one response against its nine-byte header: the header must echo
/// the frame prefix, the declared length must fit the 64-byte frame buffer
/// and carry at least its own checksum, and the trailing two bytes must be
/// the additive checksum over header tail and payload. On success the
/// payload without its checksum comes back.
pub fn fpr_parse_response(rsphdr: &[u8], rspbuf: &[u8]) -> (r: Result<Vec<u8>, FPRError>)
    requires
        rsphdr@.len() == 9,
        rspbuf@.len() == spec_u16_be(rsphdr@[7], rsphdr@[8]),
    ensures
        match r {
            Ok(payload) => {
                &&& spec_fpr_header_ok(rsphdr@)
                &&& 2 <= rspbuf@.len() <= 64
                &&& payload@ == rspbuf@.take(rspbuf@.len() - 2)
                &&& rspbuf@[rspbuf@.len() - 2] == (spec_fpr_response_chk(
                    rsphdr@,
                    payload@,
                ) >> 8) as u8
                &&& rspbuf@[rspbuf@.len() - 1] == (spec_fpr_response_chk(rsphdr@, payload@)
                    & 0xff) as u8
            },
            Err(FPRError::HeaderError) => !spec_fpr_header_ok(rsphdr@),
            Err(FPRError::BufferOverrun) => spec_fpr_header_ok(rsphdr@) && rspbuf@.len() > 64,
            Err(FPRError::ChecksumError) => spec_fpr_header_ok(rsphdr@) && rspbuf@.len() <= 64 && (
            rspbuf@.len() < 2 || {
                let chk = spec_fpr_response_chk(rsphdr@, rspbuf@.take(rspbuf@.len() - 2));
                rspbuf@[rspbuf@.len() - 2] != (chk >> 8) as u8 || rspbuf@[rspbuf@.len() - 1] != (
                chk & 0xff) as u8
            }),
            _ => false,
        },
{
    if rsphdr[0] != 0xef || rsphdr[1] != 0x01 || rsphdr[2] != 0xff || rsphdr[3] != 0xff
        || rsphdr[4] != 0xff || rsphdr[5] != 0xff {
        proof {
            assert(!spec_fpr_header_ok(rsphdr@)) by {
                if rsphdr@[0] != 0xef {
                    assert(spec_fpr_prefix()[0] == 0xef);
                } else if rsphdr@[1] != 0x01 {
                    assert(spec_fpr_prefix()[1] == 0x01);
                } else if rsphdr@[2] != 0xff {
                    assert(spec_fpr_prefix()[2] == 0xff);
                } else if rsphdr@[3] != 0xff {
                    assert(spec_fpr_prefix()[3] == 0xff);
                } else if rsphdr@[4] != 0xff {
                    assert(spec_fpr_prefix()[4] == 0xff);
                } else {
                    assert(spec_fpr_prefix()[5] == 0xff);
                }
            }
        }
        return Err(FPRError::HeaderError);
    }
    proof {
        assert forall|k: int| 0 <= k < 6 implies rsphdr@[k] == spec_fpr_prefix()[k] by {
            assert(spec_fpr_prefix() =~= seq![0xefu8, 0x01, 0xff, 0xff, 0xff, 0xff]);
        }
    }
    let rsplen: usize = crate::bytes::get_u16_be(vstd::slice::slice_subrange(rsphdr, 7, 9))
        as usize;
    if rsplen > 64 {
        return Err(FPRError::BufferOverrun);
    }
    if rsplen < 2 {
        return Err(FPRError::ChecksumError);
    }
    let payload = vstd::slice::slice_to_vec(vstd::slice::slice_subrange(rspbuf, 0, rsplen - 2));
    let hdr_tail_sum = sum_up(vstd::slice::slice_subrange(rsphdr, 6, 9), 0);
    let chk = sum_up(payload.as_slice(), hdr_tail_sum);
    proof {
        assert(chk >> 8 < 256) by (bit_vector);
        assert(chk & 0xff < 256) by (bit_vector);
    }
    if rspbuf[rsplen - 2] != (chk >> 8) as u8 || rspbuf[rsplen - 1] != (chk & 0xff) as u8 {
        return Err(FPRError::ChecksumError);
    }
    Ok(payload)
}

} // verus!
