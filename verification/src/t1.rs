//! ISO/IEC 7816-3 T=1 block protocol over I2C: block framing with CRC16/X.25,
//! sequence numbering, S-block control exchanges, and answer-to-reset parsing.
//!
//! A block is `NAD PCB LEN INF[0..254] CRC-LO CRC-HI`; the checksum covers
//! NAD through INF and travels little-endian. The top bits of PCB give the
//! block kind: `00` an I-block (bit 6 the send sequence number, bit 5 the
//! more-data bit), `10` an R-block (bit 4 the expected receive sequence
//! number), `11` an S-block (bit 5 clear for a request, set for a response).

use vstd::prelude::*;

use crate::bytes::{get_u16_be, get_u16_le, spec_u16_be, spec_u16_le};
use crate::iso::{apdu_to_bytes, spec_apdu_bytes, Apdu};
use crate::crc::{crc16_ccitt_final, crc16_ccitt_init, crc16_ccitt_oneshot, crc16_ccitt_update,
    spec_crc16};
use vstd::slice::{slice_subrange, slice_to_vec};

verus! {

/// PCB prefix of an S-block request.
pub const T1_S_REQUEST_CODE: u8 = 0b1100_0000;

/// PCB prefix of an S-block response.
pub const T1_S_RESPONSE_CODE: u8 = 0b1110_0000;

/// Mask that isolates the fixed bits of an R-block PCB.
pub const T1_R_CODE_MASK: u8 = 0b1110_1100;

/// Value of the fixed bits of an R-block PCB.
pub const T1_R_CODE: u8 = 0b1000_0000;

/// S-block control codes of T=1.
#[derive(Clone, Copy, Debug, PartialEq, Eq, Structural)]
pub enum T1SCode {
    Resync,
    IFS,
    Abort,
    WTX,
    EndApduSession,
    ChipReset,
    GetATR,
    InterfaceSoftReset,
}

/// The control-code value each [`T1SCode`] variant stands for.
pub open spec fn spec_s_code_byte(code: T1SCode) -> u8 {
    match code {
        T1SCode::Resync => 0,
        T1SCode::IFS => 1,
        T1SCode::Abort => 2,
        T1SCode::WTX => 3,
        T1SCode::EndApduSession => 5,
        T1SCode::ChipReset => 6,
        T1SCode::GetATR => 7,
        T1SCode::InterfaceSoftReset => 15,
    }
}

impl T1SCode {
    /// Reads an S-block control code out of its byte value.
    pub fn try_from_u8(value: u8) -> (r: Result<Self, crate::iso::Iso7816Error>)
        ensures
            match r {
                Ok(code) => spec_s_code_byte(code) == value,
                Err(e) => e == crate::iso::Iso7816Error::ValueError && (forall|c: T1SCode|
                    spec_s_code_byte(c) != value),
            },
    {
        match value {
            0 => Ok(Self::Resync),
            1 => Ok(Self::IFS),
            2 => Ok(Self::Abort),
            3 => Ok(Self::WTX),
            5 => Ok(Self::EndApduSession),
            6 => Ok(Self::ChipReset),
            7 => Ok(Self::GetATR),
            15 => Ok(Self::InterfaceSoftReset),
            _ => Err(crate::iso::Iso7816Error::ValueError),
        }
    }

    /// The control-code value this variant stands for.
    pub fn to_u8(self) -> (r: u8)
        ensures
            r == spec_s_code_byte(self),
    {
        match self {
            Self::Resync => 0,
            Self::IFS => 1,
            Self::Abort => 2,
            Self::WTX => 3,
            Self::EndApduSession => 5,
            Self::ChipReset => 6,
            Self::GetATR => 7,
            Self::InterfaceSoftReset => 15,
        }
    }
}

/// What can go wrong in one T=1 exchange. Bus failures are surfaced and never
/// retried here; retry and resync policy belongs to the caller.
#[derive(Clone, Copy, Debug, PartialEq, Eq, Structural)]
pub enum T1Error {
    /// The I2C write failed.
    TransmitError,
    /// The I2C read failed.
    ReceiveError,
    /// The declared block length exceeds the buffer at hand; carries the
    /// declared length.
    BufferOverrunError(usize),
    /// The block checksum did not match.
    ChecksumError,
    /// The block structure was not the expected one.
    ProtocolError,
    /// The peer answered with an R-block; carries its PCB byte.
    RCodeReceived(u8),
}

/// Data-link-layer parameters announced in the answer to reset.
#[derive(Debug)]
pub struct DataLinkLayerParameters {
    /// Block waiting time in milliseconds.
    pub bwt_ms: u16,
    /// Information field size the card accepts.
    pub ifsc: u16,
}

/// Physical-layer parameters announced in the answer to reset.
#[derive(Debug)]
pub enum PhysicalLayerParameters {
    I2C(I2CParameters),
}

/// The I2C flavour of the physical-layer parameters.
#[derive(Debug)]
pub struct I2CParameters {
    /// Maximum clock frequency.
    pub mcf: u16,
    pub configuration: u8,
    /// Minimum polling time in milliseconds.
    pub mpot_ms: u8,
    /// Three reserved bytes.
    pub rfu: Vec<u8>,
    /// Secure-element guard time in microseconds.
    pub segt_us: u16,
    /// Wake-up time in microseconds.
    pub wut_us: u16,
}

/// The secure element's capability announcement, captured once per session
/// enable and cached until the next enable or disable.
#[derive(Debug)]
pub struct AnswerToReset {
    pub protocol_version: u8,
    /// Five vendor identification bytes.
    pub vendor_id: Vec<u8>,
    pub dllp: DataLinkLayerParameters,
    pub plp: PhysicalLayerParameters,
    /// Historical bytes, truncated to 32.
    pub historical_bytes: Vec<u8>,
}

/// Structural validity of an ATR byte sequence: the data-link-layer block is
/// four bytes long, the physical layer is I2C, and its block is eleven bytes
/// long.
pub open spec fn spec_atr_shape_ok(b: Seq<u8>) -> bool {
    b[6] == 4 && b[11] == 2 && b[12] == 11
}

/// The answer to reset carried by a structurally valid ATR byte sequence:
/// the protocol version, five vendor bytes, the four data-link-layer bytes,
/// then the eleven physical-layer bytes packed densely after byte 12 — MCF
/// at 13–14, configuration at 15, MPOT at 16, three reserved bytes at 17–19,
/// SEGT at 20–21, WUT at 22–23 — byte 24 the historical length, and the
/// historical bytes from 25, truncated to 32.
pub open spec fn spec_atr_fields(atr: AnswerToReset, b: Seq<u8>) -> bool {
    &&& atr.protocol_version == b[0]
    &&& atr.vendor_id@ == b.subrange(1, 6)
    &&& atr.dllp.bwt_ms == spec_u16_be(b[7], b[8])
    &&& atr.dllp.ifsc == spec_u16_be(b[9], b[10])
    &&& (match atr.plp {
        PhysicalLayerParameters::I2C(p) => {
            &&& p.mcf == spec_u16_be(b[13], b[14])
            &&& p.configuration == b[15]
            &&& p.mpot_ms == b[16]
            &&& p.rfu@ == b.subrange(17, 20)
            &&& p.segt_us == spec_u16_be(b[20], b[21])
            &&& p.wut_us == spec_u16_be(b[22], b[23])
        },
    })
    &&& atr.historical_bytes@ == b.subrange(25, 57)
}

/// Parses an answer to reset from its fixed-offset byte layout. Structural
/// mismatches are hard protocol errors, never silently coerced.
pub fn parse_atr(buf: &[u8]) -> (r: Result<AnswerToReset, T1Error>)
    requires
        buf@.len() >= 57,
    ensures
        match r {
            Ok(atr) => spec_atr_shape_ok(buf@) && spec_atr_fields(atr, buf@),
            Err(e) => e == T1Error::ProtocolError && !spec_atr_shape_ok(buf@),
        },
{
    let dllp_len = buf[6];
    if dllp_len != 4 {
        return Err(T1Error::ProtocolError);
    }
    let plp_type = buf[11];
    let plp_len = buf[12];
    if plp_type != 2 || plp_len != 11 {
        return Err(T1Error::ProtocolError);
    }
    Ok(
        AnswerToReset {
            protocol_version: buf[0],
            vendor_id: slice_to_vec(slice_subrange(buf, 1, 6)),
            dllp: DataLinkLayerParameters {
                bwt_ms: get_u16_be(slice_subrange(buf, 7, 9)),
                ifsc: get_u16_be(slice_subrange(buf, 9, 11)),
            },
            plp: PhysicalLayerParameters::I2C(
                I2CParameters {
                    mcf: get_u16_be(slice_subrange(buf, 13, 15)),
                    configuration: buf[15],
                    mpot_ms: buf[16],
                    rfu: slice_to_vec(slice_subrange(buf, 17, 20)),
                    segt_us: get_u16_be(slice_subrange(buf, 20, 22)),
                    wut_us: get_u16_be(slice_subrange(buf, 22, 24)),
                },
            ),
            historical_bytes: slice_to_vec(slice_subrange(buf, 25, 57)),
        },
    )
}

/// Port to the raw I2C bus, in the shape the hardware abstraction layers
/// implement: one addressed write and one addressed read. Implementations
/// live outside this crate (a hardware driver, or a test double); nothing is
/// assumed of the bytes a read hands back, only that a successful read is of
/// the requested length.
pub trait I2CBus {
    /// Writes `data` to the device at `addr`; `Err(())` is a bus failure.
    fn bus_write(&mut self, addr: u8, data: &[u8]) -> (r: Result<(), ()>);

    /// Reads `len` bytes from the device at `addr`; `Err(())` is a bus
    /// failure.
    fn bus_read(&mut self, addr: u8, len: usize) -> (r: Result<Vec<u8>, ()>)
        ensures
            (r matches Ok(v) ==> v@.len() == len),
    ;
}

/// One response APDU as unwrapped from the T=1 information fields: the data
/// bytes and the trailing status word.
#[derive(Debug)]
pub struct RApdu {
    pub data: Vec<u8>,
    pub sw: u16,
}

/// The bytes of one T=1 block around the information field `inf`: node
/// address, protocol control byte, length, the field itself, and the
/// CRC16/X.25 of everything before it, little-endian.
pub open spec fn spec_block(nad: u8, pcb: u8, inf: Seq<u8>) -> Seq<u8> {
    (seq![nad, pcb, inf.len() as u8] + inf) + seq![
        (spec_crc16(seq![nad, pcb, inf.len() as u8] + inf) & 0xff) as u8,
        (spec_crc16(seq![nad, pcb, inf.len() as u8] + inf) >> 8) as u8,
    ]
}

/// Builds one T=1 block around the information field `inf`.
pub fn build_block(nad: u8, pcb: u8, inf: &[u8]) -> (r: Vec<u8>)
    requires
        inf@.len() <= 254,
    ensures
        r@ == spec_block(nad, pcb, inf@),
{
    let mut out: Vec<u8> = Vec::new();
    out.push(nad);
    out.push(pcb);
    out.push(inf.len() as u8);
    let mut i: usize = 0;
    while i < inf.len()
        invariant
            i <= inf@.len(),
            inf@.len() <= 254,
            out@ == seq![nad, pcb, inf@.len() as u8] + inf@.take(i as int),
        decreases inf@.len() - i,
    {
        out.push(inf[i]);
        proof {
            assert(inf@.take(i + 1 as int) =~= inf@.take(i as int) + seq![inf@[i as int]]);
        }
        i = i + 1;
    }
    proof {
        assert(inf@.take(inf@.len() as int) =~= inf@);
    }
    let crc: u16 = crc16_ccitt_oneshot(out.as_slice());
    proof {
        assert(crc & 0xff < 256) by (bit_vector);
        assert(crc >> 8 < 256) by (bit_vector);
    }
    out.push((crc & 0xff) as u8);
    out.push((crc >> 8) as u8);
    proof {
        assert(out@ =~= spec_block(nad, pcb, inf@));
    }
    out
}

/// What a three-byte header says when an S-response for `code` is expected
/// from the node address `nad`: the carried length on success; an R-block
/// surfaces the peer-reported code, anything else is a protocol error.
pub open spec fn spec_s_header_check(hdr: Seq<u8>, nad: u8, code: T1SCode) -> Result<u8, T1Error> {
    if hdr[0] != nad {
        Err(T1Error::ProtocolError)
    } else if hdr[1] != T1_S_RESPONSE_CODE | spec_s_code_byte(code) {
        if hdr[1] & T1_R_CODE_MASK == T1_R_CODE {
            Err(T1Error::RCodeReceived(hdr[1]))
        } else {
            Err(T1Error::ProtocolError)
        }
    } else {
        Ok(hdr[2])
    }
}

/// Validates the three-byte header of an expected S-response.
pub fn check_s_header(hdr: &Vec<u8>, nad: u8, code: T1SCode) -> (r: Result<u8, T1Error>)
    requires
        hdr@.len() == 3,
    ensures
        r == spec_s_header_check(hdr@, nad, code),
{
    if hdr[0] != nad {
        return Err(T1Error::ProtocolError);
    }
    if hdr[1] != T1_S_RESPONSE_CODE | code.to_u8() {
        if (hdr[1] & T1_R_CODE_MASK) == T1_R_CODE {
            return Err(T1Error::RCodeReceived(hdr[1]));
        }
        return Err(T1Error::ProtocolError);
    }
    Ok(hdr[2])
}

/// Whether the checksum carried behind `dlen` information bytes matches the
/// CRC16/X.25 of header and information field.
pub open spec fn spec_block_crc_ok(hdr: Seq<u8>, body: Seq<u8>, dlen: int) -> bool {
    spec_crc16(hdr + body.take(dlen)) == spec_u16_le(body[dlen], body[dlen + 1])
}

/// Checks the checksum of one received block: `hdr` is the three header
/// bytes, `body` the information field followed by the two checksum bytes.
pub fn check_block_crc(hdr: &Vec<u8>, body: &Vec<u8>, dlen: usize) -> (r: bool)
    requires
        hdr@.len() == 3,
        dlen + 2 <= body@.len(),
    ensures
        r == spec_block_crc_ok(hdr@, body@, dlen as int),
{
    let blen: usize = body.len();
    assert(dlen + 2 <= blen);
    let mut crc: u16 = crc16_ccitt_init();
    crc = crc16_ccitt_update(crc, hdr.as_slice());
    crc = crc16_ccitt_update(crc, slice_subrange(body.as_slice(), 0, dlen));
    crc = crc16_ccitt_final(crc);
    let carried: u16 = get_u16_le(slice_subrange(body.as_slice(), dlen, dlen + 2));
    proof {
        crate::crc::lemma_crc16_update_concat(0xffff, hdr@, body@.take(dlen as int));
    }
    crc == carried
}

/// The T=1 transport over one exclusively owned I2C bus handle. It keeps the
/// two direction-encoded node address bytes and the single-bit send and
/// receive sequence numbers; one instance must never be shared between
/// callers.
pub struct T1overI2C<TWI: I2CBus> {
    twi: TWI,
    se_address: u8,
    nad_hd2se: u8,
    nad_se2hd: u8,
    iseq_snd: bool,
    iseq_rcv: bool,
}

/// The node address byte with its direction nibbles swapped.
pub open spec fn spec_nad_reversed(nad: u8) -> u8 {
    ((nad & 0xf0) >> 4) | ((nad & 0x0f) << 4)
}

impl<TWI: I2CBus> T1overI2C<TWI> {
    /// Takes exclusive ownership of the bus handle. `nad` is the
    /// host-to-element node address byte; the reverse direction swaps its
    /// nibbles. Sequence numbers start at zero.
    pub fn new(twi: TWI, address: u8, nad: u8) -> (r: Self)
        ensures
            r.spec_config() == (address, nad, spec_nad_reversed(nad)),
            r.spec_iseq_snd() == false,
            r.spec_iseq_rcv() == false,
    {
        let nad_r: u8 = ((nad & 0xf0) >> 4) | ((nad & 0x0f) << 4);
        T1overI2C {
            twi,
            se_address: address,
            nad_hd2se: nad,
            nad_se2hd: nad_r,
            iseq_snd: false,
            iseq_rcv: false,
        }
    }

    /// The fixed link configuration: everything but the bus handle and the
    /// sequence numbers.
    pub closed spec fn spec_config(self) -> (u8, u8, u8) {
        (self.se_address, self.nad_hd2se, self.nad_se2hd)
    }

    /// The single-bit send sequence number.
    pub closed spec fn spec_iseq_snd(self) -> bool {
        self.iseq_snd
    }

    /// The single-bit receive sequence number.
    pub closed spec fn spec_iseq_rcv(self) -> bool {
        self.iseq_rcv
    }

    /// Sends one S-request block for `code` carrying `data`.
    fn send_s(&mut self, code: T1SCode, data: &[u8]) -> (r: Result<(), T1Error>)
        requires
            data@.len() <= 254,
        ensures
            final(self).spec_config() == old(self).spec_config(),
            final(self).spec_iseq_snd() == old(self).spec_iseq_snd(),
            final(self).spec_iseq_rcv() == old(self).spec_iseq_rcv(),
            (r matches Err(e) ==> e == T1Error::TransmitError),
    {
        let pcb: u8 = T1_S_REQUEST_CODE | code.to_u8();
        let block = build_block(self.nad_hd2se, pcb, data);
        match self.twi.bus_write(self.se_address, block.as_slice()) {
            Ok(()) => Ok(()),
            Err(()) => Err(T1Error::TransmitError),
        }
    }

    /// Receives one S-response block for `code` into a buffer of `cap`
    /// bytes: reads the three-byte header, validates node address and
    /// protocol control byte, reads the announced length plus checksum, and
    /// validates the checksum over header and information field. An R-block
    /// in place of the response surfaces the peer-reported code.
    fn receive_s(&mut self, code: T1SCode, cap: usize) -> (r: Result<Vec<u8>, T1Error>)
        ensures
            final(self).spec_config() == old(self).spec_config(),
            final(self).spec_iseq_snd() == old(self).spec_iseq_snd(),
            final(self).spec_iseq_rcv() == old(self).spec_iseq_rcv(),
            (r matches Ok(v) ==> v@.len() + 2 <= cap),
            (r matches Err(T1Error::BufferOverrunError(d)) ==> d + 2 > cap),
    {
        let hdr = match self.twi.bus_read(self.se_address, 3) {
            Ok(v) => v,
            Err(()) => {
                return Err(T1Error::ReceiveError);
            },
        };
        let dlen_byte = match check_s_header(&hdr, self.nad_se2hd, code) {
            Ok(d) => d,
            Err(e) => {
                return Err(e);
            },
        };
        let dlen: usize = dlen_byte as usize;
        if dlen + 2 > cap {
            return Err(T1Error::BufferOverrunError(dlen));
        }
        let body = match self.twi.bus_read(self.se_address, dlen + 2) {
            Ok(v) => v,
            Err(()) => {
                return Err(T1Error::ReceiveError);
            },
        };
        if !check_block_crc(&hdr, &body, dlen) {
            return Err(T1Error::ChecksumError);
        }
        let mut payload = body;
        payload.truncate(dlen);
        Ok(payload)
    }

    /// Reads one R-block acknowledgement and checks that it acknowledges up
    /// to the next send sequence number `expected_ns`.
    fn receive_r_ack(&mut self, expected_ns: bool) -> (r: Result<(), T1Error>)
        ensures
            final(self).spec_config() == old(self).spec_config(),
            final(self).spec_iseq_snd() == old(self).spec_iseq_snd(),
            final(self).spec_iseq_rcv() == old(self).spec_iseq_rcv(),
            (r matches Err(e) ==> e == T1Error::ReceiveError || e == T1Error::ProtocolError || e
                == T1Error::ChecksumError || (e matches T1Error::RCodeReceived(_))),
    {
        let hdr = match self.twi.bus_read(self.se_address, 3) {
            Ok(v) => v,
            Err(()) => {
                return Err(T1Error::ReceiveError);
            },
        };
        if hdr[0] != self.nad_se2hd {
            return Err(T1Error::ProtocolError);
        }
        let pcb = hdr[1];
        if (pcb & T1_R_CODE_MASK) != T1_R_CODE {
            return Err(T1Error::ProtocolError);
        }
        let dlen: usize = hdr[2] as usize;
        let body = match self.twi.bus_read(self.se_address, dlen + 2) {
            Ok(v) => v,
            Err(()) => {
                return Err(T1Error::ReceiveError);
            },
        };
        if !check_block_crc(&hdr, &body, dlen) {
            return Err(T1Error::ChecksumError);
        }
        let nr = (pcb & 0x10) != 0;
        if nr != expected_ns {
            return Err(T1Error::RCodeReceived(pcb));
        }
        Ok(())
    }
}

/// Largest information field one block carries.
pub const T1_MAX_INF: usize = 254;

/// Upper bound on the blocks one receive takes, far past any real exchange.
/// A wait-time extension stretches the wait at the peer's request and is
/// never a timeout here; the bound exists so the receive loop has a
/// decreasing measure and provably terminates.
pub const T1_RECEIVE_BUDGET: usize = usize::MAX;

/// The send sequence number after one command APDU of `len` wire bytes has
/// gone out: the bytes are cut into blocks of at most 254 information bytes,
/// and the number toggles once per block.
pub open spec fn spec_ns_after_send(ns: bool, len: int) -> bool
    decreases len,
{
    if len <= 254 {
        !ns
    } else {
        spec_ns_after_send(!ns, len - 254)
    }
}

/// Splits the information bytes assembled from the I-blocks of one response
/// into the payload and the trailing big-endian status word; fewer than two
/// bytes cannot carry a status word.
pub fn rapdu_from_inf(inf: Vec<u8>) -> (r: Result<RApdu, T1Error>)
    ensures
        match r {
            Ok(ra) => inf@.len() >= 2 && ra.data@ == inf@.take(inf@.len() - 2) && ra.sw
                == spec_u16_be(inf@[inf@.len() - 2], inf@[inf@.len() - 1]),
            Err(e) => e == T1Error::ProtocolError && inf@.len() < 2,
        },
{
    let n: usize = inf.len();
    if n < 2 {
        return Err(T1Error::ProtocolError);
    }
    let sw = get_u16_be(slice_subrange(inf.as_slice(), n - 2, n));
    let mut data = inf;
    data.truncate(n - 2);
    Ok(RApdu { data, sw })
}

impl<TWI: I2CBus> T1Proto for T1overI2C<TWI> {
    /// Wraps one command APDU into I-blocks: the wire bytes are cut into
    /// information fields of at most 254 bytes; every block but the last
    /// carries the more-data bit and must be acknowledged by an R-block
    /// naming the next send sequence number. The send sequence number
    /// toggles once per acknowledged I-block; the last block's
    /// acknowledgement is the response itself, so its toggle comes with the
    /// successful write.
    fn send_apdu(&mut self, apdu: &Apdu) -> (r: Result<(), T1Error>)
        ensures
            final(self).spec_config() == old(self).spec_config(),
            final(self).spec_iseq_rcv() == old(self).spec_iseq_rcv(),
            (r is Ok ==> final(self).spec_iseq_snd() == spec_ns_after_send(
                old(self).spec_iseq_snd(),
                spec_apdu_bytes(*apdu).len() as int,
            )),
            (r matches Err(e) ==> e == T1Error::TransmitError || e == T1Error::ReceiveError || e
                == T1Error::ProtocolError || e == T1Error::ChecksumError || (e
                matches T1Error::RCodeReceived(_))),
    {
        let bytes = apdu_to_bytes(apdu);
        let total: usize = bytes.len();
        let mut off: usize = 0;
        loop
            invariant
                off <= total,
                total == bytes@.len(),
                bytes@ == spec_apdu_bytes(*apdu),
                self.spec_config() == old(self).spec_config(),
                self.spec_iseq_rcv() == old(self).spec_iseq_rcv(),
                spec_ns_after_send(self.spec_iseq_snd(), total - off) == spec_ns_after_send(
                    old(self).spec_iseq_snd(),
                    total as int,
                ),
            decreases total - off,
        {
            let remaining: usize = total - off;
            let chunk_len: usize = if remaining > T1_MAX_INF {
                T1_MAX_INF
            } else {
                remaining
            };
            let more = off + chunk_len < total;
            let pcb: u8 = (if self.iseq_snd {
                0x40
            } else {
                0x00
            }) | (if more {
                0x20
            } else {
                0x00
            });
            let chunk = slice_subrange(bytes.as_slice(), off, off + chunk_len);
            let block = build_block(self.nad_hd2se, pcb, chunk);
            match self.twi.bus_write(self.se_address, block.as_slice()) {
                Ok(()) => (),
                Err(()) => {
                    return Err(T1Error::TransmitError);
                },
            }
            if !more {
                self.iseq_snd = !self.iseq_snd;
                return Ok(());
            }
            let next_ns = !self.iseq_snd;
            match self.receive_r_ack(next_ns) {
                Ok(()) => (),
                Err(e) => {
                    return Err(e);
                },
            }
            self.iseq_snd = !self.iseq_snd;
            off = off + chunk_len;
        }
    }

    /// Unwraps one response APDU from I-blocks into a buffer of `cap` bytes.
    /// A wait-time-extension S-request received mid-wait is answered with
    /// the matching S-response at once and the wait continues; a chained
    /// I-block is acknowledged with an R-block; the receive sequence number
    /// toggles with each I-block taken. The last two information bytes are
    /// the status word.
    fn receive_apdu(&mut self, cap: usize) -> (r: Result<RApdu, T1Error>)
        ensures
            final(self).spec_config() == old(self).spec_config(),
            final(self).spec_iseq_snd() == old(self).spec_iseq_snd(),
    {
        let mut acc: Vec<u8> = Vec::new();
        let mut budget: usize = T1_RECEIVE_BUDGET;
        loop
            invariant
                acc@.len() <= cap,
                self.spec_config() == old(self).spec_config(),
                self.spec_iseq_snd() == old(self).spec_iseq_snd(),
            decreases budget,
        {
            if budget == 0 {
                return Err(T1Error::ProtocolError);
            }
            budget = budget - 1;
            let hdr = match self.twi.bus_read(self.se_address, 3) {
                Ok(v) => v,
                Err(()) => {
                    return Err(T1Error::ReceiveError);
                },
            };
            if hdr[0] != self.nad_se2hd {
                return Err(T1Error::ProtocolError);
            }
            let pcb = hdr[1];
            let dlen: usize = hdr[2] as usize;
            let body = match self.twi.bus_read(self.se_address, dlen + 2) {
                Ok(v) => v,
                Err(()) => {
                    return Err(T1Error::ReceiveError);
                },
            };
            if !check_block_crc(&hdr, &body, dlen) {
                return Err(T1Error::ChecksumError);
            }
            if pcb == T1_S_REQUEST_CODE | 0x03 {
                // Wait-time extension: acknowledge it and keep waiting.
                let inf = slice_subrange(body.as_slice(), 0, dlen);
                if inf.len() > T1_MAX_INF {
                    return Err(T1Error::ProtocolError);
                }
                let reply = build_block(self.nad_hd2se, T1_S_RESPONSE_CODE | 0x03, inf);
                match self.twi.bus_write(self.se_address, reply.as_slice()) {
                    Ok(()) => (),
                    Err(()) => {
                        return Err(T1Error::TransmitError);
                    },
                }
                continue ;
            }
            if (pcb & 0x80) == 0 {
                // An I-block: sequence number, then take its payload.
                let ns = (pcb & 0x40) != 0;
                let m = (pcb & 0x20) != 0;
                if ns != self.iseq_rcv {
                    return Err(T1Error::ProtocolError);
                }
                if dlen > cap || acc.len() > cap - dlen {
                    return Err(T1Error::BufferOverrunError(dlen));
                }
                let mut inf = body;
                inf.truncate(dlen);
                acc.append(&mut inf);
                self.iseq_rcv = !self.iseq_rcv;
                if m {
                    let nr: u8 = if self.iseq_rcv {
                        0x10
                    } else {
                        0x00
                    };
                    let empty: Vec<u8> = Vec::new();
                    let ack = build_block(self.nad_hd2se, T1_R_CODE | nr, empty.as_slice());
                    match self.twi.bus_write(self.se_address, ack.as_slice()) {
                        Ok(()) => (),
                        Err(()) => {
                            return Err(T1Error::TransmitError);
                        },
                    }
                    continue ;
                }
                return rapdu_from_inf(acc);
            }
            if (pcb & T1_R_CODE_MASK) == T1_R_CODE {
                return Err(T1Error::RCodeReceived(pcb));
            }
            return Err(T1Error::ProtocolError);
        }
    }

    /// Asks the secure element for its answer to reset: sends the
    /// interface-soft-reset S-request, receives the matching S-response, and
    /// parses its information field at fixed offsets. Fields beyond the
    /// announced length read as zero, as they would out of the freshly
    /// cleared receive buffer.
    fn interface_soft_reset(&mut self) -> (r: Result<AnswerToReset, T1Error>)
        ensures
            final(self).spec_config() == old(self).spec_config(),
            final(self).spec_iseq_snd() == old(self).spec_iseq_snd(),
            final(self).spec_iseq_rcv() == old(self).spec_iseq_rcv(),
    {
        let empty: Vec<u8> = Vec::new();
        match self.send_s(T1SCode::InterfaceSoftReset, empty.as_slice()) {
            Ok(()) => (),
            Err(e) => {
                return Err(e);
            },
        }
        let payload = match self.receive_s(T1SCode::InterfaceSoftReset, 64) {
            Ok(v) => v,
            Err(e) => {
                return Err(e);
            },
        };
        let mut buf = payload;
        while buf.len() < 64
            invariant
                buf@.len() <= 64,
            decreases 64 - buf@.len(),
        {
            buf.push(0);
        }
        match parse_atr(buf.as_slice()) {
            Ok(atr) => {
                proof {
                    assert(spec_atr_fields(atr, buf@));
                    assert(atr.vendor_id@.len() == 5);
                }
                Ok(atr)
            },
            Err(e) => Err(e),
        }
    }
}

/// The T=1 exchange as the session layer sees it: one whole command APDU
/// out, one whole response APDU in, and the reset that yields the answer to
/// reset. [`T1overI2C`] implements it over the bus port; a test double may
/// stand in for it.
pub trait T1Proto {
    /// Delivers one command APDU to the peer.
    fn send_apdu(&mut self, apdu: &Apdu) -> (r: Result<(), T1Error>)
        requires
            apdu.wf(),
    ;

    /// Collects one response APDU of at most `cap` data-plus-status bytes.
    fn receive_apdu(&mut self, cap: usize) -> (r: Result<RApdu, T1Error>)
        ensures
            (r matches Ok(ra) ==> ra.data@.len() <= cap),
    ;

    /// Resets the peer's protocol state and returns its capability
    /// announcement. A successful reset yields an announcement read off a
    /// structurally valid ATR byte sequence: the identification, reserved
    /// and historical fields have their fixed widths, and every field value
    /// sits at its place in some such sequence.
    fn interface_soft_reset(&mut self) -> (r: Result<AnswerToReset, T1Error>)
        ensures
            (r matches Ok(atr) ==> {
                &&& atr.vendor_id@.len() == 5
                &&& (atr.plp matches PhysicalLayerParameters::I2C(p) && p.rfu@.len() == 3)
                &&& atr.historical_bytes@.len() == 32
                &&& exists|b: Seq<u8>|
                    #[trigger] spec_atr_fields(atr, b) && b.len() >= 57 && spec_atr_shape_ok(b)
            }),
    ;
}

} // verus!
