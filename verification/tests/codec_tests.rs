use stick_core::bytes::{get_u16_be, get_u16_le, get_u24_be, set_u16_be, set_u16_le};
use stick_core::fpr::{fpr_build_command, fpr_parse_response, sum_up, FPRError};
use stick_core::iso::{apdu_to_bytes, Apdu, ApduClass, ApduInstruction, ApduP1KeyType,
    Iso7816Error};
use stick_core::rle::{rle_decode, u32be_from_slice_off, RLEError};
use stick_core::ui::{charge_ani_frame, glyph_index};

#[test]
fn u16_accessors_read_both_byte_orders() {
    assert_eq!(get_u16_le(&[0x34, 0x12]), 0x1234);
    assert_eq!(get_u16_be(&[0x12, 0x34]), 0x1234);
    assert_eq!(get_u24_be(&[0x01, 0x02, 0x03]), 0x010203);
}

#[test]
fn u16_accessors_write_both_byte_orders() {
    let mut buf = vec![0u8; 4];
    set_u16_le(&mut buf, 0, 0x1234);
    assert_eq!(buf, vec![0x34, 0x12, 0, 0]);
    set_u16_be(&mut buf, 2, 0x1234);
    assert_eq!(buf, vec![0x34, 0x12, 0x12, 0x34]);
}

#[test]
fn apdu_serializes_with_short_lengths() {
    let apdu = Apdu {
        cla: ApduClass::StandardPlain,
        ins: 0xa4,
        p1: 0x04,
        p2: 0x00,
        data: vec![0xaa, 0xbb],
        le: 0,
    };
    assert_eq!(apdu_to_bytes(&apdu), vec![0x00, 0xa4, 0x04, 0x00, 0x02, 0xaa, 0xbb]);
    let apdu = Apdu { cla: ApduClass::Standard, ins: 0x02, p1: 0, p2: 0, data: vec![], le: 16 };
    assert_eq!(apdu_to_bytes(&apdu), vec![0x80, 0x02, 0x00, 0x00, 0x10]);
    let apdu = Apdu {
        cla: ApduClass::ProprietarySecure,
        ins: 0x05,
        p1: 1,
        p2: 2,
        data: vec![],
        le: 256,
    };
    assert_eq!(apdu_to_bytes(&apdu), vec![0x84, 0x05, 0x01, 0x02, 0x00]);
}

#[test]
fn apdu_instruction_reads_the_low_five_bits() {
    assert!(matches!(ApduInstruction::try_from_u8(0x01), Ok(ApduInstruction::Write)));
    assert!(matches!(ApduInstruction::try_from_u8(0x82), Ok(ApduInstruction::Read)));
    assert!(matches!(ApduInstruction::try_from_u8(0x26), Ok(ApduInstruction::ImportExternal)));
    assert!(matches!(ApduInstruction::try_from_u8(0x1f), Err(Iso7816Error::ValueError)));
    assert!(matches!(ApduInstruction::try_from_u8(0x00), Err(Iso7816Error::ValueError)));
}

#[test]
fn apdu_p1_key_type_reads_its_mask() {
    assert!(matches!(ApduP1KeyType::try_from_u8(0x20), Ok(ApduP1KeyType::PublicKey)));
    assert!(matches!(ApduP1KeyType::try_from_u8(0x40), Ok(ApduP1KeyType::PrivateKey)));
    assert!(matches!(ApduP1KeyType::try_from_u8(0x60), Ok(ApduP1KeyType::KeyPair)));
    // Flag bits outside the mask do not disturb the reading.
    assert!(matches!(ApduP1KeyType::try_from_u8(0xe3), Ok(ApduP1KeyType::KeyPair)));
    assert!(matches!(ApduP1KeyType::try_from_u8(0x1f), Err(Iso7816Error::ValueError)));
}

#[test]
fn sum_up_adds_bytes_with_wraparound() {
    assert_eq!(sum_up(&[], 7), 7);
    assert_eq!(sum_up(&[1, 2, 3], 0), 6);
    assert_eq!(sum_up(&[0xff, 0xff], 0xff00), 0x00fe);
}

#[test]
fn fpr_command_frame_is_byte_exact() {
    // The packet-length-coefficient command the reader gets at power-up.
    let frame = fpr_build_command(&[0x0e, 6, 3]).unwrap();
    assert_eq!(
        frame,
        vec![
            0xef, 0x01, 0xff, 0xff, 0xff, 0xff, 0x01, 0x00, 0x05, 0x0e, 0x06, 0x03, 0x00, 0x1d
        ]
    );
}

#[test]
fn fpr_command_rejects_oversize_payloads() {
    assert!(fpr_build_command(&[0u8; 53]).is_ok());
    assert!(matches!(fpr_build_command(&[0u8; 54]), Err(FPRError::BufferOverrun)));
}

fn fpr_response(payload: &[u8]) -> (Vec<u8>, Vec<u8>) {
    let rsplen = (payload.len() + 2) as u16;
    let hdr = vec![
        0xef, 0x01, 0xff, 0xff, 0xff, 0xff, 0x07, (rsplen >> 8) as u8, (rsplen & 0xff) as u8,
    ];
    let chk = sum_up(payload, sum_up(&hdr[6..9], 0));
    let mut buf = payload.to_vec();
    buf.push((chk >> 8) as u8);
    buf.push((chk & 0xff) as u8);
    (hdr, buf)
}

#[test]
fn fpr_response_round_trip() {
    let (hdr, buf) = fpr_response(&[0x00, 0x11, 0x22]);
    assert_eq!(fpr_parse_response(&hdr, &buf).unwrap(), vec![0x00, 0x11, 0x22]);
}

#[test]
fn fpr_response_header_must_echo_the_prefix() {
    let (mut hdr, buf) = fpr_response(&[0x00]);
    hdr[1] = 0x02;
    assert!(matches!(fpr_parse_response(&hdr, &buf), Err(FPRError::HeaderError)));
}

#[test]
fn fpr_response_checksum_must_match() {
    let (hdr, mut buf) = fpr_response(&[0x00, 0x11]);
    let n = buf.len();
    buf[n - 1] ^= 1;
    assert!(matches!(fpr_parse_response(&hdr, &buf), Err(FPRError::ChecksumError)));
}

#[test]
fn fpr_response_oversize_length_is_an_overrun() {
    let payload = vec![0u8; 63];
    let (hdr, buf) = fpr_response(&payload);
    assert!(matches!(fpr_parse_response(&hdr, &buf), Err(FPRError::BufferOverrun)));
}

#[test]
fn u32be_reads_only_the_bytes_that_exist() {
    assert_eq!(u32be_from_slice_off(&[0, 0, 0, 0, 0x01, 0x02, 0x03, 0x04], 4), 0x01020304);
    assert_eq!(u32be_from_slice_off(&[0x01, 0x02], 0), 0x0102);
    assert_eq!(u32be_from_slice_off(&[0x01, 0x02], 2), 0);
    assert_eq!(u32be_from_slice_off(&[0xaa], 0), 0xaa);
}

fn rle_stream(destlen: u32, units: &[u8]) -> Vec<u8> {
    let mut src = b"RLEH".to_vec();
    src.extend_from_slice(&destlen.to_be_bytes());
    src.extend_from_slice(units);
    src
}

#[test]
fn rle_decodes_each_prefix_kind() {
    // prefix 0: one pair; prefix 1: counted pairs; prefix 2: wide count.
    let src = rle_stream(12, &[0, 0xab, 0xcd, 1, 2, 0x11, 0x22, 2, 0x00, 0x03, 0x55, 0x66]);
    let mut dest = vec![0u8; 12];
    rle_decode(&mut dest, &src).unwrap();
    assert_eq!(
        dest,
        vec![0xab, 0xcd, 0x11, 0x22, 0x11, 0x22, 0x55, 0x66, 0x55, 0x66, 0x55, 0x66]
    );
}

#[test]
fn rle_skips_unknown_prefixes() {
    let src = rle_stream(2, &[9, 9, 0, 0xde, 0xad]);
    let mut dest = vec![0u8; 2];
    rle_decode(&mut dest, &src).unwrap();
    assert_eq!(dest, vec![0xde, 0xad]);
}

#[test]
fn rle_rejects_wrong_magic() {
    let mut src = rle_stream(2, &[0, 1, 2]);
    src[0] = b'X';
    let mut dest = vec![0u8; 2];
    assert!(matches!(rle_decode(&mut dest, &src), Err(RLEError::HeaderError)));
}

#[test]
fn rle_rejects_wrong_buffer_length() {
    let src = rle_stream(4, &[0, 1, 2]);
    let mut dest = vec![0u8; 2];
    assert!(matches!(rle_decode(&mut dest, &src), Err(RLEError::BufferMismatchError)));
}

#[test]
fn rle_rejects_unknown_unit_size() {
    let mut src = rle_stream(2, &[0, 1, 2]);
    src[3] = b'B';
    let mut dest = vec![0u8; 2];
    assert!(matches!(rle_decode(&mut dest, &src), Err(RLEError::UnsupportedUnitSizeError)));
}

#[test]
fn rle_rejects_truncated_and_overrunning_streams() {
    // A unit cut short.
    let src = rle_stream(4, &[0, 0xab]);
    let mut dest = vec![0u8; 4];
    assert!(matches!(rle_decode(&mut dest, &src), Err(RLEError::DecodeError)));
    // A run that overruns the output.
    let src = rle_stream(2, &[1, 5, 0xab, 0xcd]);
    let mut dest = vec![0u8; 2];
    assert!(matches!(rle_decode(&mut dest, &src), Err(RLEError::DecodeError)));
    // Input left over after the output is full.
    let src = rle_stream(2, &[0, 0xab, 0xcd, 0, 0x11, 0x22]);
    let mut dest = vec![0u8; 2];
    assert!(matches!(rle_decode(&mut dest, &src), Err(RLEError::DecodeError)));
}

#[test]
fn charge_animation_sweeps_from_the_true_charge() {
    // Steps within the animating half of the cycle, at ten percent charge.
    assert_eq!(charge_ani_frame(0, 10), 2);
    assert_eq!(charge_ani_frame(8, 10), 3);
    assert_eq!(charge_ani_frame(16, 10), 4);
    assert_eq!(charge_ani_frame(24, 10), 4);
    // The resting half shows the plain sprite.
    assert_eq!(charge_ani_frame(32, 10), 0);
    assert_eq!(charge_ani_frame(63, 10), 0);
    // A full battery shows the full sprite.
    assert_eq!(charge_ani_frame(0, 100), 5);
}

#[test]
fn glyphs_map_ascii_and_upper_range() {
    assert_eq!(glyph_index(0x20), 0);
    assert_eq!(glyph_index(b'A'), 0x21);
    assert_eq!(glyph_index(0x7f), 0x5f);
    assert_eq!(glyph_index(0xa0), 0x60);
    assert_eq!(glyph_index(0xff), 0xbf);
    // Below the printable range: the substitute glyph.
    assert_eq!(glyph_index(0x10), 0x5f);
    assert_eq!(glyph_index(0x80), 0x5f);
}
