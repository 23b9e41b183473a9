use stick_core::crc::{crc16_ccitt_final, crc16_ccitt_init, crc16_ccitt_oneshot,
    crc16_ccitt_update};

/// Reference CRC16/X.25: a table built from the reflected polynomial 0x8408,
/// applied byte by byte, init 0xFFFF, final XOR 0xFFFF.
fn reference_table() -> Vec<u16> {
    let mut table = Vec::with_capacity(256);
    for b in 0..256u16 {
        let mut v = b;
        for _ in 0..8 {
            v = if v & 1 == 1 { (v >> 1) ^ 0x8408 } else { v >> 1 };
        }
        table.push(v);
    }
    table
}

fn reference_crc(buf: &[u8]) -> u16 {
    let table = reference_table();
    let mut crc: u16 = 0xffff;
    for &byte in buf {
        let idx = ((crc ^ (byte as u16)) & 0xff) as usize;
        crc = (crc >> 8) ^ table[idx];
    }
    crc ^ 0xffff
}

#[test]
fn crc_matches_reference_on_empty() {
    assert_eq!(crc16_ccitt_oneshot(&[]), reference_crc(&[]));
}

#[test]
fn crc_matches_reference_on_one_zero_byte() {
    assert_eq!(crc16_ccitt_oneshot(&[0x00]), reference_crc(&[0x00]));
}

#[test]
fn crc_matches_reference_on_sixteen_ff() {
    let buf = [0xffu8; 16];
    assert_eq!(crc16_ccitt_oneshot(&buf), reference_crc(&buf));
}

#[test]
fn crc_matches_reference_on_260_byte_sequence() {
    let mut buf = Vec::new();
    for i in 0..260u32 {
        buf.push((i.wrapping_mul(31).wrapping_add(i >> 3)) as u8);
    }
    assert_eq!(crc16_ccitt_oneshot(&buf), reference_crc(&buf));
}

#[test]
fn crc_known_answer_check_string() {
    // The standard check value of CRC-16/X-25.
    assert_eq!(crc16_ccitt_oneshot(b"123456789"), 0x906e);
}

#[test]
fn crc_oneshot_is_init_update_final() {
    let buf = [0x5a, 0xcf, 0x00, 0x12, 0x34];
    let mut crc = crc16_ccitt_init();
    crc = crc16_ccitt_update(crc, &buf);
    assert_eq!(crc16_ccitt_final(crc), crc16_ccitt_oneshot(&buf));
}

#[test]
fn crc_update_composes_over_split_input() {
    let buf: Vec<u8> = (0u16..200).map(|i| (i * 7) as u8).collect();
    for split in [0, 1, 13, 199, 200] {
        let (a, b) = buf.split_at(split);
        let mut crc = crc16_ccitt_init();
        crc = crc16_ccitt_update(crc, a);
        crc = crc16_ccitt_update(crc, b);
        assert_eq!(crc16_ccitt_final(crc), crc16_ccitt_oneshot(&buf));
    }
}

#[test]
fn crc_of_reset_request_frame_header() {
    // The interface-soft-reset request on the wire is 5a cf 00 37 7f: the
    // checksum of the three header bytes is 0x7f37, sent little-endian.
    assert_eq!(crc16_ccitt_oneshot(&[0x5a, 0xcf, 0x00]), 0x7f37);
}
