use std::cell::RefCell;
use std::rc::Rc;
use stick_core::crc::crc16_ccitt_oneshot;
use stick_core::iso::{Apdu, ApduClass};
use stick_core::t1::{build_block, parse_atr, I2CBus, T1Error, T1Proto, T1SCode, T1overI2C,
    PhysicalLayerParameters};

struct BusState {
    reads: Vec<Vec<u8>>,
    next_read: usize,
    writes: Vec<(u8, Vec<u8>)>,
    fail_write: bool,
}

/// A scripted bus: reads come from a prepared list, writes are logged. The
/// test keeps a cloned handle to inspect the log after the transport took
/// the bus over.
#[derive(Clone)]
struct ScriptedBus(Rc<RefCell<BusState>>);

impl ScriptedBus {
    fn new(reads: Vec<Vec<u8>>) -> Self {
        ScriptedBus(Rc::new(RefCell::new(BusState {
            reads,
            next_read: 0,
            writes: Vec::new(),
            fail_write: false,
        })))
    }

    fn writes(&self) -> Vec<(u8, Vec<u8>)> {
        self.0.borrow().writes.clone()
    }

    fn set_fail_write(&self) {
        self.0.borrow_mut().fail_write = true;
    }
}

impl I2CBus for ScriptedBus {
    fn bus_write(&mut self, addr: u8, data: &[u8]) -> Result<(), ()> {
        let mut st = self.0.borrow_mut();
        if st.fail_write {
            return Err(());
        }
        st.writes.push((addr, data.to_vec()));
        Ok(())
    }

    fn bus_read(&mut self, _addr: u8, len: usize) -> Result<Vec<u8>, ()> {
        let mut st = self.0.borrow_mut();
        if st.next_read >= st.reads.len() {
            return Err(());
        }
        let entry = st.reads[st.next_read].clone();
        st.next_read += 1;
        assert_eq!(entry.len(), len, "script entry does not match requested read length");
        Ok(entry)
    }
}

/// A block as the secure element would send it: header, then payload with
/// the checksum over header and payload appended little-endian.
fn framed(nad: u8, pcb: u8, inf: &[u8]) -> (Vec<u8>, Vec<u8>) {
    let hdr = vec![nad, pcb, inf.len() as u8];
    let mut whole = hdr.clone();
    whole.extend_from_slice(inf);
    let crc = crc16_ccitt_oneshot(&whole);
    let mut body = inf.to_vec();
    body.push((crc & 0xff) as u8);
    body.push((crc >> 8) as u8);
    (hdr, body)
}

fn sample_atr() -> Vec<u8> {
    let mut atr = vec![0u8; 57];
    atr[0] = 0x01;
    atr[1..6].copy_from_slice(&[0xa0, 0x00, 0x00, 0x03, 0x96]);
    atr[6] = 4;
    atr[7] = 0x03; // BWT 1000 ms
    atr[8] = 0xe8;
    atr[9] = 0x00; // IFSC 254
    atr[10] = 0xfe;
    atr[11] = 2;
    atr[12] = 11;
    atr[13] = 0x03; // MCF 1000
    atr[14] = 0xe8;
    atr[15] = 0x05; // configuration
    atr[16] = 0x01; // MPOT 1 ms
    atr[17] = 0;
    atr[18] = 0;
    atr[19] = 0;
    atr[20] = 0x00; // SEGT 64 us
    atr[21] = 0x40;
    atr[22] = 0x00; // WUT 10 us
    atr[23] = 0x0a;
    atr[24] = 0x20; // historical length
    for i in 25..57 {
        atr[i] = (0x30 + (i - 25)) as u8;
    }
    atr
}

#[test]
fn soft_reset_sends_the_documented_request_frame() {
    let (hdr, body) = framed(0xa5, 0xef, &sample_atr());
    let bus = ScriptedBus::new(vec![hdr, body]);
    let log = bus.clone();
    let mut t1 = T1overI2C::new(bus, 0x48, 0x5a);
    assert!(t1.interface_soft_reset().is_ok());
    // The interface-soft-reset request on the wire: 5a cf 00 37 7f.
    assert_eq!(log.writes(), vec![(0x48, vec![0x5a, 0xcf, 0x00, 0x37, 0x7f])]);
}

#[test]
fn soft_reset_parses_every_atr_field() {
    let atr_bytes = sample_atr();
    let (hdr, body) = framed(0xa5, 0xef, &atr_bytes);
    let bus = ScriptedBus::new(vec![hdr, body]);
    let mut t1 = T1overI2C::new(bus, 0x48, 0x5a);
    let atr = t1.interface_soft_reset().unwrap();
    assert_eq!(atr.protocol_version, 0x01);
    assert_eq!(atr.vendor_id, vec![0xa0, 0x00, 0x00, 0x03, 0x96]);
    assert_eq!(atr.dllp.bwt_ms, 1000);
    assert_eq!(atr.dllp.ifsc, 254);
    let PhysicalLayerParameters::I2C(p) = atr.plp;
    assert_eq!(p.mcf, 1000);
    assert_eq!(p.configuration, 0x05);
    assert_eq!(p.mpot_ms, 0x01);
    assert_eq!(p.rfu, vec![0, 0, 0]);
    assert_eq!(p.segt_us, 64);
    assert_eq!(p.wut_us, 10);
    assert_eq!(atr.historical_bytes, atr_bytes[25..57].to_vec());
}

#[test]
fn soft_reset_rejects_wrong_dllp_length() {
    let mut atr_bytes = sample_atr();
    atr_bytes[6] = 5;
    let (hdr, body) = framed(0xa5, 0xef, &atr_bytes);
    let bus = ScriptedBus::new(vec![hdr, body]);
    let mut t1 = T1overI2C::new(bus, 0x48, 0x5a);
    assert_eq!(t1.interface_soft_reset().unwrap_err(), T1Error::ProtocolError);
}

#[test]
fn parse_atr_rejects_wrong_physical_layer() {
    let mut atr_bytes = sample_atr();
    atr_bytes[11] = 1;
    assert_eq!(parse_atr(&atr_bytes).unwrap_err(), T1Error::ProtocolError);
    let mut atr_bytes = sample_atr();
    atr_bytes[12] = 10;
    assert_eq!(parse_atr(&atr_bytes).unwrap_err(), T1Error::ProtocolError);
}

#[test]
fn receive_s_surfaces_corrupt_checksum() {
    let atr_bytes = sample_atr();
    let (hdr, mut body) = framed(0xa5, 0xef, &atr_bytes);
    let n = body.len();
    body[n - 1] ^= 0xff;
    let bus = ScriptedBus::new(vec![hdr, body]);
    let mut t1 = T1overI2C::new(bus, 0x48, 0x5a);
    assert_eq!(t1.interface_soft_reset().unwrap_err(), T1Error::ChecksumError);
}

#[test]
fn receive_s_surfaces_peer_r_block() {
    // The documented error response: a5 82 00 da 4f.
    let (hdr, body) = framed(0xa5, 0x82, &[]);
    assert_eq!(hdr, vec![0xa5, 0x82, 0x00]);
    assert_eq!(body, vec![0xda, 0x4f]);
    let bus = ScriptedBus::new(vec![hdr, body]);
    let mut t1 = T1overI2C::new(bus, 0x48, 0x5a);
    assert_eq!(t1.interface_soft_reset().unwrap_err(), T1Error::RCodeReceived(0x82));
}

#[test]
fn receive_s_rejects_wrong_node_address() {
    let (hdr, body) = framed(0x77, 0xef, &sample_atr());
    let bus = ScriptedBus::new(vec![hdr, body]);
    let mut t1 = T1overI2C::new(bus, 0x48, 0x5a);
    assert_eq!(t1.interface_soft_reset().unwrap_err(), T1Error::ProtocolError);
}

#[test]
fn transmit_failure_is_surfaced() {
    let bus = ScriptedBus::new(vec![]);
    bus.set_fail_write();
    let mut t1 = T1overI2C::new(bus, 0x48, 0x5a);
    assert_eq!(t1.interface_soft_reset().unwrap_err(), T1Error::TransmitError);
}

#[test]
fn build_block_matches_documented_frames() {
    assert_eq!(build_block(0x5a, 0xcf, &[]), vec![0x5a, 0xcf, 0x00, 0x37, 0x7f]);
    assert_eq!(build_block(0xa5, 0x82, &[]), vec![0xa5, 0x82, 0x00, 0xda, 0x4f]);
}

#[test]
fn s_code_bytes_round_trip() {
    for (code, value) in [
        (T1SCode::Resync, 0u8),
        (T1SCode::IFS, 1),
        (T1SCode::Abort, 2),
        (T1SCode::WTX, 3),
        (T1SCode::EndApduSession, 5),
        (T1SCode::ChipReset, 6),
        (T1SCode::GetATR, 7),
        (T1SCode::InterfaceSoftReset, 15),
    ] {
        assert_eq!(code.to_u8(), value);
        assert_eq!(T1SCode::try_from_u8(value).unwrap(), code);
    }
    assert!(T1SCode::try_from_u8(4).is_err());
    assert!(T1SCode::try_from_u8(16).is_err());
}

fn select_apdu() -> Apdu {
    Apdu {
        cla: ApduClass::StandardPlain,
        ins: 0xa4,
        p1: 0x04,
        p2: 0x00,
        data: vec![0x01, 0x02, 0x03],
        le: 0,
    }
}

#[test]
fn send_apdu_frames_one_unchained_i_block() {
    let (hdr, body) = framed(0xa5, 0x00, &[0x90, 0x00]);
    let bus = ScriptedBus::new(vec![hdr, body]);
    let log = bus.clone();
    let mut t1 = T1overI2C::new(bus, 0x48, 0x5a);
    t1.send_apdu(&select_apdu()).unwrap();
    // One I-block, N(S)=0, no more-data bit, holding the APDU bytes.
    let expected = build_block(0x5a, 0x00, &[0x00, 0xa4, 0x04, 0x00, 0x03, 0x01, 0x02, 0x03]);
    assert_eq!(log.writes(), vec![(0x48, expected)]);
    // After one received response the send sequence number has toggled.
    let _ = t1.receive_apdu(16).unwrap();
    t1.send_apdu(&select_apdu()).unwrap();
    let second = build_block(0x5a, 0x40, &[0x00, 0xa4, 0x04, 0x00, 0x03, 0x01, 0x02, 0x03]);
    assert_eq!(log.writes()[1], (0x48, second));
}

#[test]
fn send_apdu_chains_oversized_payloads_with_the_more_bit() {
    // 300 wire bytes force two I-blocks; the peer acknowledges the first
    // with an R-block naming the next send sequence number.
    let ack = build_block(0xa5, 0x90, &[]);
    let bus = ScriptedBus::new(vec![ack[0..3].to_vec(), ack[3..5].to_vec()]);
    let log = bus.clone();
    let mut t1 = T1overI2C::new(bus, 0x48, 0x5a);
    let apdu = Apdu {
        cla: ApduClass::StandardPlain,
        ins: 0x10,
        p1: 0,
        p2: 0,
        data: (0..255u16).map(|i| i as u8).collect(),
        le: 0,
    };
    t1.send_apdu(&apdu).unwrap();
    let writes = log.writes();
    assert_eq!(writes.len(), 2);
    // First chunk: N(S)=0 with the more-data bit, 254 information bytes.
    let mut wire = vec![0x00, 0x10, 0x00, 0x00, 255];
    wire.extend((0..255u16).map(|i| i as u8));
    assert_eq!(writes[0].1, build_block(0x5a, 0x20, &wire[0..254]));
    // Second chunk: N(S)=1, last block.
    assert_eq!(writes[1].1, build_block(0x5a, 0x40, &wire[254..]));
}

#[test]
fn receive_apdu_acknowledges_chained_blocks() {
    let (hdr1, body1) = framed(0xa5, 0x20, &[0x01, 0x02]);
    let (hdr2, body2) = framed(0xa5, 0x40, &[0x03, 0x90, 0x00]);
    let bus = ScriptedBus::new(vec![hdr1, body1, hdr2, body2]);
    let log = bus.clone();
    let mut t1 = T1overI2C::new(bus, 0x48, 0x5a);
    let ra = t1.receive_apdu(16).unwrap();
    assert_eq!(ra.data, vec![0x01, 0x02, 0x03]);
    // The transport acknowledged the chained block with R(1).
    assert_eq!(log.writes(), vec![(0x48, build_block(0x5a, 0x90, &[]))]);
}

#[test]
fn receive_apdu_returns_data_and_status_word() {
    let (hdr, body) = framed(0xa5, 0x00, &[0x11, 0x22, 0x90, 0x00]);
    let bus = ScriptedBus::new(vec![hdr, body]);
    let mut t1 = T1overI2C::new(bus, 0x48, 0x5a);
    let ra = t1.receive_apdu(16).unwrap();
    assert_eq!(ra.data, vec![0x11, 0x22]);
    assert_eq!(ra.sw, 0x9000);
}

#[test]
fn receive_apdu_answers_wtx_and_keeps_waiting() {
    let (wtx_hdr, wtx_body) = framed(0xa5, 0xc3, &[0x01]);
    let (hdr, body) = framed(0xa5, 0x00, &[0x77, 0x61, 0x10]);
    let bus = ScriptedBus::new(vec![wtx_hdr, wtx_body, hdr, body]);
    let log = bus.clone();
    let mut t1 = T1overI2C::new(bus, 0x48, 0x5a);
    let ra = t1.receive_apdu(16).unwrap();
    assert_eq!(ra.data, vec![0x77]);
    assert_eq!(ra.sw, 0x6110);
    // The wait-time extension was answered at once, echoing its payload.
    assert_eq!(log.writes(), vec![(0x48, build_block(0x5a, 0xe3, &[0x01]))]);
}

#[test]
fn receive_apdu_assembles_chained_i_blocks() {
    // First I-block: N(S)=0, more-data set; the transport must acknowledge
    // with an R-block naming N(R)=1; then the final block with N(S)=1.
    let (hdr1, body1) = framed(0xa5, 0x20, &[0x01, 0x02]);
    let (hdr2, body2) = framed(0xa5, 0x40, &[0x03, 0x90, 0x00]);
    let bus = ScriptedBus::new(vec![hdr1, body1, hdr2, body2]);
    let mut t1 = T1overI2C::new(bus, 0x48, 0x5a);
    let ra = t1.receive_apdu(16).unwrap();
    assert_eq!(ra.data, vec![0x01, 0x02, 0x03]);
    assert_eq!(ra.sw, 0x9000);
}

#[test]
fn receive_apdu_rejects_wrong_sequence_number() {
    let (hdr, body) = framed(0xa5, 0x40, &[0x90, 0x00]);
    let bus = ScriptedBus::new(vec![hdr, body]);
    let mut t1 = T1overI2C::new(bus, 0x48, 0x5a);
    assert_eq!(t1.receive_apdu(16).unwrap_err(), T1Error::ProtocolError);
}

#[test]
fn receive_apdu_overrun_names_the_declared_length() {
    let inf: Vec<u8> = (0..20).collect();
    let (hdr, body) = framed(0xa5, 0x00, &inf);
    let bus = ScriptedBus::new(vec![hdr, body]);
    let mut t1 = T1overI2C::new(bus, 0x48, 0x5a);
    assert_eq!(t1.receive_apdu(10).unwrap_err(), T1Error::BufferOverrunError(20));
}
