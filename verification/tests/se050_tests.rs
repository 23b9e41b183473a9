use std::cell::RefCell;
use std::rc::Rc;
use stick_core::iso::Apdu;
use stick_core::se050::{check_select_response, se050_aid, Se050, Se050Error, Se050State};
use stick_core::t1::{AnswerToReset, DataLinkLayerParameters, I2CParameters,
    PhysicalLayerParameters, RApdu, T1Error, T1Proto};

fn fake_atr() -> AnswerToReset {
    AnswerToReset {
        protocol_version: 1,
        vendor_id: vec![0xa0, 0x00, 0x00, 0x03, 0x96],
        dllp: DataLinkLayerParameters { bwt_ms: 1000, ifsc: 254 },
        plp: PhysicalLayerParameters::I2C(I2CParameters {
            mcf: 1000,
            configuration: 0,
            mpot_ms: 1,
            rfu: vec![0, 0, 0],
            segt_us: 64,
            wut_us: 0,
        }),
        historical_bytes: vec![0; 32],
    }
}

/// A transport double: the soft reset and the one response APDU are scripted;
/// what was sent is kept for inspection through a shared log.
struct MockTransport {
    reset_fails: bool,
    response: Option<(Vec<u8>, u16)>,
    sent: Rc<RefCell<Vec<(u8, u8, u8, u8, Vec<u8>)>>>,
}

impl MockTransport {
    fn answering(data: Vec<u8>, sw: u16) -> Self {
        MockTransport { reset_fails: false, response: Some((data, sw)), sent: Rc::new(RefCell::new(Vec::new())) }
    }
}

impl T1Proto for MockTransport {
    fn send_apdu(&mut self, apdu: &Apdu) -> Result<(), T1Error> {
        self.sent.borrow_mut().push((apdu.cla.to_u8(), apdu.ins, apdu.p1, apdu.p2, apdu.data.clone()));
        Ok(())
    }

    fn receive_apdu(&mut self, _cap: usize) -> Result<RApdu, T1Error> {
        match self.response.take() {
            Some((data, sw)) => Ok(RApdu { data, sw }),
            None => Err(T1Error::ReceiveError),
        }
    }

    fn interface_soft_reset(&mut self) -> Result<AnswerToReset, T1Error> {
        if self.reset_fails {
            Err(T1Error::ProtocolError)
        } else {
            Ok(fake_atr())
        }
    }
}

#[test]
fn enable_with_not_found_select_fails_and_caches_nothing() {
    let transport = MockTransport::answering(vec![], 0x6a82);
    let mut se = Se050::new(transport);
    assert_eq!(se.enable().unwrap_err(), Se050Error::UnknownError);
    assert!(se.app_info().is_none());
    assert_eq!(se.state(), Se050State::Disabled);
}

#[test]
fn enable_with_short_payload_fails() {
    let transport = MockTransport::answering(vec![1, 2, 3], 0x9000);
    let mut se = Se050::new(transport);
    assert!(se.enable().is_err());
    assert!(se.app_info().is_none());
}

#[test]
fn enable_with_failing_reset_fails_before_selecting() {
    let mut transport = MockTransport::answering(vec![0; 7], 0x9000);
    transport.reset_fails = true;
    let mut se = Se050::new(transport);
    assert!(se.enable().is_err());
    assert!(se.app_info().is_none());
    assert!(se.atr_info().is_none());
}

#[test]
fn enable_selects_the_applet_and_parses_its_announcement() {
    // applet 3.1.1, feature bits 0x0102, securebox 0x070b.
    let transport = MockTransport::answering(vec![0x03, 0x01, 0x01, 0x01, 0x02, 0x07, 0x0b], 0x9000);
    let mut se = Se050::new(transport);
    assert!(se.enable().is_ok());
    assert_eq!(se.state(), Se050State::Enabled);
    let info = se.app_info().unwrap();
    assert_eq!(info.applet_version, 0x030101);
    assert_eq!(info.features, 0x0102);
    assert_eq!(info.securebox_version, 0x070b);
    assert!(se.atr_info().is_some());
}

#[test]
fn enable_sends_select_by_name_with_the_se050_aid() {
    let transport = MockTransport::answering(vec![0; 7], 0x9000);
    let log = transport.sent.clone();
    let mut se = Se050::new(transport);
    se.enable().unwrap();
    let expected_aid = vec![
        0xa0, 0x00, 0x00, 0x03, 0x96, 0x54, 0x53, 0x00, 0x00, 0x00, 0x01, 0x03, 0x00, 0x00, 0x00,
        0x00,
    ];
    assert_eq!(se050_aid(), expected_aid);
    // One APDU went down: CLA plain, select-file, select by name, with the
    // fixed applet identifier as its data field.
    let sent = log.borrow();
    assert_eq!(sent.len(), 1);
    assert_eq!(sent[0], (0x00, 0xa4, 0x04, 0x00, expected_aid));
}

#[test]
fn disable_returns_to_disabled_and_drops_caches() {
    let transport = MockTransport::answering(vec![0; 7], 0x9000);
    let mut se = Se050::new(transport);
    se.enable().unwrap();
    se.disable();
    assert_eq!(se.state(), Se050State::Disabled);
    assert!(se.app_info().is_none());
    assert!(se.atr_info().is_none());
}

#[test]
fn check_select_response_parses_exact_fields() {
    let ra = RApdu { data: vec![0x12, 0x34, 0x56, 0xab, 0xcd, 0x09, 0x08], sw: 0x9000 };
    let info = check_select_response(&ra).unwrap();
    assert_eq!(info.applet_version, 0x123456);
    assert_eq!(info.features, 0xabcd);
    assert_eq!(info.securebox_version, 0x0908);
}

#[test]
fn check_select_response_rejects_wrong_sw_and_wrong_length() {
    let ra = RApdu { data: vec![0; 7], sw: 0x6a82 };
    assert_eq!(check_select_response(&ra).unwrap_err(), Se050Error::UnknownError);
    let ra = RApdu { data: vec![0; 6], sw: 0x9000 };
    assert!(check_select_response(&ra).is_err());
    let ra = RApdu { data: vec![0; 8], sw: 0x9000 };
    assert!(check_select_response(&ra).is_err());
}
