//! Session layer for the SE050 secure element: sequences transport calls
//! into enable/disable semantics, caches the answer to reset, and parses the
//! applet's version announcement out of the select response.

use vstd::prelude::*;

use crate::bytes::{get_u16_be, get_u24_be, spec_u16_be, spec_u24_be};
use crate::iso::{Apdu, ApduClass};
use crate::t1::{AnswerToReset, RApdu, T1Proto};
use vstd::slice::slice_subrange;

verus! {

/// The one failure kind the session layer reports. The richer taxonomy
/// stays visible at the transport; this layer deliberately collapses every
/// cause into one kind, a known coarseness of its interface.
#[derive(Clone, Copy, Debug, PartialEq, Eq, Structural)]
pub enum Se050Error {
    UnknownError,
}

/// Instruction characteristic flag: transient object handling.
pub const APDU_INSTRUCTION_TRANSIENT: u8 = 0x80;

/// Instruction characteristic flag: operate on an auth object.
pub const APDU_INSTRUCTION_AUTH_OBJECT: u8 = 0x40;

/// Instruction characteristic flag: request attestation.
pub const APDU_INSTRUCTION_ATTEST: u8 = 0x20;

/// SE050 applet instructions (the low five bits of INS).
#[derive(Clone, Copy, Debug, PartialEq, Eq, Structural)]
pub enum Se050ApduInstruction {
    Write,
    Read,
    Crypto,
    Mgmt,
    Process,
    ImportExternal,
}

/// Key-type half of the P1 parameter of the SE050 applet.
#[derive(Clone, Copy, Debug, PartialEq, Eq, Structural)]
pub enum Se050ApduP1KeyType {
    KeyPair,
    PrivateKey,
    PublicKey,
}

/// Credential-type half of the P1 parameter of the SE050 applet.
#[derive(Clone, Copy, Debug, PartialEq, Eq, Structural)]
pub enum Se050ApduP1CredType {
    Default,
    EC,
    RSA,
    AES,
    DES,
    HMAC,
    Binary,
    UserID,
    Counter,
    PCR,
    Curve,
    Signature,
    MAC,
    Cipher,
    TLS,
    CryptoObj,
}

/// The P2 parameter values of the SE050 applet.
#[allow(non_camel_case_types)]
#[derive(Clone, Copy, Debug, PartialEq, Eq, Structural)]
pub enum Se050ApduP2 {
    Default,
    Generate,
    Create,
    Size,
    Sign,
    Verify,
    Init,
    Update,
    Final,
    Oneshot,
    DH,
    Diversify,
    AuthFirstPart2,
    AuthNonfirstPart2,
    DumpKey,
    ChangeKeyPart1,
    ChangeKeyPart2,
    KillAuth,
    Import,
    Export,
    SessionCreate,
    SessionClose,
    SessionRefresh,
    SessionPolicy,
    Version,
    Memory,
    List,
    Type,
    Exist,
    DeleteObject,
    DeleteAll,
    SessionUserID,
    HKDF,
    PBKDF,
    I2CM,
    I2CMAttested,
    MAC,
    UnlockChallenge,
    CurveList,
    SignECDAA,
    ID,
    EncryptOneshot,
    DecryptOneshot,
    Attest,
    Attributes,
    CPLC,
    Time,
    Transport,
    Variant,
    Param,
    DeleteCurve,
    Encrypt,
    Decrypt,
    Validate,
    GenerateOneshot,
    ValidateOneshot,
    CryptoList,
    Random,
    TLS_PMS,
    TLS_PRF_CLI_Hello,
    TLS_PRF_SRV_Hello,
    TLS_PRF_CLI_RND,
    TLS_PRF_SRV_RND,
    RAW,
    ImportExt,
    SCP,
    AuthFirstPart1,
    AuthNonfirstPart1,
}

/// Secure-object types stored by the SE050 applet.
#[derive(Clone, Copy, Debug, PartialEq, Eq, Structural)]
pub enum Se050ApduSecObjType {
    ECKeyPair,
    ECPrivKey,
    ECPubKey,
    RSAKeyPair,
    RSAKeyPairCRT,
    RSAPrivKey,
    RSAPrivKeyCRT,
    RSAPubKey,
    AESKey,
    DESKey,
    BinaryFile,
    UserID,
    Counter,
    PCR,
    Curve,
    HMACKey,
}

/// Memory classes a secure object can live in.
#[derive(Clone, Copy, Debug, PartialEq, Eq, Structural)]
pub enum Se050ApduMemoryType {
    Persistent,
    TransientReset,
    TransientDeselect,
}

/// Where a secure object came from.
#[derive(Clone, Copy, Debug, PartialEq, Eq, Structural)]
pub enum Se050ApduObjectOrigin {
    External,
    Internal,
    Provisioned,
}

/// Tags of the TLV-encoded fields in SE050 applet command payloads.
#[derive(Clone, Copy, Debug, PartialEq, Eq, Structural)]
pub enum Se050TlvTag {
    SessionID,
    Policy,
    MaxAttempts,
    ImportAuthData,
    ImportAuthKeyID,
    Tag1,
    Tag2,
    Tag3,
    Tag4,
    Tag5,
    Tag6,
    Tag7,
    Tag8,
    Tag9,
    Tag10,
}

/// The applet's version announcement, parsed from the seven-byte select
/// response.
#[derive(Clone, Copy, Debug, PartialEq, Eq, Structural)]
pub struct Se050AppInfo {
    pub applet_version: u32,
    pub features: u16,
    pub securebox_version: u16,
}

/// The session state machine; the transitional phases of an enable or
/// disable live only inside the call.
#[derive(Clone, Copy, Debug, PartialEq, Eq, Structural)]
pub enum Se050State {
    Disabled,
    Enabled,
}

/// INS byte of the interindustry select-file command.
pub const INS_SELECT_FILE: u8 = 0xA4;

/// The applet identifier the SE050 select is addressed to.
pub fn se050_aid() -> (r: Vec<u8>)
    ensures
        r@ == spec_se050_aid(),
{
    let mut aid: Vec<u8> = Vec::new();
    aid.push(0xA0);
    aid.push(0x00);
    aid.push(0x00);
    aid.push(0x03);
    aid.push(0x96);
    aid.push(0x54);
    aid.push(0x53);
    aid.push(0x00);
    aid.push(0x00);
    aid.push(0x00);
    aid.push(0x01);
    aid.push(0x03);
    aid.push(0x00);
    aid.push(0x00);
    aid.push(0x00);
    aid.push(0x00);
    proof {
        assert(aid@ =~= spec_se050_aid());
    }
    aid
}

/// The sixteen bytes of the SE050 applet identifier.
pub open spec fn spec_se050_aid() -> Seq<u8> {
    seq![
        0xA0u8,
        0x00,
        0x00,
        0x03,
        0x96,
        0x54,
        0x53,
        0x00,
        0x00,
        0x00,
        0x01,
        0x03,
        0x00,
        0x00,
        0x00,
        0x00,
    ]
}

/// Reads the applet version announcement out of a select response: the
/// status word must be 0x9000 and the payload exactly seven bytes — a 24-bit
/// applet version, 16 feature bits and a 16-bit securebox version, all
/// big-endian. Any other shape is the one coarse session failure.
pub fn check_select_response(rapdu: &RApdu) -> (r: Result<Se050AppInfo, Se050Error>)
    ensures
        match r {
            Ok(info) => {
                &&& rapdu.sw == 0x9000
                &&& rapdu.data@.len() == 7
                &&& info.applet_version == spec_u24_be(
                    rapdu.data@[0],
                    rapdu.data@[1],
                    rapdu.data@[2],
                )
                &&& info.features == spec_u16_be(rapdu.data@[3], rapdu.data@[4])
                &&& info.securebox_version == spec_u16_be(rapdu.data@[5], rapdu.data@[6])
            },
            Err(e) => e == Se050Error::UnknownError && !(rapdu.sw == 0x9000 && rapdu.data@.len()
                == 7),
        },
{
    if rapdu.sw != 0x9000 || rapdu.data.len() != 7 {
        return Err(Se050Error::UnknownError);
    }
    Ok(
        Se050AppInfo {
            applet_version: get_u24_be(slice_subrange(rapdu.data.as_slice(), 0, 3)),
            features: get_u16_be(slice_subrange(rapdu.data.as_slice(), 3, 5)),
            securebox_version: get_u16_be(slice_subrange(rapdu.data.as_slice(), 5, 7)),
        },
    )
}

/// The SE050 session layer over one exclusively owned T=1 transport.
pub struct Se050<T: T1Proto> {
    t1_proto: T,
    atr_info: Option<AnswerToReset>,
    app_info: Option<Se050AppInfo>,
    state: Se050State,
}

impl<T: T1Proto> Se050<T> {
    /// Takes ownership of the transport; the session starts disabled with
    /// nothing cached.
    pub fn new(t1: T) -> (r: Se050<T>)
        ensures
            r.spec_state() == Se050State::Disabled,
            r.spec_app_info() is None,
            r.spec_atr_info() is None,
    {
        Se050 { t1_proto: t1, atr_info: None, app_info: None, state: Se050State::Disabled }
    }

    /// Where the session state machine stands.
    pub closed spec fn spec_state(self) -> Se050State {
        self.state
    }

    /// The cached applet version announcement.
    pub closed spec fn spec_app_info(self) -> Option<Se050AppInfo> {
        self.app_info
    }

    /// The cached answer to reset.
    pub closed spec fn spec_atr_info(self) -> Option<AnswerToReset> {
        self.atr_info
    }

    /// Where the session state machine stands.
    pub fn state(&self) -> (r: Se050State)
        ensures
            r == self.spec_state(),
    {
        self.state
    }

    /// The cached applet version announcement.
    pub fn app_info(&self) -> (r: &Option<Se050AppInfo>)
        ensures
            *r == self.spec_app_info(),
    {
        &self.app_info
    }

    /// The cached answer to reset.
    pub fn atr_info(&self) -> (r: &Option<AnswerToReset>)
        ensures
            *r == self.spec_atr_info(),
    {
        &self.atr_info
    }

    /// Brings the session up: resets the interface and caches the answer to
    /// reset, then selects the SE050 applet by its identifier and caches the
    /// version announcement out of the seven-byte select response. Every
    /// failure cause — transport error, wrong status word, wrong payload
    /// length — is reported as the one coarse session error; a failed enable
    /// leaves the session disabled and the cached announcement as it was.
    pub fn enable(&mut self) -> (r: Result<(), Se050Error>)
        ensures
            match r {
                Ok(()) => {
                    &&& final(self).spec_state() == Se050State::Enabled
                    &&& final(self).spec_app_info() is Some
                    &&& final(self).spec_atr_info() is Some
                },
                Err(e) => {
                    &&& e == Se050Error::UnknownError
                    &&& final(self).spec_state() == Se050State::Disabled
                    &&& final(self).spec_app_info() == old(self).spec_app_info()
                },
            },
    {
        self.state = Se050State::Disabled;
        let atr = match self.t1_proto.interface_soft_reset() {
            Ok(a) => a,
            Err(_) => {
                return Err(Se050Error::UnknownError);
            },
        };
        self.atr_info = Some(atr);
        let select = Apdu {
            cla: ApduClass::StandardPlain,
            ins: INS_SELECT_FILE,
            p1: 0x04,
            p2: 0x00,
            data: se050_aid(),
            le: 0,
        };
        match self.t1_proto.send_apdu(&select) {
            Ok(()) => (),
            Err(_) => {
                return Err(Se050Error::UnknownError);
            },
        }
        let rapdu = match self.t1_proto.receive_apdu(9) {
            Ok(ra) => ra,
            Err(_) => {
                return Err(Se050Error::UnknownError);
            },
        };
        let info = match check_select_response(&rapdu) {
            Ok(i) => i,
            Err(e) => {
                return Err(e);
            },
        };
        self.app_info = Some(info);
        self.state = Se050State::Enabled;
        Ok(())
    }

    /// Tears the session down: the state machine returns to disabled and the
    /// cached answer to reset and version announcement are dropped. Ending
    /// the link session on the wire and powering the bus down belong to the
    /// owner of the bus.
    pub fn disable(&mut self)
        ensures
            final(self).spec_state() == Se050State::Disabled,
            final(self).spec_app_info() is None,
            final(self).spec_atr_info() is None,
    {
        self.app_info = None;
        self.atr_info = None;
        self.state = Se050State::Disabled;
    }
}

} // verus!
