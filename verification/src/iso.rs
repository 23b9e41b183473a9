//! ISO7816-level data model for talking to the secure element: APDU classes,
//! instruction codes, parameter encodings, and the TLV-tagged payload types.

use vstd::prelude::*;

verus! {

/// Error of the ISO7816 value conversions: the byte encodes no known variant.
#[derive(Clone, Copy, Debug, PartialEq, Eq, Structural)]
pub enum Iso7816Error {
    ValueError,
}

/// APDU class byte values used towards the secure element.
#[derive(Clone, Copy, Debug, PartialEq, Eq, Structural)]
pub enum ApduClass {
    /// Plain interindustry class, no secure messaging: byte 0x00.
    StandardPlain,
    /// Proprietary class, plain: byte 0x80.
    Standard,
    /// Proprietary class with secure messaging: byte 0x84.
    ProprietarySecure,
}

/// The class byte each [`ApduClass`] variant stands for.
pub open spec fn spec_apdu_class_byte(cla: ApduClass) -> u8 {
    match cla {
        ApduClass::StandardPlain => 0x00,
        ApduClass::Standard => 0x80,
        ApduClass::ProprietarySecure => 0x84,
    }
}

impl ApduClass {
    /// The class byte this variant stands for.
    pub fn to_u8(self) -> (r: u8)
        ensures
            r == spec_apdu_class_byte(self),
    {
        match self {
            ApduClass::StandardPlain => 0x00,
            ApduClass::Standard => 0x80,
            ApduClass::ProprietarySecure => 0x84,
        }
    }
}

/// Instruction characteristic flag: transient object handling.
pub const APDU_INSTRUCTION_TRANSIENT: u8 = 0x80;

/// Instruction characteristic flag: operate on an auth object.
pub const APDU_INSTRUCTION_AUTH_OBJECT: u8 = 0x40;

/// Instruction characteristic flag: request attestation.
pub const APDU_INSTRUCTION_ATTEST: u8 = 0x20;

/// Secure-element applet instructions (the low five bits of INS).
#[derive(Clone, Copy, Debug, PartialEq, Eq, Structural)]
pub enum ApduInstruction {
    Write,
    Read,
    Crypto,
    Mgmt,
    Process,
    ImportExternal,
}

/// The INS code each [`ApduInstruction`] variant stands for.
pub open spec fn spec_apdu_instruction_byte(ins: ApduInstruction) -> u8 {
    match ins {
        ApduInstruction::Write => 0x01,
        ApduInstruction::Read => 0x02,
        ApduInstruction::Crypto => 0x03,
        ApduInstruction::Mgmt => 0x04,
        ApduInstruction::Process => 0x05,
        ApduInstruction::ImportExternal => 0x06,
    }
}

impl ApduInstruction {
    /// Reads the instruction out of an INS byte, ignoring the three
    /// characteristic flag bits.
    pub fn try_from_u8(value: u8) -> (r: Result<Self, Iso7816Error>)
        ensures
            match r {
                Ok(ins) => spec_apdu_instruction_byte(ins) == value & 0x1f,
                Err(e) => e == Iso7816Error::ValueError && !(1 <= value & 0x1f <= 6),
            },
    {
        proof {
            assert(value & 0x1f < 0x20) by (bit_vector);
        }
        match value & 0x1f_u8 {
            0x01 => Ok(Self::Write),
            0x02 => Ok(Self::Read),
            0x03 => Ok(Self::Crypto),
            0x04 => Ok(Self::Mgmt),
            0x05 => Ok(Self::Process),
            0x06 => Ok(Self::ImportExternal),
            _ => Err(Iso7816Error::ValueError),
        }
    }
}

/// Key-type half of the P1 parameter.
#[derive(Clone, Copy, Debug, PartialEq, Eq, Structural)]
pub enum ApduP1KeyType {
    KeyPair,
    PrivateKey,
    PublicKey,
}

/// The P1 bits each [`ApduP1KeyType`] variant stands for on the wire.
pub open spec fn spec_p1_key_type_byte(k: ApduP1KeyType) -> u8 {
    match k {
        ApduP1KeyType::KeyPair => 0x60,
        ApduP1KeyType::PrivateKey => 0x40,
        ApduP1KeyType::PublicKey => 0x20,
    }
}

impl ApduP1KeyType {
    /// Reads the key type out of a P1 byte: the variant whose wire bits are
    /// the byte's 0x60 bits, an error when both are clear.
    pub fn try_from_u8(value: u8) -> (r: Result<Self, Iso7816Error>)
        ensures
            match r {
                Ok(k) => spec_p1_key_type_byte(k) == value & 0x60,
                Err(e) => e == Iso7816Error::ValueError && value & 0x60 == 0,
            },
    {
        proof {
            assert(value & 0x60 == 0 || value & 0x60 == 0x20 || value & 0x60 == 0x40 || value
                & 0x60 == 0x60) by (bit_vector);
        }
        match value & 0x60_u8 {
            0x20 => Ok(Self::PublicKey),
            0x40 => Ok(Self::PrivateKey),
            0x60 => Ok(Self::KeyPair),
            _ => Err(Iso7816Error::ValueError),
        }
    }
}

/// Credential-type half of the P1 parameter.
#[derive(Clone, Copy, Debug, PartialEq, Eq, Structural)]
pub enum ApduP1CredType {
    Default,
    EC,
    RSA,
    AES,
    DES,
    HMAC,
    Binary,
    UserID,
    Counter,
    PCR,
    Curve,
    Signature,
    MAC,
    Cipher,
    TLS,
    CryptoObj,
}

/// The P2 parameter values of the secure-element applet.
#[allow(non_camel_case_types)]
#[derive(Clone, Copy, Debug, PartialEq, Eq, Structural)]
pub enum ApduP2 {
    Default,
    Generate,
    Create,
    Size,
    Sign,
    Verify,
    Init,
    Update,
    Final,
    Oneshot,
    DH,
    Diversify,
    AuthFirstPart2,
    AuthNonfirstPart2,
    DumpKey,
    ChangeKeyPart1,
    ChangeKeyPart2,
    KillAuth,
    Import,
    Export,
    SessionCreate,
    SessionClose,
    SessionRefresh,
    SessionPolicy,
    Version,
    Memory,
    List,
    Type,
    Exist,
    DeleteObject,
    DeleteAll,
    SessionUserID,
    HKDF,
    PBKDF,
    I2CM,
    I2CMAttested,
    MAC,
    UnlockChallenge,
    CurveList,
    SignECDAA,
    ID,
    EncryptOneshot,
    DecryptOneshot,
    Attest,
    Attributes,
    CPLC,
    Time,
    Transport,
    Variant,
    Param,
    DeleteCurve,
    Encrypt,
    Decrypt,
    Validate,
    GenerateOneshot,
    ValidateOneshot,
    CryptoList,
    Random,
    TLS_PMS,
    TLS_PRF_CLI_Hello,
    TLS_PRF_SRV_Hello,
    TLS_PRF_CLI_RND,
    TLS_PRF_SRV_RND,
    RAW,
    ImportExt,
    SCP,
    AuthFirstPart1,
    AuthNonfirstPart1,
}

/// Secure-object types stored by the secure element.
#[derive(Clone, Copy, Debug, PartialEq, Eq, Structural)]
pub enum ApduSecObjType {
    ECKeyPair,
    ECPrivKey,
    ECPubKey,
    RSAKeyPair,
    RSAKeyPairCRT,
    RSAPrivKey,
    RSAPrivKeyCRT,
    RSAPubKey,
    AESKey,
    DESKey,
    BinaryFile,
    UserID,
    Counter,
    PCR,
    Curve,
    HMACKey,
}

/// Memory classes a secure object can live in.
#[derive(Clone, Copy, Debug, PartialEq, Eq, Structural)]
pub enum ApduMemoryType {
    Persistent,
    TransientReset,
    TransientDeselect,
}

/// Where a secure object came from.
#[derive(Clone, Copy, Debug, PartialEq, Eq, Structural)]
pub enum ApduObjectOrigin {
    External,
    Internal,
    Provisioned,
}

/// Tags of the TLV-encoded fields in applet command payloads.
#[derive(Clone, Copy, Debug, PartialEq, Eq, Structural)]
pub enum TlvTag {
    SessionID,
    Policy,
    MaxAttempts,
    ImportAuthData,
    ImportAuthKeyID,
    Tag1,
    Tag2,
    Tag3,
    Tag4,
    Tag5,
    Tag6,
    Tag7,
    Tag8,
    Tag9,
    Tag10,
}

/// One tagged field of an applet command payload.
#[derive(Debug)]
pub struct Tlv {
    pub tag: TlvTag,
    pub data: Vec<u8>,
}

/// One command APDU as the T=1 transport carries it: header bytes, data
/// field, and expected response length (0 when absent, 256 at most).
#[derive(Debug)]
pub struct Apdu {
    pub cla: ApduClass,
    pub ins: u8,
    pub p1: u8,
    pub p2: u8,
    pub data: Vec<u8>,
    pub le: usize,
}

impl Apdu {
    /// A command APDU stays within the short-form length fields.
    pub open spec fn wf(self) -> bool {
        self.data@.len() <= 255 && self.le <= 256
    }
}

/// The byte sequence a command APDU takes on the wire: four header bytes,
/// a short-form Lc and the data field when data is present, and a short-form
/// Le when a response is expected (256 encoded as 0x00).
pub open spec fn spec_apdu_bytes(apdu: Apdu) -> Seq<u8> {
    seq![
        spec_apdu_class_byte(apdu.cla),
        apdu.ins,
        apdu.p1,
        apdu.p2,
    ] + (if apdu.data@.len() > 0 {
        seq![apdu.data@.len() as u8] + apdu.data@
    } else {
        Seq::<u8>::empty()
    }) + (if apdu.le > 0 {
        seq![(apdu.le % 256) as u8]
    } else {
        Seq::<u8>::empty()
    })
}

/// Serializes a command APDU into its wire form.
pub fn apdu_to_bytes(apdu: &Apdu) -> (r: Vec<u8>)
    requires
        apdu.wf(),
    ensures
        r@ == spec_apdu_bytes(*apdu),
{
    let mut out: Vec<u8> = Vec::new();
    out.push(apdu.cla.to_u8());
    out.push(apdu.ins);
    out.push(apdu.p1);
    out.push(apdu.p2);
    if apdu.data.len() > 0 {
        out.push(apdu.data.len() as u8);
        let mut i: usize = 0;
        while i < apdu.data.len()
            invariant
                i <= apdu.data@.len(),
                apdu.wf(),
                out@ == seq![
                    spec_apdu_class_byte(apdu.cla),
                    apdu.ins,
                    apdu.p1,
                    apdu.p2,
                    apdu.data@.len() as u8,
                ] + apdu.data@.take(i as int),
            decreases apdu.data@.len() - i,
        {
            out.push(apdu.data[i]);
            proof {
                assert(apdu.data@.take(i + 1 as int) =~= apdu.data@.take(i as int) + seq![
                    apdu.data@[i as int],
                ]);
            }
            i = i + 1;
        }
        proof {
            assert(apdu.data@.take(apdu.data@.len() as int) =~= apdu.data@);
        }
    }
    if apdu.le > 0 {
        out.push((apdu.le % 256) as u8);
    }
    proof {
        assert(out@ =~= spec_apdu_bytes(*apdu));
    }
    out
}

} // verus!
