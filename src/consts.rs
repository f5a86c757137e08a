use vstd::prelude::*;

verus! {

/// Instruction flag: the command runs on a transient object.
pub const APDU_INSTRUCTION_TRANSIENT: u8 = 0x80;
/// Instruction flag: the command targets an authentication object.
pub const APDU_INSTRUCTION_AUTH_OBJECT: u8 = 0x40;
/// Instruction flag: the response carries an attestation.
pub const APDU_INSTRUCTION_ATTEST: u8 = 0x20;

#[allow(non_camel_case_types)]
#[derive(Clone, Copy, Debug, PartialEq, Eq, Structural)]
pub enum Se050ApduInstruction {
    Write,
    Read,
    Crypto,
    Mgmt,
    Process,
    ImportExternal,
}

impl Se050ApduInstruction {
    pub open spec fn spec_value(self) -> u8 {
        match self {
            Se050ApduInstruction::Write => 0x01,
            Se050ApduInstruction::Read => 0x02,
            Se050ApduInstruction::Crypto => 0x03,
            Se050ApduInstruction::Mgmt => 0x04,
            Se050ApduInstruction::Process => 0x05,
            Se050ApduInstruction::ImportExternal => 0x06,
        }
    }

    /// The number that stands for this constant in a command.
    #[verifier::when_used_as_spec(spec_value)]
    pub fn value(self) -> (r: u8)
        ensures
            r == self.spec_value(),
    {
        match self {
            Se050ApduInstruction::Write => 0x01,
            Se050ApduInstruction::Read => 0x02,
            Se050ApduInstruction::Crypto => 0x03,
            Se050ApduInstruction::Mgmt => 0x04,
            Se050ApduInstruction::Process => 0x05,
            Se050ApduInstruction::ImportExternal => 0x06,
        }
    }
}

#[allow(non_camel_case_types)]
#[derive(Clone, Copy, Debug, PartialEq, Eq, Structural)]
pub enum Se050ApduP1KeyType {
    KeyPair,
    PrivateKey,
    PublicKey,
}

impl Se050ApduP1KeyType {
    pub open spec fn spec_value(self) -> u8 {
        match self {
            Se050ApduP1KeyType::KeyPair => 0x60,
            Se050ApduP1KeyType::PrivateKey => 0x40,
            Se050ApduP1KeyType::PublicKey => 0x20,
        }
    }

    /// The number that stands for this constant in a command.
    #[verifier::when_used_as_spec(spec_value)]
    pub fn value(self) -> (r: u8)
        ensures
            r == self.spec_value(),
    {
        match self {
            Se050ApduP1KeyType::KeyPair => 0x60,
            Se050ApduP1KeyType::PrivateKey => 0x40,
            Se050ApduP1KeyType::PublicKey => 0x20,
        }
    }
}

#[allow(non_camel_case_types)]
#[derive(Clone, Copy, Debug, PartialEq, Eq, Structural)]
pub enum Se050ApduP1CredType {
    Default,
    EC,
    RSA,
    AES,
    DES,
    HMAC,
    Binary,
    UserID,
    Counter,
    PCR,
    Curve,
    Signature,
    MAC,
    Cipher,
    TLS,
    CryptoObj,
}

impl Se050ApduP1CredType {
    pub open spec fn spec_value(self) -> u8 {
        match self {
            Se050ApduP1CredType::Default => 0x00,
            Se050ApduP1CredType::EC => 0x01,
            Se050ApduP1CredType::RSA => 0x02,
            Se050ApduP1CredType::AES => 0x03,
            Se050ApduP1CredType::DES => 0x04,
            Se050ApduP1CredType::HMAC => 0x05,
            Se050ApduP1CredType::Binary => 0x06,
            Se050ApduP1CredType::UserID => 0x07,
            Se050ApduP1CredType::Counter => 0x08,
            Se050ApduP1CredType::PCR => 0x09,
            Se050ApduP1CredType::Curve => 0x0b,
            Se050ApduP1CredType::Signature => 0x0c,
            Se050ApduP1CredType::MAC => 0x0d,
            Se050ApduP1CredType::Cipher => 0x0e,
            Se050ApduP1CredType::TLS => 0x0f,
            Se050ApduP1CredType::CryptoObj => 0x10,
        }
    }

    /// The number that stands for this constant in a command.
    #[verifier::when_used_as_spec(spec_value)]
    pub fn value(self) -> (r: u8)
        ensures
            r == self.spec_value(),
    {
        match self {
            Se050ApduP1CredType::Default => 0x00,
            Se050ApduP1CredType::EC => 0x01,
            Se050ApduP1CredType::RSA => 0x02,
            Se050ApduP1CredType::AES => 0x03,
            Se050ApduP1CredType::DES => 0x04,
            Se050ApduP1CredType::HMAC => 0x05,
            Se050ApduP1CredType::Binary => 0x06,
            Se050ApduP1CredType::UserID => 0x07,
            Se050ApduP1CredType::Counter => 0x08,
            Se050ApduP1CredType::PCR => 0x09,
            Se050ApduP1CredType::Curve => 0x0b,
            Se050ApduP1CredType::Signature => 0x0c,
            Se050ApduP1CredType::MAC => 0x0d,
            Se050ApduP1CredType::Cipher => 0x0e,
            Se050ApduP1CredType::TLS => 0x0f,
            Se050ApduP1CredType::CryptoObj => 0x10,
        }
    }
}

#[allow(non_camel_case_types)]
#[derive(Clone, Copy, Debug, PartialEq, Eq, Structural)]
pub enum Se050ApduP2 {
    Default,
    Generate,
    Create,
    Size,
    Sign,
    Verify,
    Init,
    Update,
    Final,
    Oneshot,
    DH,
    Diversify,
    AuthFirstPart2,
    AuthNonfirstPart2,
    DumpKey,
    ChangeKeyPart1,
    ChangeKeyPart2,
    KillAuth,
    Import,
    Export,
    SessionCreate,
    SessionClose,
    SessionRefresh,
    SessionPolicy,
    Version,
    Memory,
    List,
    Type,
    Exist,
    DeleteObject,
    DeleteAll,
    SessionUserID,
    HKDF,
    PBKDF,
    I2CM,
    I2CMAttested,
    MAC,
    UnlockChallenge,
    CurveList,
    SignECDAA,
    ID,
    EncryptOneshot,
    DecryptOneshot,
    Attest,
    Attributes,
    CPLC,
    Time,
    Transport,
    Variant,
    Param,
    DeleteCurve,
    Encrypt,
    Decrypt,
    Validate,
    GenerateOneshot,
    ValidateOneshot,
    CryptoList,
    Random,
    TLS_PMS,
    TLS_PRF_CLI_Hello,
    TLS_PRF_SRV_Hello,
    TLS_PRF_CLI_RND,
    TLS_PRF_SRV_RND,
    RAW,
    ImportExt,
    SCP,
    AuthFirstPart1,
    AuthNonfirstPart1,
}

impl Se050ApduP2 {
    pub open spec fn spec_value(self) -> u8 {
        match self {
            Se050ApduP2::Default => 0x00,
            Se050ApduP2::Generate => 0x03,
            Se050ApduP2::Create => 0x04,
            Se050ApduP2::Size => 0x07,
            Se050ApduP2::Sign => 0x09,
            Se050ApduP2::Verify => 0x0a,
            Se050ApduP2::Init => 0x0b,
            Se050ApduP2::Update => 0x0c,
            Se050ApduP2::Final => 0x0d,
            Se050ApduP2::Oneshot => 0x0e,
            Se050ApduP2::DH => 0x0f,
            Se050ApduP2::Diversify => 0x10,
            Se050ApduP2::AuthFirstPart2 => 0x12,
            Se050ApduP2::AuthNonfirstPart2 => 0x13,
            Se050ApduP2::DumpKey => 0x14,
            Se050ApduP2::ChangeKeyPart1 => 0x15,
            Se050ApduP2::ChangeKeyPart2 => 0x16,
            Se050ApduP2::KillAuth => 0x17,
            Se050ApduP2::Import => 0x18,
            Se050ApduP2::Export => 0x19,
            Se050ApduP2::SessionCreate => 0x1b,
            Se050ApduP2::SessionClose => 0x1c,
            Se050ApduP2::SessionRefresh => 0x1e,
            Se050ApduP2::SessionPolicy => 0x1f,
            Se050ApduP2::Version => 0x20,
            Se050ApduP2::Memory => 0x22,
            Se050ApduP2::List => 0x25,
            Se050ApduP2::Type => 0x26,
            Se050ApduP2::Exist => 0x27,
            Se050ApduP2::DeleteObject => 0x28,
            Se050ApduP2::DeleteAll => 0x2a,
            Se050ApduP2::SessionUserID => 0x2c,
            Se050ApduP2::HKDF => 0x2d,
            Se050ApduP2::PBKDF => 0x2e,
            Se050ApduP2::I2CM => 0x30,
            Se050ApduP2::I2CMAttested => 0x31,
            Se050ApduP2::MAC => 0x32,
            Se050ApduP2::UnlockChallenge => 0x33,
            Se050ApduP2::CurveList => 0x34,
            Se050ApduP2::SignECDAA => 0x35,
            Se050ApduP2::ID => 0x36,
            Se050ApduP2::EncryptOneshot => 0x37,
            Se050ApduP2::DecryptOneshot => 0x38,
            Se050ApduP2::Attest => 0x3a,
            Se050ApduP2::Attributes => 0x3b,
            Se050ApduP2::CPLC => 0x3c,
            Se050ApduP2::Time => 0x3d,
            Se050ApduP2::Transport => 0x3e,
            Se050ApduP2::Variant => 0x3f,
            Se050ApduP2::Param => 0x40,
            Se050ApduP2::DeleteCurve => 0x41,
            Se050ApduP2::Encrypt => 0x42,
            Se050ApduP2::Decrypt => 0x43,
            Se050ApduP2::Validate => 0x44,
            Se050ApduP2::GenerateOneshot => 0x45,
            Se050ApduP2::ValidateOneshot => 0x46,
            Se050ApduP2::CryptoList => 0x47,
            Se050ApduP2::Random => 0x49,
            Se050ApduP2::TLS_PMS => 0x4a,
            Se050ApduP2::TLS_PRF_CLI_Hello => 0x4b,
            Se050ApduP2::TLS_PRF_SRV_Hello => 0x4c,
            Se050ApduP2::TLS_PRF_CLI_RND => 0x4d,
            Se050ApduP2::TLS_PRF_SRV_RND => 0x4e,
            Se050ApduP2::RAW => 0x4f,
            Se050ApduP2::ImportExt => 0x51,
            Se050ApduP2::SCP => 0x52,
            Se050ApduP2::AuthFirstPart1 => 0x53,
            Se050ApduP2::AuthNonfirstPart1 => 0x54,
        }
    }

    /// The number that stands for this constant in a command.
    #[verifier::when_used_as_spec(spec_value)]
    pub fn value(self) -> (r: u8)
        ensures
            r == self.spec_value(),
    {
        match self {
            Se050ApduP2::Default => 0x00,
            Se050ApduP2::Generate => 0x03,
            Se050ApduP2::Create => 0x04,
            Se050ApduP2::Size => 0x07,
            Se050ApduP2::Sign => 0x09,
            Se050ApduP2::Verify => 0x0a,
            Se050ApduP2::Init => 0x0b,
            Se050ApduP2::Update => 0x0c,
            Se050ApduP2::Final => 0x0d,
            Se050ApduP2::Oneshot => 0x0e,
            Se050ApduP2::DH => 0x0f,
            Se050ApduP2::Diversify => 0x10,
            Se050ApduP2::AuthFirstPart2 => 0x12,
            Se050ApduP2::AuthNonfirstPart2 => 0x13,
            Se050ApduP2::DumpKey => 0x14,
            Se050ApduP2::ChangeKeyPart1 => 0x15,
            Se050ApduP2::ChangeKeyPart2 => 0x16,
            Se050ApduP2::KillAuth => 0x17,
            Se050ApduP2::Import => 0x18,
            Se050ApduP2::Export => 0x19,
            Se050ApduP2::SessionCreate => 0x1b,
            Se050ApduP2::SessionClose => 0x1c,
            Se050ApduP2::SessionRefresh => 0x1e,
            Se050ApduP2::SessionPolicy => 0x1f,
            Se050ApduP2::Version => 0x20,
            Se050ApduP2::Memory => 0x22,
            Se050ApduP2::List => 0x25,
            Se050ApduP2::Type => 0x26,
            Se050ApduP2::Exist => 0x27,
            Se050ApduP2::DeleteObject => 0x28,
            Se050ApduP2::DeleteAll => 0x2a,
            Se050ApduP2::SessionUserID => 0x2c,
            Se050ApduP2::HKDF => 0x2d,
            Se050ApduP2::PBKDF => 0x2e,
            Se050ApduP2::I2CM => 0x30,
            Se050ApduP2::I2CMAttested => 0x31,
            Se050ApduP2::MAC => 0x32,
            Se050ApduP2::UnlockChallenge => 0x33,
            Se050ApduP2::CurveList => 0x34,
            Se050ApduP2::SignECDAA => 0x35,
            Se050ApduP2::ID => 0x36,
            Se050ApduP2::EncryptOneshot => 0x37,
            Se050ApduP2::DecryptOneshot => 0x38,
            Se050ApduP2::Attest => 0x3a,
            Se050ApduP2::Attributes => 0x3b,
            Se050ApduP2::CPLC => 0x3c,
            Se050ApduP2::Time => 0x3d,
            Se050ApduP2::Transport => 0x3e,
            Se050ApduP2::Variant => 0x3f,
            Se050ApduP2::Param => 0x40,
            Se050ApduP2::DeleteCurve => 0x41,
            Se050ApduP2::Encrypt => 0x42,
            Se050ApduP2::Decrypt => 0x43,
            Se050ApduP2::Validate => 0x44,
            Se050ApduP2::GenerateOneshot => 0x45,
            Se050ApduP2::ValidateOneshot => 0x46,
            Se050ApduP2::CryptoList => 0x47,
            Se050ApduP2::Random => 0x49,
            Se050ApduP2::TLS_PMS => 0x4a,
            Se050ApduP2::TLS_PRF_CLI_Hello => 0x4b,
            Se050ApduP2::TLS_PRF_SRV_Hello => 0x4c,
            Se050ApduP2::TLS_PRF_CLI_RND => 0x4d,
            Se050ApduP2::TLS_PRF_SRV_RND => 0x4e,
            Se050ApduP2::RAW => 0x4f,
            Se050ApduP2::ImportExt => 0x51,
            Se050ApduP2::SCP => 0x52,
            Se050ApduP2::AuthFirstPart1 => 0x53,
            Se050ApduP2::AuthNonfirstPart1 => 0x54,
        }
    }
}

#[allow(non_camel_case_types)]
#[derive(Clone, Copy, Debug, PartialEq, Eq, Structural)]
pub enum Se050ApduSecObjType {
    ECKeyPair,
    ECPrivKey,
    ECPubKey,
    RSAKeyPair,
    RSAKeyPairCRT,
    RSAPrivKey,
    RSAPrivKeyCRT,
    RSAPubKey,
    AESKey,
    DESKey,
    BinaryFile,
    UserID,
    Counter,
    PCR,
    Curve,
    HMACKey,
}

impl Se050ApduSecObjType {
    pub open spec fn spec_value(self) -> u8 {
        match self {
            Se050ApduSecObjType::ECKeyPair => 0x01,
            Se050ApduSecObjType::ECPrivKey => 0x02,
            Se050ApduSecObjType::ECPubKey => 0x03,
            Se050ApduSecObjType::RSAKeyPair => 0x04,
            Se050ApduSecObjType::RSAKeyPairCRT => 0x05,
            Se050ApduSecObjType::RSAPrivKey => 0x06,
            Se050ApduSecObjType::RSAPrivKeyCRT => 0x07,
            Se050ApduSecObjType::RSAPubKey => 0x08,
            Se050ApduSecObjType::AESKey => 0x09,
            Se050ApduSecObjType::DESKey => 0x0a,
            Se050ApduSecObjType::BinaryFile => 0x0b,
            Se050ApduSecObjType::UserID => 0x0c,
            Se050ApduSecObjType::Counter => 0x0d,
            Se050ApduSecObjType::PCR => 0x0f,
            Se050ApduSecObjType::Curve => 0x10,
            Se050ApduSecObjType::HMACKey => 0x11,
        }
    }

    /// The number that stands for this constant in a command.
    #[verifier::when_used_as_spec(spec_value)]
    pub fn value(self) -> (r: u8)
        ensures
            r == self.spec_value(),
    {
        match self {
            Se050ApduSecObjType::ECKeyPair => 0x01,
            Se050ApduSecObjType::ECPrivKey => 0x02,
            Se050ApduSecObjType::ECPubKey => 0x03,
            Se050ApduSecObjType::RSAKeyPair => 0x04,
            Se050ApduSecObjType::RSAKeyPairCRT => 0x05,
            Se050ApduSecObjType::RSAPrivKey => 0x06,
            Se050ApduSecObjType::RSAPrivKeyCRT => 0x07,
            Se050ApduSecObjType::RSAPubKey => 0x08,
            Se050ApduSecObjType::AESKey => 0x09,
            Se050ApduSecObjType::DESKey => 0x0a,
            Se050ApduSecObjType::BinaryFile => 0x0b,
            Se050ApduSecObjType::UserID => 0x0c,
            Se050ApduSecObjType::Counter => 0x0d,
            Se050ApduSecObjType::PCR => 0x0f,
            Se050ApduSecObjType::Curve => 0x10,
            Se050ApduSecObjType::HMACKey => 0x11,
        }
    }
}

#[allow(non_camel_case_types)]
#[derive(Clone, Copy, Debug, PartialEq, Eq, Structural)]
pub enum Se050ApduMemoryType {
    Persistent,
    TransientReset,
    TransientDeselect,
}

impl Se050ApduMemoryType {
    pub open spec fn spec_value(self) -> u8 {
        match self {
            Se050ApduMemoryType::Persistent => 1,
            Se050ApduMemoryType::TransientReset => 2,
            Se050ApduMemoryType::TransientDeselect => 3,
        }
    }

    /// The number that stands for this constant in a command.
    #[verifier::when_used_as_spec(spec_value)]
    pub fn value(self) -> (r: u8)
        ensures
            r == self.spec_value(),
    {
        match self {
            Se050ApduMemoryType::Persistent => 1,
            Se050ApduMemoryType::TransientReset => 2,
            Se050ApduMemoryType::TransientDeselect => 3,
        }
    }
}

#[allow(non_camel_case_types)]
#[derive(Clone, Copy, Debug, PartialEq, Eq, Structural)]
pub enum Se050ApduObjectOrigin {
    External,
    Internal,
    Provisioned,
}

impl Se050ApduObjectOrigin {
    pub open spec fn spec_value(self) -> u8 {
        match self {
            Se050ApduObjectOrigin::External => 1,
            Se050ApduObjectOrigin::Internal => 2,
            Se050ApduObjectOrigin::Provisioned => 3,
        }
    }

    /// The number that stands for this constant in a command.
    #[verifier::when_used_as_spec(spec_value)]
    pub fn value(self) -> (r: u8)
        ensures
            r == self.spec_value(),
    {
        match self {
            Se050ApduObjectOrigin::External => 1,
            Se050ApduObjectOrigin::Internal => 2,
            Se050ApduObjectOrigin::Provisioned => 3,
        }
    }
}

#[allow(non_camel_case_types)]
#[derive(Clone, Copy, Debug, PartialEq, Eq, Structural)]
pub enum Se050TlvTag {
    SessionID,
    Policy,
    MaxAttempts,
    ImportAuthData,
    ImportAuthKeyID,
    Tag1,
    Tag2,
    Tag3,
    Tag4,
    Tag5,
    Tag6,
    Tag7,
    Tag8,
    Tag9,
    Tag10,
}

impl Se050TlvTag {
    pub open spec fn spec_value(self) -> u8 {
        match self {
            Se050TlvTag::SessionID => 0x10,
            Se050TlvTag::Policy => 0x11,
            Se050TlvTag::MaxAttempts => 0x12,
            Se050TlvTag::ImportAuthData => 0x13,
            Se050TlvTag::ImportAuthKeyID => 0x14,
            Se050TlvTag::Tag1 => 0x41,
            Se050TlvTag::Tag2 => 0x42,
            Se050TlvTag::Tag3 => 0x43,
            Se050TlvTag::Tag4 => 0x44,
            Se050TlvTag::Tag5 => 0x45,
            Se050TlvTag::Tag6 => 0x46,
            Se050TlvTag::Tag7 => 0x47,
            Se050TlvTag::Tag8 => 0x48,
            Se050TlvTag::Tag9 => 0x49,
            Se050TlvTag::Tag10 => 0x4a,
        }
    }

    /// The number that stands for this constant in a command.
    #[verifier::when_used_as_spec(spec_value)]
    pub fn value(self) -> (r: u8)
        ensures
            r == self.spec_value(),
    {
        match self {
            Se050TlvTag::SessionID => 0x10,
            Se050TlvTag::Policy => 0x11,
            Se050TlvTag::MaxAttempts => 0x12,
            Se050TlvTag::ImportAuthData => 0x13,
            Se050TlvTag::ImportAuthKeyID => 0x14,
            Se050TlvTag::Tag1 => 0x41,
            Se050TlvTag::Tag2 => 0x42,
            Se050TlvTag::Tag3 => 0x43,
            Se050TlvTag::Tag4 => 0x44,
            Se050TlvTag::Tag5 => 0x45,
            Se050TlvTag::Tag6 => 0x46,
            Se050TlvTag::Tag7 => 0x47,
            Se050TlvTag::Tag8 => 0x48,
            Se050TlvTag::Tag9 => 0x49,
            Se050TlvTag::Tag10 => 0x4a,
        }
    }
}

#[allow(non_camel_case_types)]
#[derive(Clone, Copy, Debug, PartialEq, Eq, Structural)]
pub enum Se050ECSignatureAlgo {
    SIG_ECDSA_PLAIN,
    SIG_ECDSA_SHA,
    SIG_ECDSA_SHA_224,
    SIG_ECDSA_SHA_256,
    SIG_ECDSA_SHA_384,
    SIG_ECDSA_SHA_512,
}

impl Se050ECSignatureAlgo {
    pub open spec fn spec_value(self) -> u8 {
        match self {
            Se050ECSignatureAlgo::SIG_ECDSA_PLAIN => 0x09,
            Se050ECSignatureAlgo::SIG_ECDSA_SHA => 0x11,
            Se050ECSignatureAlgo::SIG_ECDSA_SHA_224 => 0x25,
            Se050ECSignatureAlgo::SIG_ECDSA_SHA_256 => 0x21,
            Se050ECSignatureAlgo::SIG_ECDSA_SHA_384 => 0x22,
            Se050ECSignatureAlgo::SIG_ECDSA_SHA_512 => 0x26,
        }
    }

    /// The number that stands for this constant in a command.
    #[verifier::when_used_as_spec(spec_value)]
    pub fn value(self) -> (r: u8)
        ensures
            r == self.spec_value(),
    {
        match self {
            Se050ECSignatureAlgo::SIG_ECDSA_PLAIN => 0x09,
            Se050ECSignatureAlgo::SIG_ECDSA_SHA => 0x11,
            Se050ECSignatureAlgo::SIG_ECDSA_SHA_224 => 0x25,
            Se050ECSignatureAlgo::SIG_ECDSA_SHA_256 => 0x21,
            Se050ECSignatureAlgo::SIG_ECDSA_SHA_384 => 0x22,
            Se050ECSignatureAlgo::SIG_ECDSA_SHA_512 => 0x26,
        }
    }
}

#[allow(non_camel_case_types)]
#[derive(Clone, Copy, Debug, PartialEq, Eq, Structural)]
pub enum Se050EDSignatureAlgo {
    SIG_ED25519PURE,
}

impl Se050EDSignatureAlgo {
    pub open spec fn spec_value(self) -> u8 {
        match self {
            Se050EDSignatureAlgo::SIG_ED25519PURE => 0xA3,
        }
    }

    /// The number that stands for this constant in a command.
    #[verifier::when_used_as_spec(spec_value)]
    pub fn value(self) -> (r: u8)
        ensures
            r == self.spec_value(),
    {
        match self {
            Se050EDSignatureAlgo::SIG_ED25519PURE => 0xA3,
        }
    }
}

#[allow(non_camel_case_types)]
#[derive(Clone, Copy, Debug, PartialEq, Eq, Structural)]
pub enum Se050ECDAASignatureAlgo {
    SIG_ECDAA,
}

impl Se050ECDAASignatureAlgo {
    pub open spec fn spec_value(self) -> u8 {
        match self {
            Se050ECDAASignatureAlgo::SIG_ECDAA => 0xF4,
        }
    }

    /// The number that stands for this constant in a command.
    #[verifier::when_used_as_spec(spec_value)]
    pub fn value(self) -> (r: u8)
        ensures
            r == self.spec_value(),
    {
        match self {
            Se050ECDAASignatureAlgo::SIG_ECDAA => 0xF4,
        }
    }
}

#[allow(non_camel_case_types)]
#[derive(Clone, Copy, Debug, PartialEq, Eq, Structural)]
pub enum Se050RSASignatureAlgo {
    RSA_SHA1_PKCS1_PSS,
    RSA_SHA224_PKCS1_PSS,
    RSA_SHA256_PKCS1_PSS,
    RSA_SHA384_PKCS1_PSS,
    RSA_SHA512_PKCS1_PSS,
    RSA_SHA1_PKCS1,
    RSA_SHA_224_PKCS1,
    RSA_SHA_256_PKCS1,
    RSA_SHA_384_PKCS1,
    RSA_SHA_512_PKCS1,
}

impl Se050RSASignatureAlgo {
    pub open spec fn spec_value(self) -> u8 {
        match self {
            Se050RSASignatureAlgo::RSA_SHA1_PKCS1_PSS => 0x15,
            Se050RSASignatureAlgo::RSA_SHA224_PKCS1_PSS => 0x2B,
            Se050RSASignatureAlgo::RSA_SHA256_PKCS1_PSS => 0x2C,
            Se050RSASignatureAlgo::RSA_SHA384_PKCS1_PSS => 0x2D,
            Se050RSASignatureAlgo::RSA_SHA512_PKCS1_PSS => 0x2E,
            Se050RSASignatureAlgo::RSA_SHA1_PKCS1 => 0x0A,
            Se050RSASignatureAlgo::RSA_SHA_224_PKCS1 => 0x27,
            Se050RSASignatureAlgo::RSA_SHA_256_PKCS1 => 0x28,
            Se050RSASignatureAlgo::RSA_SHA_384_PKCS1 => 0x29,
            Se050RSASignatureAlgo::RSA_SHA_512_PKCS1 => 0x2A,
        }
    }

    /// The number that stands for this constant in a command.
    #[verifier::when_used_as_spec(spec_value)]
    pub fn value(self) -> (r: u8)
        ensures
            r == self.spec_value(),
    {
        match self {
            Se050RSASignatureAlgo::RSA_SHA1_PKCS1_PSS => 0x15,
            Se050RSASignatureAlgo::RSA_SHA224_PKCS1_PSS => 0x2B,
            Se050RSASignatureAlgo::RSA_SHA256_PKCS1_PSS => 0x2C,
            Se050RSASignatureAlgo::RSA_SHA384_PKCS1_PSS => 0x2D,
            Se050RSASignatureAlgo::RSA_SHA512_PKCS1_PSS => 0x2E,
            Se050RSASignatureAlgo::RSA_SHA1_PKCS1 => 0x0A,
            Se050RSASignatureAlgo::RSA_SHA_224_PKCS1 => 0x27,
            Se050RSASignatureAlgo::RSA_SHA_256_PKCS1 => 0x28,
            Se050RSASignatureAlgo::RSA_SHA_384_PKCS1 => 0x29,
            Se050RSASignatureAlgo::RSA_SHA_512_PKCS1 => 0x2A,
        }
    }
}

#[allow(non_camel_case_types)]
#[derive(Clone, Copy, Debug, PartialEq, Eq, Structural)]
pub enum Se050RSAEncryptionAlgo {
    RSA_NO_PAD,
    RSA_PKCS1,
    RSA_PKCS1_OAEP,
}

impl Se050RSAEncryptionAlgo {
    pub open spec fn spec_value(self) -> u8 {
        match self {
            Se050RSAEncryptionAlgo::RSA_NO_PAD => 0x0C,
            Se050RSAEncryptionAlgo::RSA_PKCS1 => 0x0A,
            Se050RSAEncryptionAlgo::RSA_PKCS1_OAEP => 0x0F,
        }
    }

    /// The number that stands for this constant in a command.
    #[verifier::when_used_as_spec(spec_value)]
    pub fn value(self) -> (r: u8)
        ensures
            r == self.spec_value(),
    {
        match self {
            Se050RSAEncryptionAlgo::RSA_NO_PAD => 0x0C,
            Se050RSAEncryptionAlgo::RSA_PKCS1 => 0x0A,
            Se050RSAEncryptionAlgo::RSA_PKCS1_OAEP => 0x0F,
        }
    }
}

#[allow(non_camel_case_types)]
#[derive(Clone, Copy, Debug, PartialEq, Eq, Structural)]
pub enum Se050RSABitLength {
    RSA_512,
    RSA_1024,
    RSA_1152,
    RSA_2048,
    RSA_3072,
    RSA_4096,
}

impl Se050RSABitLength {
    pub open spec fn spec_value(self) -> u16 {
        match self {
            Se050RSABitLength::RSA_512 => 512,
            Se050RSABitLength::RSA_1024 => 1024,
            Se050RSABitLength::RSA_1152 => 1152,
            Se050RSABitLength::RSA_2048 => 2048,
            Se050RSABitLength::RSA_3072 => 3072,
            Se050RSABitLength::RSA_4096 => 4096,
        }
    }

    /// The number that stands for this constant in a command.
    #[verifier::when_used_as_spec(spec_value)]
    pub fn value(self) -> (r: u16)
        ensures
            r == self.spec_value(),
    {
        match self {
            Se050RSABitLength::RSA_512 => 512,
            Se050RSABitLength::RSA_1024 => 1024,
            Se050RSABitLength::RSA_1152 => 1152,
            Se050RSABitLength::RSA_2048 => 2048,
            Se050RSABitLength::RSA_3072 => 3072,
            Se050RSABitLength::RSA_4096 => 4096,
        }
    }
}

#[allow(non_camel_case_types)]
#[derive(Clone, Copy, Debug, PartialEq, Eq, Structural)]
pub enum Se050RSAKeyComponent {
    RSA_COMP_MOD,
    RSA_COMP_PUB_EXP,
    RSA_COMP_PRIV_EXP,
    RSA_COMP_P,
    RSA_COMP_Q,
    RSA_COMP_DP,
    RSA_COMP_DQ,
    RSA_COMP_INVQ,
}

impl Se050RSAKeyComponent {
    pub open spec fn spec_value(self) -> u8 {
        match self {
            Se050RSAKeyComponent::RSA_COMP_MOD => 0x00,
            Se050RSAKeyComponent::RSA_COMP_PUB_EXP => 0x01,
            Se050RSAKeyComponent::RSA_COMP_PRIV_EXP => 0x02,
            Se050RSAKeyComponent::RSA_COMP_P => 0x03,
            Se050RSAKeyComponent::RSA_COMP_Q => 0x04,
            Se050RSAKeyComponent::RSA_COMP_DP => 0x05,
            Se050RSAKeyComponent::RSA_COMP_DQ => 0x06,
            Se050RSAKeyComponent::RSA_COMP_INVQ => 0x07,
        }
    }

    /// The number that stands for this constant in a command.
    #[verifier::when_used_as_spec(spec_value)]
    pub fn value(self) -> (r: u8)
        ensures
            r == self.spec_value(),
    {
        match self {
            Se050RSAKeyComponent::RSA_COMP_MOD => 0x00,
            Se050RSAKeyComponent::RSA_COMP_PUB_EXP => 0x01,
            Se050RSAKeyComponent::RSA_COMP_PRIV_EXP => 0x02,
            Se050RSAKeyComponent::RSA_COMP_P => 0x03,
            Se050RSAKeyComponent::RSA_COMP_Q => 0x04,
            Se050RSAKeyComponent::RSA_COMP_DP => 0x05,
            Se050RSAKeyComponent::RSA_COMP_DQ => 0x06,
            Se050RSAKeyComponent::RSA_COMP_INVQ => 0x07,
        }
    }
}

#[allow(non_camel_case_types)]
#[derive(Clone, Copy, Debug, PartialEq, Eq, Structural)]
pub enum Se050DigestModeconstants {
    DIGEST_NO_HASH,
    DIGEST_SHA,
    DIGEST_SHA224,
    DIGEST_SHA256,
    DIGEST_SHA384,
    DIGEST_SHA512,
}

impl Se050DigestModeconstants {
    pub open spec fn spec_value(self) -> u8 {
        match self {
            Se050DigestModeconstants::DIGEST_NO_HASH => 0x00,
            Se050DigestModeconstants::DIGEST_SHA => 0x01,
            Se050DigestModeconstants::DIGEST_SHA224 => 0x07,
            Se050DigestModeconstants::DIGEST_SHA256 => 0x04,
            Se050DigestModeconstants::DIGEST_SHA384 => 0x05,
            Se050DigestModeconstants::DIGEST_SHA512 => 0x06,
        }
    }

    /// The number that stands for this constant in a command.
    #[verifier::when_used_as_spec(spec_value)]
    pub fn value(self) -> (r: u8)
        ensures
            r == self.spec_value(),
    {
        match self {
            Se050DigestModeconstants::DIGEST_NO_HASH => 0x00,
            Se050DigestModeconstants::DIGEST_SHA => 0x01,
            Se050DigestModeconstants::DIGEST_SHA224 => 0x07,
            Se050DigestModeconstants::DIGEST_SHA256 => 0x04,
            Se050DigestModeconstants::DIGEST_SHA384 => 0x05,
            Se050DigestModeconstants::DIGEST_SHA512 => 0x06,
        }
    }
}

#[allow(non_camel_case_types)]
#[derive(Clone, Copy, Debug, PartialEq, Eq, Structural)]
pub enum Se050MACAlgoconstants {
    HMAC_SHA1,
    HMAC_SHA256,
    HMAC_SHA384,
    HMAC_SHA512,
    CMAC_128,
    DES_MAC4_ISO9797_M2,
    DES_MAC4_ISO9797_1_M2_ALG3,
    DES_MAC4_ISO9797_M1,
    DES_MAC4_ISO9797_1_M1_ALG3,
    DES_MAC8_ISO9797_M2,
    DES_MAC8_ISO9797_1_M2_ALG3,
    DES_MAC8_ISO9797_1_M1_ALG3,
}

impl Se050MACAlgoconstants {
    pub open spec fn spec_value(self) -> u8 {
        match self {
            Se050MACAlgoconstants::HMAC_SHA1 => 0x18,
            Se050MACAlgoconstants::HMAC_SHA256 => 0x19,
            Se050MACAlgoconstants::HMAC_SHA384 => 0x1A,
            Se050MACAlgoconstants::HMAC_SHA512 => 0x1B,
            Se050MACAlgoconstants::CMAC_128 => 0x31,
            Se050MACAlgoconstants::DES_MAC4_ISO9797_M2 => 0x05,
            Se050MACAlgoconstants::DES_MAC4_ISO9797_1_M2_ALG3 => 0x13,
            Se050MACAlgoconstants::DES_MAC4_ISO9797_M1 => 0x03,
            Se050MACAlgoconstants::DES_MAC4_ISO9797_1_M1_ALG3 => 0x2F,
            Se050MACAlgoconstants::DES_MAC8_ISO9797_M2 => 0x06,
            Se050MACAlgoconstants::DES_MAC8_ISO9797_1_M2_ALG3 => 0x14,
            Se050MACAlgoconstants::DES_MAC8_ISO9797_1_M1_ALG3 => 0x04,
        }
    }

    /// The number that stands for this constant in a command.
    #[verifier::when_used_as_spec(spec_value)]
    pub fn value(self) -> (r: u8)
        ensures
            r == self.spec_value(),
    {
        match self {
            Se050MACAlgoconstants::HMAC_SHA1 => 0x18,
            Se050MACAlgoconstants::HMAC_SHA256 => 0x19,
            Se050MACAlgoconstants::HMAC_SHA384 => 0x1A,
            Se050MACAlgoconstants::HMAC_SHA512 => 0x1B,
            Se050MACAlgoconstants::CMAC_128 => 0x31,
            Se050MACAlgoconstants::DES_MAC4_ISO9797_M2 => 0x05,
            Se050MACAlgoconstants::DES_MAC4_ISO9797_1_M2_ALG3 => 0x13,
            Se050MACAlgoconstants::DES_MAC4_ISO9797_M1 => 0x03,
            Se050MACAlgoconstants::DES_MAC4_ISO9797_1_M1_ALG3 => 0x2F,
            Se050MACAlgoconstants::DES_MAC8_ISO9797_M2 => 0x06,
            Se050MACAlgoconstants::DES_MAC8_ISO9797_1_M2_ALG3 => 0x14,
            Se050MACAlgoconstants::DES_MAC8_ISO9797_1_M1_ALG3 => 0x04,
        }
    }
}

#[allow(non_camel_case_types)]
#[derive(Clone, Copy, Debug, PartialEq, Eq, Structural)]
pub enum Se050ECCurveconstants {
    NIST_P192,
    NIST_P224,
    NIST_P256,
    NIST_P384,
    NIST_P521,
    Brainpool160,
    Brainpool192,
    Brainpool224,
    Brainpool256,
    Brainpool320,
    Brainpool384,
    Brainpool512,
    Secp160k1,
    Secp192k1,
    Secp224k1,
    Secp256k1,
    TPM_ECC_BN_P256,
    ID_ECC_ED_25519,
    ID_ECC_MONT_DH_25519,
}

impl Se050ECCurveconstants {
    pub open spec fn spec_value(self) -> u8 {
        match self {
            Se050ECCurveconstants::NIST_P192 => 0x01,
            Se050ECCurveconstants::NIST_P224 => 0x02,
            Se050ECCurveconstants::NIST_P256 => 0x03,
            Se050ECCurveconstants::NIST_P384 => 0x04,
            Se050ECCurveconstants::NIST_P521 => 0x05,
            Se050ECCurveconstants::Brainpool160 => 0x06,
            Se050ECCurveconstants::Brainpool192 => 0x07,
            Se050ECCurveconstants::Brainpool224 => 0x08,
            Se050ECCurveconstants::Brainpool256 => 0x09,
            Se050ECCurveconstants::Brainpool320 => 0x0A,
            Se050ECCurveconstants::Brainpool384 => 0x0B,
            Se050ECCurveconstants::Brainpool512 => 0x0C,
            Se050ECCurveconstants::Secp160k1 => 0x0D,
            Se050ECCurveconstants::Secp192k1 => 0x0E,
            Se050ECCurveconstants::Secp224k1 => 0x0F,
            Se050ECCurveconstants::Secp256k1 => 0x10,
            Se050ECCurveconstants::TPM_ECC_BN_P256 => 0x11,
            Se050ECCurveconstants::ID_ECC_ED_25519 => 0x40,
            Se050ECCurveconstants::ID_ECC_MONT_DH_25519 => 0x41,
        }
    }

    /// The number that stands for this constant in a command.
    #[verifier::when_used_as_spec(spec_value)]
    pub fn value(self) -> (r: u8)
        ensures
            r == self.spec_value(),
    {
        match self {
            Se050ECCurveconstants::NIST_P192 => 0x01,
            Se050ECCurveconstants::NIST_P224 => 0x02,
            Se050ECCurveconstants::NIST_P256 => 0x03,
            Se050ECCurveconstants::NIST_P384 => 0x04,
            Se050ECCurveconstants::NIST_P521 => 0x05,
            Se050ECCurveconstants::Brainpool160 => 0x06,
            Se050ECCurveconstants::Brainpool192 => 0x07,
            Se050ECCurveconstants::Brainpool224 => 0x08,
            Se050ECCurveconstants::Brainpool256 => 0x09,
            Se050ECCurveconstants::Brainpool320 => 0x0A,
            Se050ECCurveconstants::Brainpool384 => 0x0B,
            Se050ECCurveconstants::Brainpool512 => 0x0C,
            Se050ECCurveconstants::Secp160k1 => 0x0D,
            Se050ECCurveconstants::Secp192k1 => 0x0E,
            Se050ECCurveconstants::Secp224k1 => 0x0F,
            Se050ECCurveconstants::Secp256k1 => 0x10,
            Se050ECCurveconstants::TPM_ECC_BN_P256 => 0x11,
            Se050ECCurveconstants::ID_ECC_ED_25519 => 0x40,
            Se050ECCurveconstants::ID_ECC_MONT_DH_25519 => 0x41,
        }
    }
}

#[allow(non_camel_case_types)]
#[derive(Clone, Copy, Debug, PartialEq, Eq, Structural)]
pub enum Se050ECCurveParamconstants {
    CURVE_PARAM_A,
    CURVE_PARAM_B,
    CURVE_PARAM_G,
    CURVE_PARAM_N,
    CURVE_PARAM_PRIME,
}

impl Se050ECCurveParamconstants {
    pub open spec fn spec_value(self) -> u8 {
        match self {
            Se050ECCurveParamconstants::CURVE_PARAM_A => 0x01,
            Se050ECCurveParamconstants::CURVE_PARAM_B => 0x02,
            Se050ECCurveParamconstants::CURVE_PARAM_G => 0x04,
            Se050ECCurveParamconstants::CURVE_PARAM_N => 0x08,
            Se050ECCurveParamconstants::CURVE_PARAM_PRIME => 0x10,
        }
    }

    /// The number that stands for this constant in a command.
    #[verifier::when_used_as_spec(spec_value)]
    pub fn value(self) -> (r: u8)
        ensures
            r == self.spec_value(),
    {
        match self {
            Se050ECCurveParamconstants::CURVE_PARAM_A => 0x01,
            Se050ECCurveParamconstants::CURVE_PARAM_B => 0x02,
            Se050ECCurveParamconstants::CURVE_PARAM_G => 0x04,
            Se050ECCurveParamconstants::CURVE_PARAM_N => 0x08,
            Se050ECCurveParamconstants::CURVE_PARAM_PRIME => 0x10,
        }
    }
}

#[allow(non_camel_case_types)]
#[derive(Clone, Copy, Debug, PartialEq, Eq, Structural)]
pub enum Se050CipherModeconstants {
    DES_CBC_NOPAD,
    DES_CBC_ISO9797_M1,
    DES_CBC_ISO9797_M2,
    DES_CBC_PKCS5,
    DES_ECB_NOPAD,
    DES_ECB_ISO9797_M1,
    DES_ECB_ISO9797_M2,
    DES_ECB_PKCS5,
    AES_ECB_NOPAD,
    AES_CBC_NOPAD,
    AES_CBC_ISO9797_M1,
    AES_CBC_ISO9797_M2,
    AES_CBC_PKCS5,
    AES_CTR,
}

impl Se050CipherModeconstants {
    pub open spec fn spec_value(self) -> u8 {
        match self {
            Se050CipherModeconstants::DES_CBC_NOPAD => 0x01,
            Se050CipherModeconstants::DES_CBC_ISO9797_M1 => 0x02,
            Se050CipherModeconstants::DES_CBC_ISO9797_M2 => 0x03,
            Se050CipherModeconstants::DES_CBC_PKCS5 => 0x04,
            Se050CipherModeconstants::DES_ECB_NOPAD => 0x05,
            Se050CipherModeconstants::DES_ECB_ISO9797_M1 => 0x06,
            Se050CipherModeconstants::DES_ECB_ISO9797_M2 => 0x07,
            Se050CipherModeconstants::DES_ECB_PKCS5 => 0x08,
            Se050CipherModeconstants::AES_ECB_NOPAD => 0x0E,
            Se050CipherModeconstants::AES_CBC_NOPAD => 0x0D,
            Se050CipherModeconstants::AES_CBC_ISO9797_M1 => 0x16,
            Se050CipherModeconstants::AES_CBC_ISO9797_M2 => 0x17,
            Se050CipherModeconstants::AES_CBC_PKCS5 => 0x18,
            Se050CipherModeconstants::AES_CTR => 0xF0,
        }
    }

    /// The number that stands for this constant in a command.
    #[verifier::when_used_as_spec(spec_value)]
    pub fn value(self) -> (r: u8)
        ensures
            r == self.spec_value(),
    {
        match self {
            Se050CipherModeconstants::DES_CBC_NOPAD => 0x01,
            Se050CipherModeconstants::DES_CBC_ISO9797_M1 => 0x02,
            Se050CipherModeconstants::DES_CBC_ISO9797_M2 => 0x03,
            Se050CipherModeconstants::DES_CBC_PKCS5 => 0x04,
            Se050CipherModeconstants::DES_ECB_NOPAD => 0x05,
            Se050CipherModeconstants::DES_ECB_ISO9797_M1 => 0x06,
            Se050CipherModeconstants::DES_ECB_ISO9797_M2 => 0x07,
            Se050CipherModeconstants::DES_ECB_PKCS5 => 0x08,
            Se050CipherModeconstants::AES_ECB_NOPAD => 0x0E,
            Se050CipherModeconstants::AES_CBC_NOPAD => 0x0D,
            Se050CipherModeconstants::AES_CBC_ISO9797_M1 => 0x16,
            Se050CipherModeconstants::AES_CBC_ISO9797_M2 => 0x17,
            Se050CipherModeconstants::AES_CBC_PKCS5 => 0x18,
            Se050CipherModeconstants::AES_CTR => 0xF0,
        }
    }
}

#[allow(non_camel_case_types)]
#[derive(Clone, Copy, Debug, PartialEq, Eq, Structural)]
pub enum Se050AppletConfig {
    CONFIG_ECDAA,
    CONFIG_ECDSA_ECDH_ECDHE,
    CONFIG_EDDSA,
    CONFIG_DH_MONT,
    CONFIG_HMAC,
    CONFIG_RSA_PLAIN,
    CONFIG_RSA_CRT,
    CONFIG_AES,
    CONFIG_DES,
    CONFIG_PBKDF,
    CONFIG_TLS,
    CONFIG_MIFARE,
    CONFIG_FIPS_MODE_DISABLED,
    CONFIG_I2CM,
    CONFIG_ECC_ALL,
    CONFIG_RSA_ALL,
    CONFIG_ALL,
}

impl Se050AppletConfig {
    pub open spec fn spec_value(self) -> u16 {
        match self {
            Se050AppletConfig::CONFIG_ECDAA => 0x0001,
            Se050AppletConfig::CONFIG_ECDSA_ECDH_ECDHE => 0x0002,
            Se050AppletConfig::CONFIG_EDDSA => 0x0004,
            Se050AppletConfig::CONFIG_DH_MONT => 0x0008,
            Se050AppletConfig::CONFIG_HMAC => 0x0010,
            Se050AppletConfig::CONFIG_RSA_PLAIN => 0x0020,
            Se050AppletConfig::CONFIG_RSA_CRT => 0x0040,
            Se050AppletConfig::CONFIG_AES => 0x0080,
            Se050AppletConfig::CONFIG_DES => 0x0100,
            Se050AppletConfig::CONFIG_PBKDF => 0x0200,
            Se050AppletConfig::CONFIG_TLS => 0x0400,
            Se050AppletConfig::CONFIG_MIFARE => 0x0800,
            Se050AppletConfig::CONFIG_FIPS_MODE_DISABLED => 0x1000,
            Se050AppletConfig::CONFIG_I2CM => 0x2000,
            Se050AppletConfig::CONFIG_ECC_ALL => 0x000F,
            Se050AppletConfig::CONFIG_RSA_ALL => 0x0060,
            Se050AppletConfig::CONFIG_ALL => 0x3FFF,
        }
    }

    /// The number that stands for this constant in a command.
    #[verifier::when_used_as_spec(spec_value)]
    pub fn value(self) -> (r: u16)
        ensures
            r == self.spec_value(),
    {
        match self {
            Se050AppletConfig::CONFIG_ECDAA => 0x0001,
            Se050AppletConfig::CONFIG_ECDSA_ECDH_ECDHE => 0x0002,
            Se050AppletConfig::CONFIG_EDDSA => 0x0004,
            Se050AppletConfig::CONFIG_DH_MONT => 0x0008,
            Se050AppletConfig::CONFIG_HMAC => 0x0010,
            Se050AppletConfig::CONFIG_RSA_PLAIN => 0x0020,
            Se050AppletConfig::CONFIG_RSA_CRT => 0x0040,
            Se050AppletConfig::CONFIG_AES => 0x0080,
            Se050AppletConfig::CONFIG_DES => 0x0100,
            Se050AppletConfig::CONFIG_PBKDF => 0x0200,
            Se050AppletConfig::CONFIG_TLS => 0x0400,
            Se050AppletConfig::CONFIG_MIFARE => 0x0800,
            Se050AppletConfig::CONFIG_FIPS_MODE_DISABLED => 0x1000,
            Se050AppletConfig::CONFIG_I2CM => 0x2000,
            Se050AppletConfig::CONFIG_ECC_ALL => 0x000F,
            Se050AppletConfig::CONFIG_RSA_ALL => 0x0060,
            Se050AppletConfig::CONFIG_ALL => 0x3FFF,
        }
    }
}

#[allow(non_camel_case_types)]
#[derive(Clone, Copy, Debug, PartialEq, Eq, Structural)]
pub enum Se050LockIndicatorconstants {
    TRANSIENT_LOCK,
    PERSISTENT_LOCK,
}

impl Se050LockIndicatorconstants {
    pub open spec fn spec_value(self) -> u8 {
        match self {
            Se050LockIndicatorconstants::TRANSIENT_LOCK => 0x01,
            Se050LockIndicatorconstants::PERSISTENT_LOCK => 0x02,
        }
    }

    /// The number that stands for this constant in a command.
    #[verifier::when_used_as_spec(spec_value)]
    pub fn value(self) -> (r: u8)
        ensures
            r == self.spec_value(),
    {
        match self {
            Se050LockIndicatorconstants::TRANSIENT_LOCK => 0x01,
            Se050LockIndicatorconstants::PERSISTENT_LOCK => 0x02,
        }
    }
}

#[allow(non_camel_case_types)]
#[derive(Clone, Copy, Debug, PartialEq, Eq, Structural)]
pub enum Se050LockStateconstants {
    LOCKED,
    UNLOCKED,
}

impl Se050LockStateconstants {
    pub open spec fn spec_value(self) -> u8 {
        match self {
            Se050LockStateconstants::LOCKED => 0x01,
            Se050LockStateconstants::UNLOCKED => 0x02,
        }
    }

    /// The number that stands for this constant in a command.
    #[verifier::when_used_as_spec(spec_value)]
    pub fn value(self) -> (r: u8)
        ensures
            r == self.spec_value(),
    {
        match self {
            Se050LockStateconstants::LOCKED => 0x01,
            Se050LockStateconstants::UNLOCKED => 0x02,
        }
    }
}

#[allow(non_camel_case_types)]
#[derive(Clone, Copy, Debug, PartialEq, Eq, Structural)]
pub enum Se050CryptoContextconstants {
    CC_DIGEST,
    CC_CIPHER,
    CC_SIGNATURE,
}

impl Se050CryptoContextconstants {
    pub open spec fn spec_value(self) -> u8 {
        match self {
            Se050CryptoContextconstants::CC_DIGEST => 0x01,
            Se050CryptoContextconstants::CC_CIPHER => 0x02,
            Se050CryptoContextconstants::CC_SIGNATURE => 0x03,
        }
    }

    /// The number that stands for this constant in a command.
    #[verifier::when_used_as_spec(spec_value)]
    pub fn value(self) -> (r: u8)
        ensures
            r == self.spec_value(),
    {
        match self {
            Se050CryptoContextconstants::CC_DIGEST => 0x01,
            Se050CryptoContextconstants::CC_CIPHER => 0x02,
            Se050CryptoContextconstants::CC_SIGNATURE => 0x03,
        }
    }
}

#[allow(non_camel_case_types)]
#[derive(Clone, Copy, Debug, PartialEq, Eq, Structural)]
pub enum Se050Resultconstants {
    RESULT_SUCCESS,
    RESULT_FAILURE,
}

impl Se050Resultconstants {
    pub open spec fn spec_value(self) -> u8 {
        match self {
            Se050Resultconstants::RESULT_SUCCESS => 0x01,
            Se050Resultconstants::RESULT_FAILURE => 0x02,
        }
    }

    /// The number that stands for this constant in a command.
    #[verifier::when_used_as_spec(spec_value)]
    pub fn value(self) -> (r: u8)
        ensures
            r == self.spec_value(),
    {
        match self {
            Se050Resultconstants::RESULT_SUCCESS => 0x01,
            Se050Resultconstants::RESULT_FAILURE => 0x02,
        }
    }
}

#[allow(non_camel_case_types)]
#[derive(Clone, Copy, Debug, PartialEq, Eq, Structural)]
pub enum Se050TransientIndicatorconstants {
    PERSISTENT,
    TRANSIENT,
}

impl Se050TransientIndicatorconstants {
    pub open spec fn spec_value(self) -> u8 {
        match self {
            Se050TransientIndicatorconstants::PERSISTENT => 0x01,
            Se050TransientIndicatorconstants::TRANSIENT => 0x02,
        }
    }

    /// The number that stands for this constant in a command.
    #[verifier::when_used_as_spec(spec_value)]
    pub fn value(self) -> (r: u8)
        ensures
            r == self.spec_value(),
    {
        match self {
            Se050TransientIndicatorconstants::PERSISTENT => 0x01,
            Se050TransientIndicatorconstants::TRANSIENT => 0x02,
        }
    }
}

#[allow(non_camel_case_types)]
#[derive(Clone, Copy, Debug, PartialEq, Eq, Structural)]
pub enum Se050SetIndicatorconstants {
    NOT_SET,
    SET,
}

impl Se050SetIndicatorconstants {
    pub open spec fn spec_value(self) -> u8 {
        match self {
            Se050SetIndicatorconstants::NOT_SET => 0x01,
            Se050SetIndicatorconstants::SET => 0x02,
        }
    }

    /// The number that stands for this constant in a command.
    #[verifier::when_used_as_spec(spec_value)]
    pub fn value(self) -> (r: u8)
        ensures
            r == self.spec_value(),
    {
        match self {
            Se050SetIndicatorconstants::NOT_SET => 0x01,
            Se050SetIndicatorconstants::SET => 0x02,
        }
    }
}

#[allow(non_camel_case_types)]
#[derive(Clone, Copy, Debug, PartialEq, Eq, Structural)]
pub enum Se050MoreIndicatorconstants {
    NO_MORE,
    MORE,
}

impl Se050MoreIndicatorconstants {
    pub open spec fn spec_value(self) -> u8 {
        match self {
            Se050MoreIndicatorconstants::NO_MORE => 0x01,
            Se050MoreIndicatorconstants::MORE => 0x02,
        }
    }

    /// The number that stands for this constant in a command.
    #[verifier::when_used_as_spec(spec_value)]
    pub fn value(self) -> (r: u8)
        ensures
            r == self.spec_value(),
    {
        match self {
            Se050MoreIndicatorconstants::NO_MORE => 0x01,
            Se050MoreIndicatorconstants::MORE => 0x02,
        }
    }
}

#[allow(non_camel_case_types)]
#[derive(Clone, Copy, Debug, PartialEq, Eq, Structural)]
pub enum Se050PlatformSCPRequestconstants {
    SCP_REQUIRED,
    SCP_NOT_REQUIRED,
}

impl Se050PlatformSCPRequestconstants {
    pub open spec fn spec_value(self) -> u8 {
        match self {
            Se050PlatformSCPRequestconstants::SCP_REQUIRED => 0x01,
            Se050PlatformSCPRequestconstants::SCP_NOT_REQUIRED => 0x02,
        }
    }

    /// The number that stands for this constant in a command.
    #[verifier::when_used_as_spec(spec_value)]
    pub fn value(self) -> (r: u8)
        ensures
            r == self.spec_value(),
    {
        match self {
            Se050PlatformSCPRequestconstants::SCP_REQUIRED => 0x01,
            Se050PlatformSCPRequestconstants::SCP_NOT_REQUIRED => 0x02,
        }
    }
}

} // verus!
