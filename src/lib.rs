//! Host-side driver logic for the NXP SE050 secure element: the T=1 block
//! transport over I2C, the APDU codec that it carries and the command
//! catalogue built on top of both.

pub mod apdu;
pub mod atr;
pub mod block;
mod bytes;
pub mod commands;
pub mod consts;
mod crc;
pub mod se050;
pub mod t1;

pub use crate::apdu::{
    ApduClass, ApduStandardInstruction, CApdu, CApduByteIterator, RApdu, RawRApdu, SimpleTlv,
    MAX_TLVS,
};
pub use crate::atr::{AnswerToReset, DataLinkLayerParameters, I2CParameters, PhysicalLayerParameters};
pub use crate::block::{Iso7816Error, T1Error, T1Header, T1PCB, T1SCode, MAX_IFSC, MAX_T1_FRAME_SIZE};
pub use crate::crc::{crc16_x25, crc16_x25_of};
pub use crate::se050::{ObjectId, Se050, Se050AppInfo, Se050Device, Se050Error, T1Proto};
pub use crate::t1::{T1State, T1Step};
pub use crate::consts::{APDU_INSTRUCTION_TRANSIENT, APDU_INSTRUCTION_AUTH_OBJECT, APDU_INSTRUCTION_ATTEST, Se050ApduInstruction, Se050ApduP1KeyType, Se050ApduP1CredType, Se050ApduP2, Se050ApduSecObjType, Se050ApduMemoryType, Se050ApduObjectOrigin, Se050TlvTag, Se050ECSignatureAlgo, Se050EDSignatureAlgo, Se050ECDAASignatureAlgo, Se050RSASignatureAlgo, Se050RSAEncryptionAlgo, Se050RSABitLength, Se050RSAKeyComponent, Se050DigestModeconstants, Se050MACAlgoconstants, Se050ECCurveconstants, Se050ECCurveParamconstants, Se050CipherModeconstants, Se050AppletConfig, Se050LockIndicatorconstants, Se050LockStateconstants, Se050CryptoContextconstants, Se050Resultconstants, Se050TransientIndicatorconstants, Se050SetIndicatorconstants, Se050MoreIndicatorconstants, Se050PlatformSCPRequestconstants};
