use vstd::prelude::*;
use crate::block::T1Error;
use crate::bytes::{be16, read_be_u16};

verus! {

/// Physical-layer group id that announces I2C parameters.
pub const ATR_PLID_I2C: u8 = 0x02;
/// Length of the I2C physical-layer parameter group.
pub const ATR_I2C_PLP_LEN: u8 = 11;
/// Length of the data-link-layer parameter group: BWT and IFSC.
pub const ATR_DLLP_LEN: u8 = 4;
/// Historical bytes kept from an ATR; the rest is discarded.
pub const ATR_HISTORICAL_MAX: usize = 15;

/// Answer to an interface soft reset.
#[derive(Debug)]
pub struct AnswerToReset {
    pub protocol_version: u8,
    pub vendor_id: [u8; 5],
    /// Data-link-layer parameters.
    pub dllp: DataLinkLayerParameters,
    /// Physical-layer parameters.
    pub plp: PhysicalLayerParameters,
    /// Historical bytes, truncated, zero-filled past their end.
    pub historical_bytes: [u8; 15],
}

#[derive(Debug)]
pub struct DataLinkLayerParameters {
    pub bwt_ms: u16,
    pub ifsc: u16,
}

#[derive(Debug)]
pub enum PhysicalLayerParameters {
    I2C(I2CParameters),
}

#[derive(Debug)]
pub struct I2CParameters {
    pub mcf: u16,
    pub configuration: u8,
    pub mpot_ms: u8,
    pub rfu: [u8; 3],
    pub segt_us: u16,
    pub wut_us: u16,
}

/// The layout checks that an ATR payload must pass: version, vendor id, a
/// four-byte DLLP group, an eleven-byte I2C PLP group, then a length byte
/// that covers exactly the historical bytes that follow.
pub open spec fn atr_layout_ok(s: Seq<u8>) -> bool {
    &&& s.len() >= 25
    &&& s[6] == ATR_DLLP_LEN
    &&& s[11] == ATR_PLID_I2C
    &&& s[12] == ATR_I2C_PLP_LEN
    &&& s.len() == 25 + s[24] as int
}

/// Every field of `a` is read from its place in the payload `s`.
pub open spec fn atr_matches(a: AnswerToReset, s: Seq<u8>) -> bool {
    &&& a.protocol_version == s[0]
    &&& a.vendor_id@ == s.subrange(1, 6)
    &&& a.dllp.bwt_ms as int == be16(s[7], s[8])
    &&& a.dllp.ifsc as int == be16(s[9], s[10])
    &&& match a.plp {
        PhysicalLayerParameters::I2C(p) => {
            &&& p.mcf as int == be16(s[13], s[14])
            &&& p.configuration == s[15]
            &&& p.mpot_ms == s[16]
            &&& p.rfu@ == s.subrange(17, 20)
            &&& p.segt_us as int == be16(s[20], s[21])
            &&& p.wut_us as int == be16(s[22], s[23])
        },
    }
    &&& forall|i: int|
        0 <= i < 15 ==> #[trigger] a.historical_bytes@[i] == if i < s[24] {
            s[25 + i]
        } else {
            0u8
        }
}

impl AnswerToReset {
    /// Reads the information field of an interface soft reset response.
    pub fn parse(inf: &[u8]) -> (r: Result<AnswerToReset, T1Error>)
        ensures
            r is Ok <==> atr_layout_ok(inf@),
            r matches Ok(a) ==> atr_matches(a, inf@),
            r matches Err(e) ==> e == T1Error::ProtocolError,
    {
        let n = inf.len();
        if n < 25 || inf[6] != ATR_DLLP_LEN || inf[11] != ATR_PLID_I2C || inf[12]
            != ATR_I2C_PLP_LEN || n != 25 + inf[24] as usize {
            return Err(T1Error::ProtocolError);
        }
        let hist_len = inf[24] as usize;
        let mut historical_bytes: [u8; 15] = [0; 15];
        let mut i: usize = 0;
        while i < ATR_HISTORICAL_MAX
            invariant
                n == inf@.len(),
                n == 25 + hist_len,
                i <= 15,
                forall|j: int|
                    0 <= j < i ==> #[trigger] historical_bytes@[j] == if j < hist_len {
                        inf@[25 + j]
                    } else {
                        0u8
                    },
                forall|j: int| i <= j < 15 ==> #[trigger] historical_bytes@[j] == 0u8,
            decreases 15 - i,
        {
            if i < hist_len {
                historical_bytes[i] = inf[25 + i];
            }
            i += 1;
        }
        let vendor_id: [u8; 5] = [inf[1], inf[2], inf[3], inf[4], inf[5]];
        let rfu: [u8; 3] = [inf[17], inf[18], inf[19]];
        let plp = I2CParameters {
            mcf: read_be_u16(vstd::slice::slice_subrange(inf, 13, 15)),
            configuration: inf[15],
            mpot_ms: inf[16],
            rfu,
            segt_us: read_be_u16(vstd::slice::slice_subrange(inf, 20, 22)),
            wut_us: read_be_u16(vstd::slice::slice_subrange(inf, 22, 24)),
        };
        let a = AnswerToReset {
            protocol_version: inf[0],
            vendor_id,
            dllp: DataLinkLayerParameters {
                bwt_ms: read_be_u16(vstd::slice::slice_subrange(inf, 7, 9)),
                ifsc: read_be_u16(vstd::slice::slice_subrange(inf, 9, 11)),
            },
            plp: PhysicalLayerParameters::I2C(plp),
            historical_bytes,
        };
        assert(a.vendor_id@ =~= inf@.subrange(1, 6));
        assert(rfu@ =~= inf@.subrange(17, 20));
        Ok(a)
    }
}

} // verus!
