use vstd::prelude::*;

verus! {

/// The CRC-16/X-25 checksum (poly 0x1021, init 0xFFFF, reflected, xor-out
/// 0xFFFF) of a byte sequence.
pub uninterp spec fn crc16_x25_of(data: Seq<u8>) -> u16;

/// Relies on `crc16::State::<crc16::X_25>::calculate`: the X-25 checksum of
/// the whole message, which depends on its bytes alone.
#[verifier::external_body]
fn x25_calculate(data: &[u8]) -> (r: u16)
    ensures
        r == crc16_x25_of(data@),
{
    crc16::State::<crc16::X_25>::calculate(data)
}

/// The checksum that every T=1 block carries in its trailer.
pub fn crc16_x25(data: &[u8]) -> (r: u16)
    ensures
        r == crc16_x25_of(data@),
{
    x25_calculate(data)
}

} // verus!
