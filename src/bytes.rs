use vstd::prelude::*;
use byteorder::ByteOrder;

verus! {

/// The big-endian value of two bytes.
pub open spec fn be16(hi: u8, lo: u8) -> int {
    hi as int * 256 + lo as int
}

/// Relies on `byteorder::BigEndian::read_u16`: the first two bytes of the
/// slice read as a big-endian number.
#[verifier::external_body]
pub(crate) fn read_be_u16(buf: &[u8]) -> (r: u16)
    requires
        buf@.len() >= 2,
    ensures
        r as int == be16(buf@[0], buf@[1]),
{
    <byteorder::BigEndian as ByteOrder>::read_u16(buf)
}

/// Relies on `byteorder::BigEndian::read_uint`: the first three bytes of the
/// slice read as a big-endian number.
#[verifier::external_body]
pub(crate) fn read_be_u24(buf: &[u8]) -> (r: u64)
    requires
        buf@.len() >= 3,
    ensures
        r as int == buf@[0] as int * 65536 + buf@[1] as int * 256 + buf@[2] as int,
{
    <byteorder::BigEndian as ByteOrder>::read_uint(buf, 3)
}

/// Relies on `byteorder::BigEndian::write_u16`: the number as two big-endian
/// bytes in front of the slice, the rest untouched.
#[verifier::external_body]
pub(crate) fn write_be_u16(buf: &mut [u8], n: u16)
    requires
        old(buf)@.len() >= 2,
    ensures
        final(buf)@.len() == old(buf)@.len(),
        be16(final(buf)@[0], final(buf)@[1]) == n as int,
        final(buf)@.subrange(2, final(buf)@.len() as int) == old(buf)@.subrange(
            2,
            old(buf)@.len() as int,
        ),
{
    <byteorder::BigEndian as ByteOrder>::write_u16(buf, n)
}

/// Appends every byte of `s` to `v`.
pub(crate) fn append_bytes(v: &mut Vec<u8>, s: &[u8])
    ensures
        final(v)@ == old(v)@ + s@,
{
    let ghost start = v@;
    let mut i: usize = 0;
    while i < s.len()
        invariant
            i <= s@.len(),
            v@ == start + s@.subrange(0, i as int),
        decreases s@.len() - i,
    {
        v.push(s[i]);
        i += 1;
        assert(s@.subrange(0, i as int) == s@.subrange(0, i - 1) + seq![s@[i - 1]]);
    }
    assert(s@.subrange(0, s@.len() as int) == s@);
}

#[verifier::external_type_specification]
#[verifier::external_body]
#[verifier::reject_recursive_types(T)]
pub struct ExHeaplessVec<T, const N: usize>(heapless::Vec<T, N>);

/// Capacity of the inline buffers that hold APDU and TLV header fields.
pub const FIELD_CAPACITY: usize = 7;

/// The bytes held by an inline field buffer, in order.
pub uninterp spec fn field_bytes(v: heapless::Vec<u8, 7>) -> Seq<u8>;

/// Relies on `heapless::Vec::new`: an empty buffer.
#[verifier::external_body]
pub(crate) fn field_new() -> (r: heapless::Vec<u8, 7>)
    ensures
        field_bytes(r) == Seq::<u8>::empty(),
{
    heapless::Vec::new()
}

/// Relies on `heapless::Vec::push`: appends the byte when the buffer is not
/// full, else hands it back and leaves the buffer as it was.
#[verifier::external_body]
pub(crate) fn field_push(v: &mut heapless::Vec<u8, 7>, b: u8) -> (r: Result<(), u8>)
    ensures
        r is Ok <==> field_bytes(*old(v)).len() < FIELD_CAPACITY,
        r is Ok ==> field_bytes(*final(v)) == field_bytes(*old(v)).push(b),
        r is Err ==> field_bytes(*final(v)) == field_bytes(*old(v)),
{
    v.push(b)
}

/// Relies on `heapless::Vec::as_slice`: the bytes held, in order.
#[verifier::external_body]
pub(crate) fn field_slice(v: &heapless::Vec<u8, 7>) -> (r: &[u8])
    ensures
        r@ == field_bytes(*v),
{
    v.as_slice()
}

} // verus!
