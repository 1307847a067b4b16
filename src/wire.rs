//! Fixed-width integer encoding of the frame header fields, through bincode.
use vstd::prelude::*;

verus! {

/// The four little-endian bytes of `x`.
pub open spec fn le_bytes(x: u32) -> Seq<u8> {
    seq![
        (x & 0xff) as u8,
        ((x >> 8u32) & 0xff) as u8,
        ((x >> 16u32) & 0xff) as u8,
        ((x >> 24u32) & 0xff) as u8,
    ]
}

/// The `u32` stored little-endian in `b[i..i + 4]`.
pub open spec fn le_u32_at(b: Seq<u8>, i: int) -> u32 {
    ((b[i] as u32) | ((b[i + 1] as u32) << 8u32) | ((b[i + 2] as u32) << 16u32) | ((
    b[i + 3] as u32) << 24u32)) as u32
}

/// The bytes of the four header fields, in declared order.
pub open spec fn fields_bytes(a: u32, b: u32, c: u32, d: u32) -> Seq<u8> {
    le_bytes(a) + le_bytes(b) + le_bytes(c) + le_bytes(d)
}

/// Relies on bincode::serialize: with its default options a tuple of four
/// `u32` is written as the four fields in order, each as four little-endian
/// bytes, and writing into a `Vec` with no size limit does not fail.
#[verifier::external_body]
pub(crate) fn bincode_serialize_fields(a: u32, b: u32, c: u32, d: u32) -> (r: Option<Vec<u8>>)
    ensures
        r is Some,
        r matches Some(v) ==> v@ == fields_bytes(a, b, c, d),
{
    bincode::serialize(&(a, b, c, d)).ok()
}

/// Relies on bincode::deserialize: with its default options (trailing bytes
/// allowed) a tuple of four `u32` is read from the first 16 bytes, each field
/// little-endian, and the call fails when fewer than 16 bytes are given.
#[verifier::external_body]
pub(crate) fn bincode_deserialize_fields(bytes: &[u8]) -> (r: Option<(u32, u32, u32, u32)>)
    ensures
        r is Some <==> bytes@.len() >= 16,
        r matches Some(t) ==> t == (le_u32_at(bytes@, 0), le_u32_at(bytes@, 4), le_u32_at(
            bytes@,
            8,
        ), le_u32_at(bytes@, 12)),
{
    bincode::deserialize::<(u32, u32, u32, u32)>(bytes).ok()
}

} // verus!
