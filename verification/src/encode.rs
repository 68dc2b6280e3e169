//! Encoders: native values to outbound wire bytes.
//!
//! Encoding never fails for a non-null numeric value and performs no
//! validation against a target descriptor; the caller chooses the
//! descriptor separately through the compatibility oracle.

use vstd::prelude::*;
use crate::bytes::{le_bytes, push_le};
use crate::types::IsNull;

verus! {

/// The wire bytes of a 32-bit float with the given bit pattern: its four
/// bytes, little-endian.
pub open spec fn encode_float32_spec(bits: u32) -> Seq<u8> {
    le_bytes(bits as int, 4)
}

/// The wire bytes of a 64-bit float with the given bit pattern: its eight
/// bytes, little-endian.
pub open spec fn encode_float64_spec(bits: u64) -> Seq<u8> {
    le_bytes(bits as int, 8)
}

/// Appends the little-endian wire representation of a 32-bit float, given
/// by its IEEE-754 bit pattern, and reports that the value is not NULL.
pub fn encode_float32(bits: u32, buf: &mut Vec<u8>) -> (r: IsNull)
    ensures
        final(buf)@ == old(buf)@ + encode_float32_spec(bits),
        r == IsNull::No,
{
    push_le(bits as u64, 4, buf);
    IsNull::No
}

/// Appends the little-endian wire representation of a 64-bit float, given
/// by its IEEE-754 bit pattern, and reports that the value is not NULL.
pub fn encode_float64(bits: u64, buf: &mut Vec<u8>) -> (r: IsNull)
    ensures
        final(buf)@ == old(buf)@ + encode_float64_spec(bits),
        r == IsNull::No,
{
    push_le(bits, 8, buf);
    IsNull::No
}

} // verus!
