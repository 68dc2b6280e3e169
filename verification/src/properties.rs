//! The laws the codec obeys, proved once and for all inputs.

use vstd::prelude::*;
use crate::bytes::{byte_pow, lemma_le_bytes_len, lemma_le_bytes_value};
use crate::decode::{
    decode_float32_spec, decode_float64_spec, numeric_spec, Float64Decoded,
};
use crate::encode::{encode_float32_spec, encode_float64_spec};
use crate::error::DecodeError;
use crate::types::{
    float32_compatible_spec, float32_wire_type, float64_compatible_spec, float64_wire_type,
    is_fixed_point, DataType, TypeInfo,
};

verus! {

/// Law: encoding any 32-bit float and decoding the resulting bytes against
/// the descriptor the encoder declares for it returns the value again, bit
/// for bit.
pub proof fn lemma_float32_round_trip(bits: u32)
    ensures
        decode_float32_spec(float32_wire_type(), encode_float32_spec(bits)) == Ok::<
            u32,
            DecodeError,
        >(bits),
{
    lemma_le_bytes_len(bits as int, 4);
    assert(byte_pow(4) == 0x1_0000_0000) by {
        reveal_with_fuel(byte_pow, 5);
    }
    lemma_le_bytes_value(bits as int, 4);
    assert(encode_float32_spec(bits).subrange(0, 4) =~= encode_float32_spec(bits));
}

/// Law: encoding any 64-bit float and decoding the resulting bytes against
/// the descriptor the encoder declares for it returns the value again, bit
/// for bit.
pub proof fn lemma_float64_round_trip(bits: u64)
    ensures
        decode_float64_spec(float64_wire_type(), encode_float64_spec(bits)) == Ok::<
            Float64Decoded,
            DecodeError,
        >(Float64Decoded::Bits(bits)),
{
    lemma_le_bytes_len(bits as int, 8);
    assert(byte_pow(8) == 0x1_0000_0000_0000_0000) by {
        reveal_with_fuel(byte_pow, 9);
    }
    lemma_le_bytes_value(bits as int, 8);
    assert(encode_float64_spec(bits).subrange(0, 8) =~= encode_float64_spec(bits));
}

/// Law: apart from the backend's canonical 4-byte float tag, every
/// descriptor the 32-bit oracle accepts is accepted by the 64-bit oracle
/// as well.  (`Real` itself is the exception: the 32-bit oracle accepts it
/// at size 4 while the 64-bit oracle, which lists only the 8-byte float,
/// the generic float and the fixed-point tags, does not.)
pub proof fn lemma_compatibility_monotone(ti: TypeInfo)
    requires
        ti.tag != DataType::Real,
    ensures
        float32_compatible_spec(ti) ==> float64_compatible_spec(ti),
{
}

/// Law: fixed-point descriptors are accepted only by the 64-bit oracle:
/// every one of them is 64-bit compatible, whatever its size, scale and
/// precision, and none is 32-bit compatible.
pub proof fn lemma_fixed_point_only_float64(ti: TypeInfo)
    requires
        is_fixed_point(ti.tag),
    ensures
        float64_compatible_spec(ti),
        !float32_compatible_spec(ti),
{
}

/// Law: the 32-bit decoder succeeds exactly on the descriptors the 32-bit
/// oracle accepts, given enough payload bytes; the oracle is a sound and
/// complete pre-check for it.
pub proof fn lemma_float32_decode_follows_oracle(ti: TypeInfo, bytes: Seq<u8>)
    ensures
        decode_float32_spec(ti, bytes) is Ok <==> float32_compatible_spec(ti) && bytes.len() >= 4,
{
}

/// Law: with scale zero the numeric decoder's denominator is one, so the
/// division it asks of the caller degenerates to an exact
/// integer-to-float conversion of the signed magnitude.
pub proof fn lemma_scale_zero_no_division(bytes: Seq<u8>)
    ensures
        numeric_spec(bytes, 0).denominator == 1,
{
}

} // verus!
