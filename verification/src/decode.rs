//! Decoders: wire bytes plus their descriptor back to native values.
//!
//! A decoded float is returned as its IEEE-754 bit pattern; a decoded
//! fixed-point value is returned as its exact integer parts (sign,
//! magnitude, power-of-ten denominator).  The caller performs the final
//! bit reinterpretation or division in floating point; everything up to
//! that point is exact integer arithmetic.

use vstd::prelude::*;
use crate::bytes::{le_magnitude, le_value, pow10, pow10_u64, read_u32_le, read_u64_le};
use crate::error::{DecodeError, NativeType};
use crate::types::{is_fixed_point, DataType, TypeInfo, ValueRef};

verus! {

/// The exact integer parts of a fixed-point wire value: the true decimal
/// value is `magnitude / denominator`, negated when `negative` holds.
#[derive(Clone, Copy, Debug, PartialEq, Eq, Structural)]
pub struct NumericValue {
    pub negative: bool,
    pub magnitude: u128,
    pub denominator: u64,
}

/// What a 64-bit float decode yields before any floating-point operation:
/// either the IEEE-754 bit pattern read off the wire, or the integer parts
/// of a fixed-point value still to be divided.
#[derive(Clone, Copy, Debug, PartialEq, Eq, Structural)]
pub enum Float64Decoded {
    Bits(u64),
    Numeric(NumericValue),
}

/// A fixed-point payload the decoder accepts: a sign byte followed by at
/// most 16 magnitude bytes, with a scale whose power of ten fits in 64
/// bits.
pub open spec fn numeric_payload_ok(bytes: Seq<u8>, scale: u8) -> bool {
    1 <= bytes.len() <= 17 && scale <= 19
}

/// The parts of a fixed-point wire payload: the first byte is the sign
/// flag, where zero means negative and any other value non-negative (the
/// backend's convention, deliberately not the intuitive polarity); the
/// remaining bytes are the little-endian unsigned magnitude.
pub open spec fn numeric_spec(bytes: Seq<u8>, scale: u8) -> NumericValue {
    NumericValue {
        negative: bytes[0] == 0,
        magnitude: le_value(bytes.drop_first()) as u128,
        denominator: pow10(scale as nat) as u64,
    }
}

/// What decoding into the 32-bit float target yields: the bit pattern of
/// the first four payload bytes when the descriptor is an exact-width
/// float, an error naming the tag for every other descriptor, and a
/// malformed-payload error when fewer than four bytes are present.
pub open spec fn decode_float32_spec(ti: TypeInfo, bytes: Seq<u8>) -> Result<u32, DecodeError> {
    if (ti.tag == DataType::Real || ti.tag == DataType::FloatN) && ti.size == 4 {
        if bytes.len() >= 4 {
            Ok(le_value(bytes.subrange(0, 4)) as u32)
        } else {
            Err(DecodeError::MalformedPayload { needed: 4, have: bytes.len() as usize })
        }
    } else {
        Err(
            DecodeError::UnimplementedConversion {
                native: NativeType::Float32,
                tag: ti.tag,
            },
        )
    }
}

/// What decoding into the 64-bit float target yields: the bit pattern of
/// the first eight payload bytes for an 8-byte float descriptor, the
/// integer parts of the value for a fixed-point descriptor, and an error
/// naming the tag for every other descriptor.
pub open spec fn decode_float64_spec(ti: TypeInfo, bytes: Seq<u8>) -> Result<
    Float64Decoded,
    DecodeError,
> {
    if (ti.tag == DataType::Float || ti.tag == DataType::FloatN) && ti.size == 8 {
        if bytes.len() >= 8 {
            Ok(Float64Decoded::Bits(le_value(bytes.subrange(0, 8)) as u64))
        } else {
            Err(DecodeError::MalformedPayload { needed: 8, have: bytes.len() as usize })
        }
    } else if is_fixed_point(ti.tag) {
        Ok(Float64Decoded::Numeric(numeric_spec(bytes, ti.scale)))
    } else {
        Err(
            DecodeError::UnimplementedConversion {
                native: NativeType::Float64,
                tag: ti.tag,
            },
        )
    }
}

/// Decodes one column value into the 32-bit float target, returning the
/// IEEE-754 bit pattern of the value.  Succeeds exactly when the
/// descriptor is one the 32-bit oracle accepts and at least four payload
/// bytes are present.
pub fn decode_float32(value: &ValueRef<'_>) -> (r: Result<u32, DecodeError>)
    ensures
        r == decode_float32_spec(value.type_info, value.bytes@),
{
    let ti = &value.type_info;
    if (matches!(ti.tag, DataType::Real | DataType::FloatN)) && ti.size == 4 {
        if value.bytes.len() >= 4 {
            Ok(read_u32_le(value.bytes))
        } else {
            Err(DecodeError::MalformedPayload { needed: 4, have: value.bytes.len() })
        }
    } else {
        Err(DecodeError::UnimplementedConversion { native: NativeType::Float32, tag: ti.tag })
    }
}

/// Shared arithmetic routine for the fixed-point wire formats: splits a
/// payload into sign flag, zero-extended little-endian magnitude and
/// power-of-ten denominator, all exactly.  `precision` is part of the
/// descriptor but deliberately not consulted.  The floating-point division
/// that follows, and the precision it may lose for magnitudes a 64-bit
/// float cannot represent exactly, are the caller's accepted
/// approximation, not this routine's.
pub fn decode_numeric(bytes: &[u8], _precision: u8, scale: u8) -> (r: NumericValue)
    requires
        numeric_payload_ok(bytes@, scale),
    ensures
        r == numeric_spec(bytes@, scale),
{
    let negative: bool = *vstd::slice::slice_index_get(bytes, 0) == 0;
    let magnitude: u128 = le_magnitude(bytes, 1);
    let denominator: u64 = pow10_u64(scale);
    proof {
        assert(bytes@.drop_first() =~= bytes@.subrange(1, bytes@.len() as int));
    }
    NumericValue { negative, magnitude, denominator }
}

/// Decodes one column value into the 64-bit float target.  An 8-byte
/// float descriptor yields the wire bit pattern; any fixed-point
/// descriptor yields the value's integer parts, whatever its declared
/// size; every other tag is an unimplemented conversion.
pub fn decode_float64(value: &ValueRef<'_>) -> (r: Result<Float64Decoded, DecodeError>)
    requires
        is_fixed_point(value.type_info.tag) ==> numeric_payload_ok(
            value.bytes@,
            value.type_info.scale,
        ),
    ensures
        r == decode_float64_spec(value.type_info, value.bytes@),
{
    let ti = &value.type_info;
    if (matches!(ti.tag, DataType::Float | DataType::FloatN)) && ti.size == 8 {
        if value.bytes.len() >= 8 {
            Ok(Float64Decoded::Bits(read_u64_le(value.bytes)))
        } else {
            Err(DecodeError::MalformedPayload { needed: 8, have: value.bytes.len() })
        }
    } else if (matches!(
        ti.tag,
        DataType::Numeric | DataType::NumericN | DataType::Decimal | DataType::DecimalN
    )) {
        Ok(Float64Decoded::Numeric(decode_numeric(value.bytes, ti.precision, ti.scale)))
    } else {
        Err(DecodeError::UnimplementedConversion { native: NativeType::Float64, tag: ti.tag })
    }
}

} // verus!
