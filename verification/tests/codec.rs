use mssql_codec::decode::{decode_float32, decode_float64, decode_numeric, Float64Decoded, NumericValue};
use mssql_codec::encode::{encode_float32, encode_float64};
use mssql_codec::error::{DecodeError, NativeType};
use mssql_codec::types::{
    float32_compatible, float32_type_info, float64_compatible, float64_type_info, DataType,
    IsNull, TypeInfo, ValueRef,
};

/// The floating-point step the decoder leaves to its caller: divide the
/// magnitude by the power-of-ten denominator and apply the sign.
fn numeric_to_f64(n: &NumericValue) -> f64 {
    (n.magnitude as f64) / (n.denominator as f64) * if n.negative { -1.0 } else { 1.0 }
}

fn descriptor(tag: DataType, size: u32, precision: u8, scale: u8) -> TypeInfo {
    TypeInfo { tag, size, precision, scale }
}

#[test]
fn round_trip_float32_bit_for_bit() {
    let values: [f32; 7] = [0.0, 1.0, 1.5, -2.75, 123.456, f32::MAX, f32::MIN_POSITIVE];
    for v in values {
        let mut buf: Vec<u8> = Vec::new();
        let is_null = encode_float32(v.to_bits(), &mut buf);
        assert_eq!(is_null, IsNull::No);
        assert_eq!(buf.len(), 4);
        let view = ValueRef { bytes: &buf, type_info: float32_type_info() };
        let bits = decode_float32(&view).unwrap();
        assert_eq!(bits, v.to_bits());
        assert_eq!(f32::from_bits(bits), v);
    }
}

#[test]
fn round_trip_float64_bit_for_bit() {
    let values: [f64; 7] = [0.0, 1.0, -1.5, 2.718281828459045, -123.456, f64::MAX, f64::MIN_POSITIVE];
    for v in values {
        let mut buf: Vec<u8> = Vec::new();
        let is_null = encode_float64(v.to_bits(), &mut buf);
        assert_eq!(is_null, IsNull::No);
        assert_eq!(buf.len(), 8);
        let view = ValueRef { bytes: &buf, type_info: float64_type_info() };
        match decode_float64(&view).unwrap() {
            Float64Decoded::Bits(bits) => {
                assert_eq!(bits, v.to_bits());
                assert_eq!(f64::from_bits(bits), v);
            }
            Float64Decoded::Numeric(_) => panic!("float descriptor decoded as fixed-point"),
        }
    }
}

#[test]
fn encode_float32_exact_bytes() {
    let mut buf: Vec<u8> = vec![0xAA];
    encode_float32(1.0f32.to_bits(), &mut buf);
    assert_eq!(buf, vec![0xAA, 0x00, 0x00, 0x80, 0x3F]);
}

#[test]
fn encode_float64_exact_bytes() {
    let mut buf: Vec<u8> = Vec::new();
    encode_float64(1.0f64.to_bits(), &mut buf);
    assert_eq!(buf, vec![0x00, 0x00, 0x00, 0x00, 0x00, 0x00, 0xF0, 0x3F]);
}

#[test]
fn type_info_declares_generic_float() {
    assert_eq!(float32_type_info(), descriptor(DataType::FloatN, 4, 0, 0));
    assert_eq!(float64_type_info(), descriptor(DataType::FloatN, 8, 0, 0));
    assert!(float32_compatible(&float32_type_info()));
    assert!(float64_compatible(&float64_type_info()));
}

#[test]
fn compatibility_oracle_float32() {
    assert!(float32_compatible(&descriptor(DataType::Real, 4, 0, 0)));
    assert!(float32_compatible(&descriptor(DataType::FloatN, 4, 0, 0)));
    assert!(!float32_compatible(&descriptor(DataType::FloatN, 8, 0, 0)));
    assert!(!float32_compatible(&descriptor(DataType::Float, 8, 0, 0)));
    assert!(!float32_compatible(&descriptor(DataType::Real, 8, 0, 0)));
    assert!(!float32_compatible(&descriptor(DataType::NumericN, 5, 10, 2)));
    assert!(!float32_compatible(&descriptor(DataType::Int, 4, 0, 0)));
}

#[test]
fn compatibility_oracle_float64() {
    assert!(float64_compatible(&descriptor(DataType::Float, 8, 0, 0)));
    assert!(float64_compatible(&descriptor(DataType::FloatN, 8, 0, 0)));
    // The generic float tag is accepted whatever its declared size...
    assert!(float64_compatible(&descriptor(DataType::FloatN, 4, 0, 0)));
    // ... and so is every fixed-point tag, any size, scale or precision.
    assert!(float64_compatible(&descriptor(DataType::Decimal, 5, 10, 2)));
    assert!(float64_compatible(&descriptor(DataType::DecimalN, 9, 19, 5)));
    assert!(float64_compatible(&descriptor(DataType::Numeric, 5, 10, 0)));
    assert!(float64_compatible(&descriptor(DataType::NumericN, 17, 38, 19)));
    // The canonical 4-byte float belongs to the 32-bit target only.
    assert!(!float64_compatible(&descriptor(DataType::Real, 4, 0, 0)));
    assert!(!float64_compatible(&descriptor(DataType::Int, 4, 0, 0)));
    assert!(!float64_compatible(&descriptor(DataType::Text, 0, 0, 0)));
}

#[test]
fn numeric_decode_positive_scale_two() {
    // sign byte 0x01 = non-negative, magnitude 100 little-endian, scale 2.
    let bytes: [u8; 4] = [0x01, 0x64, 0x00, 0x00];
    let view = ValueRef { bytes: &bytes, type_info: descriptor(DataType::NumericN, 5, 10, 2) };
    match decode_float64(&view).unwrap() {
        Float64Decoded::Numeric(parts) => {
            assert!(!parts.negative);
            assert_eq!(parts.magnitude, 100);
            assert_eq!(parts.denominator, 100);
            assert_eq!(numeric_to_f64(&parts), 1.00);
        }
        Float64Decoded::Bits(_) => panic!("fixed-point descriptor decoded as float bits"),
    }
}

#[test]
fn numeric_decode_negative_scale_one() {
    // sign byte 0x00 = negative, magnitude 1000 little-endian, scale 1.
    let bytes: [u8; 3] = [0x00, 0xE8, 0x03];
    let view = ValueRef { bytes: &bytes, type_info: descriptor(DataType::DecimalN, 5, 10, 1) };
    match decode_float64(&view).unwrap() {
        Float64Decoded::Numeric(parts) => {
            assert!(parts.negative);
            assert_eq!(parts.magnitude, 1000);
            assert_eq!(parts.denominator, 10);
            assert_eq!(numeric_to_f64(&parts), -100.0);
        }
        Float64Decoded::Bits(_) => panic!("fixed-point descriptor decoded as float bits"),
    }
}

#[test]
fn numeric_decode_scale_zero_is_exact() {
    // scale 0: denominator 1, so the conversion is an exact
    // integer-to-float conversion with no division.
    let bytes: [u8; 3] = [0x01, 0x39, 0x30];
    let parts = decode_numeric(&bytes, 10, 0);
    assert_eq!(parts.magnitude, 12345);
    assert_eq!(parts.denominator, 1);
    assert_eq!(numeric_to_f64(&parts), 12345.0);
}

#[test]
fn numeric_decode_sign_byte_polarity() {
    // Zero means negative; any nonzero sign byte means non-negative.
    let negative: [u8; 2] = [0x00, 0x07];
    let positive_one: [u8; 2] = [0x01, 0x07];
    let positive_other: [u8; 2] = [0x2A, 0x07];
    assert!(decode_numeric(&negative, 3, 0).negative);
    assert!(!decode_numeric(&positive_one, 3, 0).negative);
    assert!(!decode_numeric(&positive_other, 3, 0).negative);
}

#[test]
fn numeric_decode_empty_magnitude_is_zero() {
    // A lone sign byte: the magnitude is zero-extended from no bytes.
    let bytes: [u8; 1] = [0x01];
    let view = ValueRef { bytes: &bytes, type_info: descriptor(DataType::Decimal, 1, 1, 0) };
    match decode_float64(&view).unwrap() {
        Float64Decoded::Numeric(parts) => {
            assert_eq!(parts.magnitude, 0);
            assert_eq!(numeric_to_f64(&parts), 0.0);
        }
        Float64Decoded::Bits(_) => panic!("fixed-point descriptor decoded as float bits"),
    }
}

#[test]
fn numeric_decode_full_width_magnitude() {
    // Sixteen magnitude bytes of 0xFF: the largest magnitude the wire
    // format can carry, held exactly in the 128-bit buffer.
    let mut bytes: Vec<u8> = vec![0x01];
    bytes.extend(std::iter::repeat(0xFFu8).take(16));
    let parts = decode_numeric(&bytes, 38, 0);
    assert_eq!(parts.magnitude, u128::MAX);
    assert!(!parts.negative);
}

#[test]
fn unimplemented_conversion_names_tag_and_target() {
    // A large-object tag has no decode path into a float target; the
    // error carries both the requested native type and the wire tag.
    let bytes: [u8; 4] = [0x01, 0x02, 0x03, 0x04];
    let view = ValueRef { bytes: &bytes, type_info: descriptor(DataType::Text, 0, 0, 0) };
    assert_eq!(
        decode_float64(&view),
        Err(DecodeError::UnimplementedConversion { native: NativeType::Float64, tag: DataType::Text })
    );
    let view32 = ValueRef { bytes: &bytes, type_info: descriptor(DataType::NText, 0, 0, 0) };
    assert_eq!(
        decode_float32(&view32),
        Err(DecodeError::UnimplementedConversion { native: NativeType::Float32, tag: DataType::NText })
    );
}

#[test]
fn fixed_point_never_decodes_into_float32() {
    let bytes: [u8; 4] = [0x01, 0x64, 0x00, 0x00];
    let view = ValueRef { bytes: &bytes, type_info: descriptor(DataType::NumericN, 5, 10, 2) };
    assert_eq!(
        decode_float32(&view),
        Err(DecodeError::UnimplementedConversion { native: NativeType::Float32, tag: DataType::NumericN })
    );
}

#[test]
fn float_tag_of_foreign_size_is_unimplemented_for_float64() {
    // A 4-byte float descriptor reaches no 64-bit decode path: its bytes
    // would be misread, so the decoder refuses rather than guess.
    let bytes: [u8; 4] = [0x00, 0x00, 0x80, 0x3F];
    let view = ValueRef { bytes: &bytes, type_info: descriptor(DataType::FloatN, 4, 0, 0) };
    assert_eq!(
        decode_float64(&view),
        Err(DecodeError::UnimplementedConversion { native: NativeType::Float64, tag: DataType::FloatN })
    );
}

#[test]
fn malformed_payload_float64() {
    // Three bytes against an 8-byte float descriptor: the decoder reports
    // the shortfall instead of reading out of bounds.
    let bytes: [u8; 3] = [0x01, 0x02, 0x03];
    let view = ValueRef { bytes: &bytes, type_info: descriptor(DataType::FloatN, 8, 0, 0) };
    assert_eq!(
        decode_float64(&view),
        Err(DecodeError::MalformedPayload { needed: 8, have: 3 })
    );
}

#[test]
fn malformed_payload_float32() {
    let bytes: [u8; 2] = [0x01, 0x02];
    let view = ValueRef { bytes: &bytes, type_info: descriptor(DataType::Real, 4, 0, 0) };
    assert_eq!(
        decode_float32(&view),
        Err(DecodeError::MalformedPayload { needed: 4, have: 2 })
    );
}

#[test]
fn decode_reads_only_the_declared_width() {
    // Trailing bytes beyond the fixed width are ignored, not misread.
    let bytes: [u8; 6] = [0x00, 0x00, 0x80, 0x3F, 0xDE, 0xAD];
    let view = ValueRef { bytes: &bytes, type_info: descriptor(DataType::Real, 4, 0, 0) };
    assert_eq!(f32::from_bits(decode_float32(&view).unwrap()), 1.0f32);
}

#[test]
fn encode_appends_without_disturbing_prefix() {
    let mut buf: Vec<u8> = vec![0x10, 0x20];
    encode_float64((-2.5f64).to_bits(), &mut buf);
    assert_eq!(&buf[..2], &[0x10, 0x20]);
    assert_eq!(buf.len(), 10);
    let view = ValueRef { bytes: &buf[2..], type_info: float64_type_info() };
    match decode_float64(&view).unwrap() {
        Float64Decoded::Bits(bits) => assert_eq!(f64::from_bits(bits), -2.5),
        Float64Decoded::Numeric(_) => panic!("float descriptor decoded as fixed-point"),
    }
}
