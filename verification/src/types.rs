//! Wire type descriptors and the compatibility oracle.

use vstd::prelude::*;

verus! {

/// The closed set of TDS wire type tags this codec knows about.
///
/// Only the float family (`Real`, `Float`, `FloatN`) and the fixed-point
/// family (`Decimal`, `DecimalN`, `Numeric`, `NumericN`) have decode paths;
/// the remaining tags exist so that a descriptor read off the wire can be
/// represented, and reported, even when no conversion is implemented.
#[derive(Clone, Copy, Debug, PartialEq, Eq, Structural)]
pub enum DataType {
    Null,
    Bit,
    TinyInt,
    SmallInt,
    Int,
    BigInt,
    IntN,
    Real,
    Float,
    FloatN,
    Money,
    SmallMoney,
    MoneyN,
    Decimal,
    DecimalN,
    Numeric,
    NumericN,
    Guid,
    BigVarChar,
    NVarChar,
    Text,
    NText,
    Image,
}

/// A wire type descriptor: the tag plus the numeric metadata the backend
/// reports for a column.  Immutable once read off the wire.
///
/// `size` is the byte width of the encoded value where fixed; `precision`
/// is the total number of significant digits (advisory only; the decoder
/// never consults it); `scale` is the number of digits to the right of the
/// decimal point for the fixed-point tags.
#[derive(Clone, Copy, Debug, PartialEq, Eq, Structural)]
pub struct TypeInfo {
    pub tag: DataType,
    pub size: u32,
    pub precision: u8,
    pub scale: u8,
}

impl TypeInfo {
    /// A descriptor with the given tag and size and zeroed digit metadata,
    /// as produced for an outbound parameter.
    pub fn new(tag: DataType, size: u32) -> (r: TypeInfo)
        ensures
            r == (TypeInfo { tag, size, precision: 0, scale: 0 }),
    {
        TypeInfo { tag, size, precision: 0, scale: 0 }
    }
}

/// A non-owning view of one column value: the raw wire bytes together with
/// the descriptor that tells the decoder how to interpret them.  The view
/// never outlives the row buffer that owns the bytes.
pub struct ValueRef<'a> {
    pub bytes: &'a [u8],
    pub type_info: TypeInfo,
}

/// Whether an encoded parameter value is the SQL NULL marker.
#[derive(Clone, Copy, Debug, PartialEq, Eq, Structural)]
pub enum IsNull {
    Yes,
    No,
}

/// The fixed-point tags: values transmitted as a sign byte plus a scaled
/// unsigned integer magnitude.
pub open spec fn is_fixed_point(tag: DataType) -> bool {
    tag == DataType::Decimal || tag == DataType::DecimalN || tag == DataType::Numeric
        || tag == DataType::NumericN
}

/// Compatibility oracle for the 32-bit float target: only the backend's
/// canonical 4-byte float (`Real`) or a generic `FloatN` of exactly 4 bytes
/// may be decoded into it, so that no precision is silently truncated.
pub open spec fn float32_compatible_spec(ti: TypeInfo) -> bool {
    (ti.tag == DataType::Real || ti.tag == DataType::FloatN) && ti.size == 4
}

/// Compatibility oracle for the 64-bit float target: the canonical 8-byte
/// float (`Float`), a generic `FloatN` of any declared size, or any of the
/// fixed-point tags, since every fixed-point wire value can be absorbed
/// into a 64-bit float approximation regardless of scale or precision.
pub open spec fn float64_compatible_spec(ti: TypeInfo) -> bool {
    ti.tag == DataType::Float || ti.tag == DataType::FloatN || is_fixed_point(ti.tag)
}

/// The descriptor used to declare a 32-bit float parameter.
pub open spec fn float32_wire_type() -> TypeInfo {
    TypeInfo { tag: DataType::FloatN, size: 4, precision: 0, scale: 0 }
}

/// The descriptor used to declare a 64-bit float parameter.
pub open spec fn float64_wire_type() -> TypeInfo {
    TypeInfo { tag: DataType::FloatN, size: 8, precision: 0, scale: 0 }
}

/// Descriptor for an outbound 32-bit float parameter: generic float, 4 bytes.
pub fn float32_type_info() -> (r: TypeInfo)
    ensures
        r == float32_wire_type(),
{
    TypeInfo::new(DataType::FloatN, 4)
}

/// Descriptor for an outbound 64-bit float parameter: generic float, 8 bytes.
pub fn float64_type_info() -> (r: TypeInfo)
    ensures
        r == float64_wire_type(),
{
    TypeInfo::new(DataType::FloatN, 8)
}

/// Can a value described by `ti` be decoded into the 32-bit float target?
pub fn float32_compatible(ti: &TypeInfo) -> (r: bool)
    ensures
        r == float32_compatible_spec(*ti),
{
    (matches!(ti.tag, DataType::Real | DataType::FloatN)) && ti.size == 4
}

/// Can a value described by `ti` be decoded into the 64-bit float target?
pub fn float64_compatible(ti: &TypeInfo) -> (r: bool)
    ensures
        r == float64_compatible_spec(*ti),
{
    matches!(
        ti.tag,
        DataType::Float
            | DataType::FloatN
            | DataType::Decimal
            | DataType::DecimalN
            | DataType::Numeric
            | DataType::NumericN
    )
}

} // verus!
