//! Typed-value codec for the MSSQL (TDS) wire protocol: wire type
//! descriptors, a compatibility oracle deciding which descriptors can be
//! decoded into which native widths, little-endian encoders for the IEEE
//! bit patterns of 4- and 8-byte floats, and a decoder that recovers either
//! those bit patterns or the integer parts (sign, magnitude, power-of-ten
//! denominator) of a fixed-point numeric value.
//!
//! Floating-point values are represented throughout by their raw bit
//! patterns (`u32` / `u64`); the reinterpretation of those bits as floats,
//! and the final division for fixed-point values, are left to the caller.

pub mod bytes;
pub mod decode;
pub mod encode;
pub mod error;
pub mod properties;
pub mod types;
