//! Decode failures.  Every error is final for the column access that
//! raised it: decoding is deterministic in the bytes and the descriptor,
//! so a retry would only reproduce the same failure.

use vstd::prelude::*;
use crate::types::DataType;

verus! {

/// The native numeric targets a decode can be asked for, named in
/// diagnostics when no conversion exists.
#[derive(Clone, Copy, Debug, PartialEq, Eq, Structural)]
pub enum NativeType {
    Float32,
    Float64,
}

#[derive(Clone, Copy, Debug, PartialEq, Eq, Structural)]
pub enum DecodeError {
    /// No decode path is defined from the descriptor's wire tag to the
    /// requested native type.  Carries both, so the caller can report
    /// exactly which conversion was missing.
    UnimplementedConversion { native: NativeType, tag: DataType },
    /// The payload holds fewer bytes than the fixed-width decode requires:
    /// the wire stream and its declared metadata disagree.
    MalformedPayload { needed: usize, have: usize },
}

} // verus!
