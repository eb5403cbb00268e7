//! Errors shared by the decoding pipeline.

use vstd::prelude::*;

verus! {

/// A buffer was shorter than the fields a decoder had to read from it.
///
/// Any stage of the pipeline reports this error when its input is truncated;
/// the caller skips that frame and carries on with the next one.
#[derive(Clone, Copy, Debug, PartialEq, Eq, Structural)]
pub struct UnderflowError;

/// A capture timestamp lay outside the representable range.
#[derive(Clone, Copy, Debug, PartialEq, Eq, Structural)]
pub struct TimestampConversionError;

} // verus!
