//! Sample types.
use vstd::prelude::*;

verus! {

/// Trait for sample types. Typical sample types are `i32`, `u8`, etc.; more can be implemented
/// downstream.
///
/// The zero of a sample type is *not specifically* the numerical zero of the type, but the
/// value for which the amplitude of the stream is zero: for unsigned types it is the middle of
/// their range.
pub trait Sample: Copy {
    /// Zero value for this sample.
    const ZERO: Self;
}

impl Sample for i8 {
    const ZERO: Self = 0;
}

impl Sample for i16 {
    const ZERO: Self = 0;
}

impl Sample for i32 {
    const ZERO: Self = 0;
}

impl Sample for i64 {
    const ZERO: Self = 0;
}

impl Sample for u8 {
    const ZERO: Self = u8::MAX / 2;
}

impl Sample for u16 {
    const ZERO: Self = u16::MAX / 2;
}

impl Sample for u32 {
    const ZERO: Self = u32::MAX / 2;
}

impl Sample for u64 {
    const ZERO: Self = u64::MAX / 2;
}

} // verus!
