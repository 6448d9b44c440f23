//! Decoded column values: a closed tagged union over the native shapes the
//! decoder can produce, plus the `Unknown` placeholder for unmapped types.

use vstd::prelude::*;

verus! {

/// A fixed-layout timestamp record as a driver reports it for date and
/// date-time columns.
#[derive(Clone, Copy, PartialEq, Eq, Structural, Debug)]
pub struct TimestampValue {
    pub year: i16,
    pub month: u16,
    pub day: u16,
    pub hour: u16,
    pub minute: u16,
    pub second: u16,
    pub fraction: u32,
}

/// A decoded column value.
///
/// Floating-point columns are carried as their decimal text renderings:
/// the core reads nothing of a floating-point value but its textual form,
/// so the embedding converts at the boundary and the core stays exact.
#[derive(Clone, PartialEq, Eq, Debug)]
pub enum Value {
    Null,
    Boolean(bool),
    Int32(i32),
    Int64(i64),
    Float32(String),
    Float64(String),
    Text(String),
    Timestamp(TimestampValue),
    Unknown,
}

} // verus!
