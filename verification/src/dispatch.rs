//! Mapping from driver-reported SQL type codes to decode strategies.
//!
//! The driver protocol reports one numeric type code per column; the client
//! must pick a compatible target representation before fetching. The mapping
//! below is total: every code not explicitly recognized falls back to
//! `Unknown`, which stands for a placeholder rather than an error.

use vstd::prelude::*;

verus! {

/// Bit / boolean column type code.
pub const SQL_EXT_BIT: i16 = -7;
/// Fixed-length character column type code.
pub const SQL_CHAR: i16 = 1;
/// Date column type code.
pub const SQL_DATE: i16 = 91;
/// Date-time column type code.
pub const SQL_DATETIME: i16 = 9;
/// 64-bit integer column type code.
pub const SQL_EXT_BIGINT: i16 = -5;
/// Double-precision floating point column type code.
pub const SQL_DOUBLE: i16 = 8;

/// The decode strategy chosen for a column from its reported type code.
#[derive(Clone, Copy, PartialEq, Eq, Structural, Debug)]
pub enum DecodeStrategy {
    Boolean,
    Text,
    Timestamp,
    Int64,
    Float64,
    Unknown,
}

/// The dispatch table: which strategy a given type code selects.
pub open spec fn spec_strategy_for(code: int) -> DecodeStrategy {
    if code == SQL_EXT_BIT as int {
        DecodeStrategy::Boolean
    } else if code == SQL_CHAR as int {
        DecodeStrategy::Text
    } else if code == SQL_DATE as int || code == SQL_DATETIME as int {
        DecodeStrategy::Timestamp
    } else if code == SQL_EXT_BIGINT as int {
        DecodeStrategy::Int64
    } else if code == SQL_DOUBLE as int {
        DecodeStrategy::Float64
    } else {
        DecodeStrategy::Unknown
    }
}

/// Chooses the decode strategy for a driver-reported column type code.
pub fn strategy_for(code: i16) -> (s: DecodeStrategy)
    ensures
        s == spec_strategy_for(code as int),
{
    if code == SQL_EXT_BIT {
        DecodeStrategy::Boolean
    } else if code == SQL_CHAR {
        DecodeStrategy::Text
    } else if code == SQL_DATE || code == SQL_DATETIME {
        DecodeStrategy::Timestamp
    } else if code == SQL_EXT_BIGINT {
        DecodeStrategy::Int64
    } else if code == SQL_DOUBLE {
        DecodeStrategy::Float64
    } else {
        DecodeStrategy::Unknown
    }
}

/// Every type code outside the recognized set maps to the `Unknown`
/// fallback strategy; dispatch never fails on an unrecognized code.
pub proof fn lemma_unrecognized_code_falls_back(code: int)
    requires
        code != SQL_EXT_BIT as int,
        code != SQL_CHAR as int,
        code != SQL_DATE as int,
        code != SQL_DATETIME as int,
        code != SQL_EXT_BIGINT as int,
        code != SQL_DOUBLE as int,
    ensures
        spec_strategy_for(code) == DecodeStrategy::Unknown,
{
}

} // verus!
