//! Per-cell decoding: turning the datum a driver handed back for one
//! (row, column) pair into a tagged `Value` under the column's strategy.

use vstd::prelude::*;
use crate::dispatch::DecodeStrategy;
use crate::value::{TimestampValue, Value};

verus! {

/// The datum the driver produced for one cell, in the shape the chosen
/// strategy asked for, or `Null` when the driver signalled a NULL indicator.
/// Floating-point data arrives as its decimal text rendering.
#[derive(Clone, PartialEq, Eq, Debug)]
pub enum CellDatum {
    Null,
    Bool(bool),
    Int(i64),
    Float(String),
    Str(String),
    Ts(TimestampValue),
}

/// Whether a datum has the shape the strategy asked the driver for.
/// A NULL indicator fits every strategy; the `Unknown` strategy asks the
/// driver for nothing, so any datum is acceptable to it.
pub open spec fn spec_fits(s: DecodeStrategy, d: CellDatum) -> bool {
    match s {
        DecodeStrategy::Unknown => true,
        _ => match d {
            CellDatum::Null => true,
            CellDatum::Bool(_) => s == DecodeStrategy::Boolean,
            CellDatum::Int(_) => s == DecodeStrategy::Int64,
            CellDatum::Float(_) => s == DecodeStrategy::Float64,
            CellDatum::Str(_) => s == DecodeStrategy::Text,
            CellDatum::Ts(_) => s == DecodeStrategy::Timestamp,
        },
    }
}

/// The native value a non-null datum stands for.
pub open spec fn spec_native_value(d: CellDatum) -> Value {
    match d {
        CellDatum::Null => Value::Null,
        CellDatum::Bool(b) => Value::Boolean(b),
        CellDatum::Int(i) => Value::Int64(i),
        CellDatum::Float(t) => Value::Float64(t),
        CellDatum::Str(t) => Value::Text(t),
        CellDatum::Ts(t) => Value::Timestamp(t),
    }
}

/// What decoding one cell yields: the `Unknown` strategy always yields the
/// placeholder; otherwise a NULL indicator yields `Value::Null`, a fitting
/// datum yields its native value, and a datum of the wrong shape yields
/// nothing.
pub open spec fn spec_decode(s: DecodeStrategy, d: CellDatum) -> Option<Value> {
    if s == DecodeStrategy::Unknown {
        Some(Value::Unknown)
    } else if spec_fits(s, d) {
        Some(spec_native_value(d))
    } else {
        None
    }
}

/// Checks whether a datum has the shape the strategy asked for.
pub fn datum_fits(s: DecodeStrategy, d: &CellDatum) -> (b: bool)
    ensures
        b == spec_fits(s, *d),
{
    match s {
        DecodeStrategy::Unknown => true,
        _ => match d {
            CellDatum::Null => true,
            CellDatum::Bool(_) => matches!(s, DecodeStrategy::Boolean),
            CellDatum::Int(_) => matches!(s, DecodeStrategy::Int64),
            CellDatum::Float(_) => matches!(s, DecodeStrategy::Float64),
            CellDatum::Str(_) => matches!(s, DecodeStrategy::Text),
            CellDatum::Ts(_) => matches!(s, DecodeStrategy::Timestamp),
        },
    }
}

/// Decodes one cell: `Some` exactly when the datum fits the strategy (the
/// `Unknown` strategy accepts anything and yields the placeholder), `None`
/// exactly on a shape mismatch.
pub fn decode(s: DecodeStrategy, d: CellDatum) -> (v: Option<Value>)
    ensures
        v == spec_decode(s, d),
{
    match s {
        DecodeStrategy::Unknown => Some(Value::Unknown),
        _ => match d {
            CellDatum::Null => Some(Value::Null),
            CellDatum::Bool(b) => {
                if matches!(s, DecodeStrategy::Boolean) {
                    Some(Value::Boolean(b))
                } else {
                    None
                }
            }
            CellDatum::Int(i) => {
                if matches!(s, DecodeStrategy::Int64) {
                    Some(Value::Int64(i))
                } else {
                    None
                }
            }
            CellDatum::Float(t) => {
                if matches!(s, DecodeStrategy::Float64) {
                    Some(Value::Float64(t))
                } else {
                    None
                }
            }
            CellDatum::Str(t) => {
                if matches!(s, DecodeStrategy::Text) {
                    Some(Value::Text(t))
                } else {
                    None
                }
            }
            CellDatum::Ts(t) => {
                if matches!(s, DecodeStrategy::Timestamp) {
                    Some(Value::Timestamp(t))
                } else {
                    None
                }
            }
        },
    }
}

/// A NULL indicator decodes to `Value::Null` under every strategy that
/// fetches data, whatever the column's declared type.
pub proof fn lemma_null_decodes_to_null(s: DecodeStrategy)
    requires
        s != DecodeStrategy::Unknown,
    ensures
        spec_decode(s, CellDatum::Null) == Some(Value::Null),
{
}

/// For every strategy a recognized type code selects, a fitting non-null
/// datum decodes to the value tagged with its native equivalent.
pub proof fn lemma_supported_decode(s: DecodeStrategy, d: CellDatum)
    requires
        s != DecodeStrategy::Unknown,
        spec_fits(s, d),
    ensures
        spec_decode(s, d) == Some(spec_native_value(d)),
{
}

/// The `Unknown` strategy never fails: it yields the placeholder marker
/// deterministically for every datum, on every row.
pub proof fn lemma_unknown_yields_placeholder(d: CellDatum)
    ensures
        spec_decode(DecodeStrategy::Unknown, d) == Some(Value::Unknown),
{
}

/// A fitting cell always decodes: decoding fails only on a shape mismatch.
pub proof fn lemma_fits_decodes(s: DecodeStrategy, d: CellDatum)
    ensures
        spec_fits(s, d) <==> spec_decode(s, d) is Some,
{
}

} // verus!
