use odbc_core::decode::{datum_fits, decode, CellDatum};
use odbc_core::dispatch::{
    strategy_for, DecodeStrategy, SQL_CHAR, SQL_DATE, SQL_DATETIME, SQL_DOUBLE, SQL_EXT_BIGINT,
    SQL_EXT_BIT,
};
use odbc_core::value::{TimestampValue, Value};

#[test]
fn dispatch_recognized_codes() {
    assert_eq!(strategy_for(SQL_EXT_BIT), DecodeStrategy::Boolean);
    assert_eq!(strategy_for(SQL_CHAR), DecodeStrategy::Text);
    assert_eq!(strategy_for(SQL_DATE), DecodeStrategy::Timestamp);
    assert_eq!(strategy_for(SQL_DATETIME), DecodeStrategy::Timestamp);
    assert_eq!(strategy_for(SQL_EXT_BIGINT), DecodeStrategy::Int64);
    assert_eq!(strategy_for(SQL_DOUBLE), DecodeStrategy::Float64);
}

#[test]
fn dispatch_unrecognized_codes_fall_back() {
    // integer, varchar, unknown-type, and vendor-specific codes all map to
    // the Unknown fallback rather than failing
    for code in [0i16, 2, 3, 4, 5, 6, 7, 12, 92, 93, -1, -6, -150, i16::MIN, i16::MAX] {
        assert_eq!(strategy_for(code), DecodeStrategy::Unknown);
    }
}

#[test]
fn decode_supported_values() {
    assert_eq!(
        decode(DecodeStrategy::Boolean, CellDatum::Bool(true)),
        Some(Value::Boolean(true))
    );
    assert_eq!(
        decode(DecodeStrategy::Boolean, CellDatum::Bool(false)),
        Some(Value::Boolean(false))
    );
    assert_eq!(
        decode(DecodeStrategy::Int64, CellDatum::Int(-42)),
        Some(Value::Int64(-42))
    );
    assert_eq!(
        decode(DecodeStrategy::Text, CellDatum::Str(String::from("abc"))),
        Some(Value::Text(String::from("abc")))
    );
    let float_repr = format!("{}", 2.5f64);
    assert_eq!(
        decode(DecodeStrategy::Float64, CellDatum::Float(float_repr.clone())),
        Some(Value::Float64(float_repr))
    );
    let ts = TimestampValue {
        year: 2020,
        month: 1,
        day: 31,
        hour: 23,
        minute: 59,
        second: 58,
        fraction: 7,
    };
    assert_eq!(
        decode(DecodeStrategy::Timestamp, CellDatum::Ts(ts)),
        Some(Value::Timestamp(ts))
    );
}

#[test]
fn decode_null_indicator_yields_null_for_every_strategy() {
    for s in [
        DecodeStrategy::Boolean,
        DecodeStrategy::Text,
        DecodeStrategy::Timestamp,
        DecodeStrategy::Int64,
        DecodeStrategy::Float64,
    ] {
        assert_eq!(decode(s, CellDatum::Null), Some(Value::Null));
    }
}

#[test]
fn decode_unknown_strategy_yields_placeholder_deterministically() {
    // whatever datum arrives, the Unknown strategy yields the placeholder
    for d in [
        CellDatum::Null,
        CellDatum::Bool(true),
        CellDatum::Int(7),
        CellDatum::Str(String::from("x")),
    ] {
        assert_eq!(decode(DecodeStrategy::Unknown, d.clone()), Some(Value::Unknown));
        assert_eq!(decode(DecodeStrategy::Unknown, d), Some(Value::Unknown));
    }
}

#[test]
fn decode_shape_mismatch_yields_none() {
    assert_eq!(decode(DecodeStrategy::Boolean, CellDatum::Int(1)), None);
    assert_eq!(decode(DecodeStrategy::Int64, CellDatum::Bool(true)), None);
    assert_eq!(
        decode(DecodeStrategy::Text, CellDatum::Float(String::from("1.5"))),
        None
    );
    assert!(!datum_fits(DecodeStrategy::Boolean, &CellDatum::Int(1)));
    assert!(datum_fits(DecodeStrategy::Boolean, &CellDatum::Null));
    assert!(datum_fits(DecodeStrategy::Unknown, &CellDatum::Int(1)));
}
