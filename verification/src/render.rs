//! Textual rendering of decoded values: each column renders as
//! `" | "` followed by its textual representation, or the literal `NULL`
//! when the driver signalled an absent value.

use vstd::prelude::*;
use crate::value::{TimestampValue, Value};

verus! {

/// The decimal digit character for one digit value.
pub open spec fn spec_digit_char(d: int) -> char {
    if d == 0 {
        '0'
    } else if d == 1 {
        '1'
    } else if d == 2 {
        '2'
    } else if d == 3 {
        '3'
    } else if d == 4 {
        '4'
    } else if d == 5 {
        '5'
    } else if d == 6 {
        '6'
    } else if d == 7 {
        '7'
    } else if d == 8 {
        '8'
    } else {
        '9'
    }
}

/// The decimal rendering of a nonnegative integer, most significant digit
/// first, with no leading zeros (`0` renders as "0").
pub open spec fn spec_udec(n: nat) -> Seq<char>
    decreases n,
{
    if n < 10 {
        seq![spec_digit_char(n as int)]
    } else {
        spec_udec(n / 10) + seq![spec_digit_char((n % 10) as int)]
    }
}

/// The decimal rendering of a signed integer: a leading '-' for negatives.
pub open spec fn spec_idec(n: int) -> Seq<char> {
    if n < 0 {
        seq!['-'] + spec_udec((-n) as nat)
    } else {
        spec_udec(n as nat)
    }
}

fn digit_str(d: u64) -> (r: &'static str)
    requires
        d < 10,
    ensures
        r@ == seq![spec_digit_char(d as int)],
{
    proof {
        reveal_strlit("0");
        reveal_strlit("1");
        reveal_strlit("2");
        reveal_strlit("3");
        reveal_strlit("4");
        reveal_strlit("5");
        reveal_strlit("6");
        reveal_strlit("7");
        reveal_strlit("8");
        reveal_strlit("9");
    }
    if d == 0 {
        "0"
    } else if d == 1 {
        "1"
    } else if d == 2 {
        "2"
    } else if d == 3 {
        "3"
    } else if d == 4 {
        "4"
    } else if d == 5 {
        "5"
    } else if d == 6 {
        "6"
    } else if d == 7 {
        "7"
    } else if d == 8 {
        "8"
    } else {
        "9"
    }
}

/// Renders an unsigned integer in decimal.
pub fn render_u64(n: u64) -> (s: String)
    ensures
        s@ == spec_udec(n as nat),
    decreases n,
{
    if n < 10 {
        String::from_str(digit_str(n))
    } else {
        let mut s = render_u64(n / 10);
        s.append(digit_str(n % 10));
        s
    }
}

/// Renders a signed integer in decimal.
pub fn render_i64(n: i64) -> (s: String)
    ensures
        s@ == spec_idec(n as int),
{
    if n >= 0 {
        render_u64(n as u64)
    } else {
        let mag: u64 = if n == i64::MIN {
            9223372036854775808u64
        } else {
            (0 - n) as u64
        };
        proof {
            assert(mag as int == -(n as int));
            reveal_strlit("-");
        }
        let mut s = String::from_str("-");
        let digits = render_u64(mag);
        s.append(digits.as_str());
        s
    }
}

/// The fixed textual layout of a timestamp record:
/// `year-month-day hour:minute:second.fraction`, each field in decimal.
pub open spec fn spec_render_timestamp(t: TimestampValue) -> Seq<char> {
    spec_idec(t.year as int) + "-"@ + spec_udec(t.month as nat) + "-"@ + spec_udec(t.day as nat)
        + " "@ + spec_udec(t.hour as nat) + ":"@ + spec_udec(t.minute as nat) + ":"@ + spec_udec(
        t.second as nat,
    ) + "."@ + spec_udec(t.fraction as nat)
}

/// Renders a timestamp record in its fixed layout.
pub fn render_timestamp(t: &TimestampValue) -> (s: String)
    ensures
        s@ == spec_render_timestamp(*t),
{
    proof {
        reveal_strlit("-");
        reveal_strlit(" ");
        reveal_strlit(":");
        reveal_strlit(".");
    }
    let mut s = render_i64(t.year as i64);
    s.append("-");
    let month = render_u64(t.month as u64);
    s.append(month.as_str());
    s.append("-");
    let day = render_u64(t.day as u64);
    s.append(day.as_str());
    s.append(" ");
    let hour = render_u64(t.hour as u64);
    s.append(hour.as_str());
    s.append(":");
    let minute = render_u64(t.minute as u64);
    s.append(minute.as_str());
    s.append(":");
    let second = render_u64(t.second as u64);
    s.append(second.as_str());
    s.append(".");
    let fraction = render_u64(t.fraction as u64);
    s.append(fraction.as_str());
    s
}

/// How one decoded value renders within a row line.
pub open spec fn spec_render_value(v: Value) -> Seq<char> {
    match v {
        Value::Null => " | NULL"@,
        Value::Boolean(b) => if b {
            " | true"@
        } else {
            " | false"@
        },
        Value::Int32(i) => " | "@ + spec_idec(i as int),
        Value::Int64(i) => " | "@ + spec_idec(i as int),
        Value::Float32(t) => " | "@ + t@,
        Value::Float64(t) => " | "@ + t@,
        Value::Text(t) => " | "@ + t@,
        Value::Timestamp(t) => " | "@ + spec_render_timestamp(t),
        Value::Unknown => "| UNKNOWN TYPE"@,
    }
}

/// Renders one decoded value as its column segment of a row line.
pub fn render_value(v: &Value) -> (s: String)
    ensures
        s@ == spec_render_value(*v),
{
    match v {
        Value::Null => String::from_str(" | NULL"),
        Value::Boolean(b) => {
            if *b {
                String::from_str(" | true")
            } else {
                String::from_str(" | false")
            }
        }
        Value::Int32(i) => {
            let mut s = String::from_str(" | ");
            let digits = render_i64(*i as i64);
            s.append(digits.as_str());
            s
        }
        Value::Int64(i) => {
            let mut s = String::from_str(" | ");
            let digits = render_i64(*i);
            s.append(digits.as_str());
            s
        }
        Value::Float32(t) => {
            let mut s = String::from_str(" | ");
            s.append(t.as_str());
            s
        }
        Value::Float64(t) => {
            let mut s = String::from_str(" | ");
            s.append(t.as_str());
            s
        }
        Value::Text(t) => {
            let mut s = String::from_str(" | ");
            s.append(t.as_str());
            s
        }
        Value::Timestamp(t) => {
            let mut s = String::from_str(" | ");
            let ts = render_timestamp(t);
            s.append(ts.as_str());
            s
        }
        Value::Unknown => String::from_str("| UNKNOWN TYPE"),
    }
}

/// The rendering of the first `k` values of a row, in order.
pub open spec fn spec_render_cells(vs: Seq<Value>, k: int) -> Seq<char>
    decreases k,
{
    if k <= 0 {
        Seq::empty()
    } else {
        spec_render_cells(vs, k - 1) + spec_render_value(vs[k - 1])
    }
}

/// The rendering of one whole row line: the column segments concatenated
/// in column order.
pub open spec fn spec_render_row(vs: Seq<Value>) -> Seq<char> {
    spec_render_cells(vs, vs.len() as int)
}

/// Renders one row of decoded values as a single line.
pub fn render_row(values: &Vec<Value>) -> (line: String)
    ensures
        line@ == spec_render_row(values@),
{
    let mut s = String::new();
    let mut i: usize = 0;
    while i < values.len()
        invariant
            0 <= i <= values@.len(),
            s@ == spec_render_cells(values@, i as int),
        decreases values@.len() - i,
    {
        let piece = render_value(&values[i]);
        s.append(piece.as_str());
        i = i + 1;
    }
    s
}

} // verus!
