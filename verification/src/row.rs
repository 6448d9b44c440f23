//! Decoding one fetched row: each cell decodes under its column's strategy,
//! in column order; a driver failure at one cell keeps the values already
//! decoded, aborts the remaining cells, and reports the failing pair.

use vstd::prelude::*;
use crate::column::{strategies_for_columns, ColumnDescriptor};
use crate::decode::{decode, spec_decode, spec_fits, CellDatum};
use crate::diag::DiagnosticError;
use crate::dispatch::{spec_strategy_for, DecodeStrategy};
use crate::value::Value;

verus! {

/// What the driver produced for one cell of the current row: a datum in the
/// requested shape, or the diagnostics of a rejected fetch for that cell.
#[derive(Clone, PartialEq, Eq, Debug)]
pub enum CellOutcome {
    Fetched(CellDatum),
    DriverError(DiagnosticError),
}

/// The result of decoding one row: every column's value, or the values
/// decoded before the first failing cell together with that cell's 0-based
/// index and diagnostics.
#[derive(Clone, PartialEq, Eq, Debug)]
pub enum RowOutcome {
    Complete(Vec<Value>),
    Aborted(Vec<Value>, usize, DiagnosticError),
}

/// Decodes one row, cell by cell in column order.
///
/// A complete row yields exactly one value per column — as many values as
/// the statement's descriptor list has columns. A driver failure at cell
/// `k` aborts there: the `k` values already decoded stay valid and the
/// failure's diagnostics are reported for that cell, untouched.
#[verifier::loop_isolation(false)]
pub fn decode_row(strategies: &Vec<DecodeStrategy>, cells: Vec<CellOutcome>) -> (r: RowOutcome)
    requires
        cells@.len() == strategies@.len(),
        forall|i: int|
            0 <= i < cells@.len() ==> ((#[trigger] cells@[i]) matches CellOutcome::Fetched(d) ==> spec_fits(
                strategies@[i],
                d,
            )),
    ensures
        r is Complete <==> (forall|i: int| 0 <= i < cells@.len() ==> (#[trigger] cells@[i]) is Fetched),
        r matches RowOutcome::Complete(vs) ==> {
            &&& vs@.len() == strategies@.len()
            &&& forall|i: int|
                0 <= i < cells@.len() ==> ((#[trigger] cells@[i]) matches CellOutcome::Fetched(d)
                    ==> Some(vs@[i]) == spec_decode(strategies@[i], d))
        },
        r matches RowOutcome::Aborted(vs, k, e) ==> {
            &&& k < cells@.len()
            &&& cells@[k as int] matches CellOutcome::DriverError(e2) && e == e2
            &&& vs@.len() == k as int
            &&& forall|i: int| 0 <= i < k as int ==> (#[trigger] cells@[i]) is Fetched
            &&& forall|i: int|
                0 <= i < k as int ==> ((#[trigger] cells@[i]) matches CellOutcome::Fetched(d)
                    ==> Some(vs@[i]) == spec_decode(strategies@[i], d))
        },
{
    let n: usize = cells.len();
    let ghost orig = cells@;
    let mut rest = cells;
    let mut vals: Vec<Value> = Vec::new();
    let mut i: usize = 0;
    proof {
        assert(rest@ =~= orig.subrange(0, orig.len() as int));
    }
    while rest.len() > 0
        invariant
            orig.len() == n as int,
            i as int + rest@.len() == orig.len(),
            rest@ == orig.subrange(i as int, orig.len() as int),
            orig.len() == strategies@.len(),
            vals@.len() == i as int,
            forall|j: int|
                0 <= j < orig.len() ==> ((#[trigger] orig[j]) matches CellOutcome::Fetched(d) ==> spec_fits(
                    strategies@[j],
                    d,
                )),
            forall|j: int| 0 <= j < i ==> (#[trigger] orig[j]) is Fetched,
            forall|j: int|
                0 <= j < i ==> ((#[trigger] orig[j]) matches CellOutcome::Fetched(d) ==> Some(vals@[j])
                    == spec_decode(strategies@[j], d)),
        decreases rest@.len(),
    {
        let c = rest.remove(0);
        proof {
            assert(c == orig[i as int]);
            assert(rest@ =~= orig.subrange(i as int + 1, orig.len() as int));
        }
        match c {
            CellOutcome::Fetched(d) => {
                let s = strategies[i];
                let v = decode(s, d);
                vals.push(v.unwrap());
            }
            CellOutcome::DriverError(e) => {
                return RowOutcome::Aborted(vals, i, e);
            }
        }
        i = i + 1;
    }
    RowOutcome::Complete(vals)
}

/// Decodes one row under the strategies its statement's descriptor list
/// dictates, in column order.
///
/// The descriptor list fixes the width of every row: a complete row yields
/// exactly as many values as `describe_columns` reported columns, for the
/// life of the statement.
pub fn decode_row_for_columns(columns: &Vec<ColumnDescriptor>, cells: Vec<CellOutcome>) -> (r:
    RowOutcome)
    requires
        cells@.len() == columns@.len(),
        forall|i: int|
            0 <= i < cells@.len() ==> ((#[trigger] cells@[i]) matches CellOutcome::Fetched(d)
                ==> spec_fits(spec_strategy_for(columns@[i].type_code as int), d)),
    ensures
        r is Complete <==> (forall|i: int|
            0 <= i < cells@.len() ==> (#[trigger] cells@[i]) is Fetched),
        r matches RowOutcome::Complete(vs) ==> {
            &&& vs@.len() == columns@.len()
            &&& forall|i: int|
                0 <= i < cells@.len() ==> ((#[trigger] cells@[i]) matches CellOutcome::Fetched(d)
                    ==> Some(vs@[i]) == spec_decode(
                    spec_strategy_for(columns@[i].type_code as int),
                    d,
                ))
        },
        r matches RowOutcome::Aborted(vs, k, e) ==> {
            &&& k < cells@.len()
            &&& cells@[k as int] matches CellOutcome::DriverError(e2) && e == e2
            &&& vs@.len() == k as int
            &&& forall|i: int| 0 <= i < k as int ==> (#[trigger] cells@[i]) is Fetched
        },
{
    let strategies = strategies_for_columns(columns);
    decode_row(&strategies, cells)
}

} // verus!
