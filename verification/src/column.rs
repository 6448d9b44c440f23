//! Column metadata: the per-column descriptor a result set reports once,
//! immutable for the life of its statement, and the dispatch over a whole
//! descriptor list.

use vstd::prelude::*;
use crate::dispatch::{spec_strategy_for, strategy_for, DecodeStrategy};
use crate::render::{render_i64, render_u64, spec_idec, spec_udec};

verus! {

/// What the driver reports for one result-set column: 1-based ordinal,
/// name, numeric type code, declared size and digits, and nullability.
#[derive(Clone, PartialEq, Eq, Debug)]
pub struct ColumnDescriptor {
    pub ordinal: u16,
    pub name: String,
    pub type_code: i16,
    pub column_size: Option<u64>,
    pub decimal_digits: Option<u16>,
    pub nullable: Option<bool>,
}

/// How an optional declared size renders: its decimal value, or `-`.
pub open spec fn spec_render_size(sz: Option<u64>) -> Seq<char> {
    match sz {
        Some(n) => spec_udec(n as nat),
        None => "-"@,
    }
}

/// How a nullability flag renders: `true`, `false`, or `-` when unreported.
pub open spec fn spec_render_nullable(n: Option<bool>) -> Seq<char> {
    match n {
        Some(true) => "true"@,
        Some(false) => "false"@,
        None => "-"@,
    }
}

/// The metadata line printed for one descriptor before any rows:
/// `name | type <code> | size <size> | nullable <flag>`.
pub open spec fn spec_render_descriptor(c: ColumnDescriptor) -> Seq<char> {
    c.name@ + " | type "@ + spec_idec(c.type_code as int) + " | size "@ + spec_render_size(
        c.column_size,
    ) + " | nullable "@ + spec_render_nullable(c.nullable)
}

impl ColumnDescriptor {
    /// Renders this descriptor's metadata line.
    pub fn render(&self) -> (s: String)
        ensures
            s@ == spec_render_descriptor(*self),
    {
        proof {
            reveal_strlit(" | type ");
            reveal_strlit(" | size ");
            reveal_strlit(" | nullable ");
            reveal_strlit("-");
            reveal_strlit("true");
            reveal_strlit("false");
        }
        let mut s = String::from_str(self.name.as_str());
        s.append(" | type ");
        let code = render_i64(self.type_code as i64);
        s.append(code.as_str());
        s.append(" | size ");
        match self.column_size {
            Some(n) => {
                let size = render_u64(n);
                s.append(size.as_str());
            }
            None => {
                s.append("-");
            }
        }
        s.append(" | nullable ");
        match self.nullable {
            Some(true) => {
                s.append("true");
            }
            Some(false) => {
                s.append("false");
            }
            None => {
                s.append("-");
            }
        }
        s
    }
}

/// Chooses the decode strategy for every column of a descriptor list, in
/// column order: the column count fixes how many values each row yields.
pub fn strategies_for_columns(columns: &Vec<ColumnDescriptor>) -> (v: Vec<DecodeStrategy>)
    ensures
        v@.len() == columns@.len(),
        forall|i: int|
            0 <= i < columns@.len() ==> v@[i] == spec_strategy_for(columns@[i].type_code as int),
{
    let mut v: Vec<DecodeStrategy> = Vec::new();
    let mut i: usize = 0;
    while i < columns.len()
        invariant
            0 <= i <= columns@.len(),
            v@.len() == i as int,
            forall|j: int|
                0 <= j < i ==> v@[j] == spec_strategy_for(columns@[j].type_code as int),
        decreases columns@.len() - i,
    {
        let s = strategy_for(columns[i].type_code);
        v.push(s);
        i = i + 1;
    }
    v
}

} // verus!
