//! Driver diagnostics: the structured records a failing call carries and
//! their textual rendering for error reporting.

use vstd::prelude::*;
use crate::render::{render_i64, spec_idec};

verus! {

/// One structured diagnostic entry reported by the driver: an SQLSTATE-like
/// status code, a driver-native error code, and a human-readable message.
#[derive(Clone, PartialEq, Eq, Debug)]
pub struct DiagnosticRecord {
    pub state: String,
    pub native_error: i32,
    pub message: String,
}

/// The diagnostics attached to one failing operation. A single failure may
/// carry a sequence of records; the core propagates them and never
/// synthesizes codes of its own.
#[derive(Clone, PartialEq, Eq, Debug)]
pub struct DiagnosticError {
    pub records: Vec<DiagnosticRecord>,
}

/// How one diagnostic record renders: `[STATE] (native) message`.
pub open spec fn spec_render_record(r: DiagnosticRecord) -> Seq<char> {
    "["@ + r.state@ + "] ("@ + spec_idec(r.native_error as int) + ") "@ + r.message@
}

/// The rendering of the first `k` records, one per line.
pub open spec fn spec_render_records(rs: Seq<DiagnosticRecord>, k: int) -> Seq<char>
    decreases k,
{
    if k <= 0 {
        Seq::empty()
    } else {
        spec_render_records(rs, k - 1) + spec_render_record(rs[k - 1]) + "\n"@
    }
}

/// How a whole failure renders: `Error: ` followed by every record.
pub open spec fn spec_render_error(e: DiagnosticError) -> Seq<char> {
    "Error: "@ + spec_render_records(e.records@, e.records@.len() as int)
}

impl DiagnosticRecord {
    /// Renders this record as `[STATE] (native) message`.
    pub fn render(&self) -> (s: String)
        ensures
            s@ == spec_render_record(*self),
    {
        let mut s = String::from_str("[");
        s.append(self.state.as_str());
        s.append("] (");
        let code = render_i64(self.native_error as i64);
        s.append(code.as_str());
        s.append(") ");
        s.append(self.message.as_str());
        proof {
            reveal_strlit("[");
            reveal_strlit("] (");
            reveal_strlit(") ");
        }
        s
    }
}

impl DiagnosticError {
    /// Renders the whole failure, `Error: ` then one line per record, so
    /// that every SQLSTATE, native code and message reaches the user.
    pub fn render(&self) -> (s: String)
        ensures
            s@ == spec_render_error(*self),
    {
        proof {
            reveal_strlit("Error: ");
            reveal_strlit("\n");
        }
        let mut s = String::from_str("Error: ");
        proof {
            assert(s@ =~= "Error: "@ + spec_render_records(self.records@, 0));
        }
        let mut i: usize = 0;
        while i < self.records.len()
            invariant
                0 <= i <= self.records@.len(),
                s@ == "Error: "@ + spec_render_records(self.records@, i as int),
            decreases self.records@.len() - i,
        {
            let piece = self.records[i].render();
            s.append(piece.as_str());
            s.append("\n");
            proof {
                assert(s@ =~= "Error: "@ + spec_render_records(self.records@, i + 1));
            }
            i = i + 1;
        }
        s
    }
}

} // verus!
