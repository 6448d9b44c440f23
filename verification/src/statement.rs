//! The statement handle and its execution state machine: one SQL execution
//! runs Created → executed (result set or not) → fetching → exhausted, and
//! every path ends closed.

use vstd::prelude::*;
use crate::column::ColumnDescriptor;
use crate::diag::DiagnosticError;

verus! {

/// The lifecycle states of one statement.
#[derive(Clone, Copy, PartialEq, Eq, Structural, Debug)]
pub enum StatementState {
    Created,
    NoResultSet,
    HasResultSet,
    Fetching,
    Exhausted,
    Closed,
}

/// How the driver classified a direct execution.
#[derive(Clone, PartialEq, Eq, Debug)]
pub enum ExecOutcome {
    ResultSet,
    NoData,
    Failed(DiagnosticError),
}

/// What the driver answered to one cursor advance.
#[derive(Clone, PartialEq, Eq, Debug)]
pub enum FetchEvent {
    Row,
    End,
    Failed(DiagnosticError),
}

/// What one cursor advance means to the caller.
#[derive(Clone, PartialEq, Eq, Debug)]
pub enum FetchStep {
    GotRow,
    EndOfData,
    Error(DiagnosticError),
}

/// One statement handle: its lifecycle state, the descriptor list computed
/// once per result set (never changing size or order afterwards), and the
/// diagnostic a failed execution left behind.
#[derive(Clone, PartialEq, Eq, Debug)]
pub struct Statement {
    pub state: StatementState,
    pub columns: Vec<ColumnDescriptor>,
    pub described: bool,
    pub diagnostic: Option<DiagnosticError>,
}

impl Statement {
    /// A statement is well formed when its descriptor list exists only
    /// once described, and description only happens over a result set.
    pub open spec fn wf(self) -> bool {
        &&& (!self.described ==> self.columns@.len() == 0)
        &&& (self.described ==> !(self.state is Created) && !(self.state is NoResultSet))
    }

    /// Allocates a fresh statement handle in the Created state.
    pub fn new() -> (st: Statement)
        ensures
            st.state is Created,
            st.columns@.len() == 0,
            !st.described,
            st.diagnostic is None,
            st.wf(),
    {
        Statement {
            state: StatementState::Created,
            columns: Vec::new(),
            described: false,
            diagnostic: None,
        }
    }

    /// Applies the driver's classification of a direct execution: a result
    /// set or none on success; a failure closes the handle at once, carrying
    /// the diagnostic, before the error surfaces to the caller.
    pub fn on_exec_outcome(&mut self, outcome: ExecOutcome)
        requires
            old(self).state is Created,
            old(self).wf(),
        ensures
            final(self).wf(),
            final(self).columns@ == old(self).columns@,
            final(self).described == old(self).described,
            outcome is ResultSet ==> final(self).state is HasResultSet && final(self).diagnostic
                == old(self).diagnostic,
            outcome is NoData ==> final(self).state is NoResultSet && final(self).diagnostic
                == old(self).diagnostic,
            outcome matches ExecOutcome::Failed(e) ==> final(self).state is Closed && final(self).diagnostic == Some(e),
    {
        match outcome {
            ExecOutcome::ResultSet => {
                self.state = StatementState::HasResultSet;
            }
            ExecOutcome::NoData => {
                self.state = StatementState::NoResultSet;
            }
            ExecOutcome::Failed(e) => {
                self.state = StatementState::Closed;
                self.diagnostic = Some(e);
            }
        }
    }

    /// Records the descriptor list the driver reported, exactly once per
    /// result set, before the first fetch; the list never changes afterwards.
    pub fn on_columns_described(&mut self, descs: Vec<ColumnDescriptor>)
        requires
            old(self).state is HasResultSet,
            !old(self).described,
            old(self).wf(),
        ensures
            final(self).wf(),
            final(self).state is HasResultSet,
            final(self).described,
            final(self).columns@ == descs@,
            final(self).diagnostic == old(self).diagnostic,
    {
        self.columns = descs;
        self.described = true;
    }

    /// Advances the cursor by one row, given the driver's answer.
    ///
    /// Exhausted is terminal: once the cursor has reported end-of-data,
    /// every later advance reports end-of-data again without consulting the
    /// driver, and the statement does not change. Otherwise a row keeps the
    /// cursor fetching, the end of the data exhausts it, and a driver
    /// failure closes the handle and surfaces the diagnostics.
    pub fn fetch_next(&mut self, event: FetchEvent) -> (step: FetchStep)
        requires
            old(self).wf(),
            old(self).described,
            old(self).state is HasResultSet || old(self).state is Fetching || old(self).state is Exhausted,
        ensures
            final(self).wf(),
            final(self).columns@ == old(self).columns@,
            final(self).described == old(self).described,
            old(self).state is Exhausted ==> step is EndOfData && *final(self) == *old(self),
            !(old(self).state is Exhausted) ==> {
                &&& (event is Row ==> step is GotRow && final(self).state is Fetching && final(self).diagnostic == old(self).diagnostic)
                &&& (event is End ==> step is EndOfData && final(self).state is Exhausted && final(self).diagnostic == old(self).diagnostic)
                &&& (event matches FetchEvent::Failed(e) ==> step == FetchStep::Error(e) && final(self).state is Closed && final(self).diagnostic == old(self).diagnostic)
            },
    {
        if matches!(self.state, StatementState::Exhausted) {
            return FetchStep::EndOfData;
        }
        match event {
            FetchEvent::Row => {
                self.state = StatementState::Fetching;
                FetchStep::GotRow
            }
            FetchEvent::End => {
                self.state = StatementState::Exhausted;
                FetchStep::EndOfData
            }
            FetchEvent::Failed(e) => {
                self.state = StatementState::Closed;
                FetchStep::Error(e)
            }
        }
    }

    /// Releases the handle. Closing an already closed statement is a
    /// no-op, not an error; nothing else of the statement changes.
    pub fn close(&mut self)
        ensures
            final(self).state is Closed,
            final(self).columns@ == old(self).columns@,
            final(self).described == old(self).described,
            final(self).diagnostic == old(self).diagnostic,
            old(self).state is Closed ==> *final(self) == *old(self),
    {
        self.state = StatementState::Closed;
    }
}

} // verus!
