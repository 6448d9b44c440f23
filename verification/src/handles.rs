//! The handle hierarchy: the environment owns connections, a connection
//! owns statements, and release cascades in reverse-acquisition order.
//! Closing any handle twice is a no-op, never an error.

use vstd::prelude::*;
use crate::statement::Statement;

verus! {

/// One live database session, owner of the statements created under it.
#[derive(Clone, PartialEq, Eq, Debug)]
pub struct Connection {
    pub open: bool,
    pub statements: Vec<Statement>,
}

impl Connection {
    /// A session the driver has just opened: live, owning no statements.
    pub fn opened() -> (c: Connection)
        ensures
            c.open,
            c.statements@.len() == 0,
    {
        Connection { open: true, statements: Vec::new() }
    }

    /// Takes ownership of a statement created under this connection,
    /// returning its index among the owned statements.
    pub fn attach_statement(&mut self, st: Statement) -> (idx: usize)
        requires
            old(self).open,
        ensures
            final(self).open,
            final(self).statements@ == old(self).statements@.push(st),
            idx == old(self).statements@.len(),
    {
        let idx = self.statements.len();
        self.statements.push(st);
        idx
    }

    /// Closes the session, releasing exactly the statements it owns: each
    /// owned statement ends closed and nothing else about it changes.
    /// Closing an already closed connection changes nothing.
    #[verifier::loop_isolation(false)]
    pub fn close(&mut self)
        ensures
            !final(self).open,
            final(self).statements@.len() == old(self).statements@.len(),
            !old(self).open ==> *final(self) == *old(self),
            old(self).open ==> forall|i: int|
                0 <= i < old(self).statements@.len() ==> {
                    &&& (#[trigger] final(self).statements@[i]).state is Closed
                    &&& final(self).statements@[i].columns@ == old(self).statements@[i].columns@
                    &&& final(self).statements@[i].described == old(self).statements@[i].described
                    &&& final(self).statements@[i].diagnostic == old(self).statements@[i].diagnostic
                },
    {
        if !self.open {
            return ;
        }
        self.open = false;
        let mut i: usize = 0;
        while i < self.statements.len()
            invariant
                0 <= i <= self.statements@.len(),
                self.statements@.len() == old(self).statements@.len(),
                self.open == false,
                forall|j: int|
                    0 <= j < i ==> {
                        &&& (#[trigger] self.statements@[j]).state is Closed
                        &&& self.statements@[j].columns@ == old(self).statements@[j].columns@
                        &&& self.statements@[j].described == old(self).statements@[j].described
                        &&& self.statements@[j].diagnostic == old(self).statements@[j].diagnostic
                    },
                forall|j: int|
                    i <= j < self.statements@.len() ==> #[trigger] self.statements@[j] == old(self).statements@[j],
            decreases self.statements@.len() - i,
        {
            let mut st = self.statements.remove(i);
            st.close();
            self.statements.insert(i, st);
            i = i + 1;
        }
    }
}

/// The root handle: process-scoped, owner of every connection, destroyed
/// only after all of them close.
#[derive(Clone, PartialEq, Eq, Debug)]
pub struct Environment {
    pub open: bool,
    pub connections: Vec<Connection>,
}

impl Environment {
    /// An environment the driver has just initialized: live, owning no
    /// connections.
    pub fn opened() -> (e: Environment)
        ensures
            e.open,
            e.connections@.len() == 0,
    {
        Environment { open: true, connections: Vec::new() }
    }

    /// Takes ownership of a connection opened under this environment,
    /// returning its index among the owned connections.
    pub fn attach_connection(&mut self, c: Connection) -> (idx: usize)
        requires
            old(self).open,
        ensures
            final(self).open,
            final(self).connections@ == old(self).connections@.push(c),
            idx == old(self).connections@.len(),
    {
        let idx = self.connections.len();
        self.connections.push(c);
        idx
    }

    /// Closes the environment, first closing every connection it owns
    /// (which in turn releases that connection's statements). Closing an
    /// already closed environment changes nothing.
    #[verifier::loop_isolation(false)]
    pub fn close(&mut self)
        ensures
            !final(self).open,
            final(self).connections@.len() == old(self).connections@.len(),
            !old(self).open ==> *final(self) == *old(self),
            old(self).open ==> forall|i: int|
                0 <= i < old(self).connections@.len() ==> {
                    &&& !(#[trigger] final(self).connections@[i]).open
                    &&& final(self).connections@[i].statements@.len() == old(self).connections@[i].statements@.len()
                    &&& !old(self).connections@[i].open ==> final(self).connections@[i] == old(self).connections@[i]
                },
            old(self).open ==> forall|i: int, j: int|
                0 <= i < old(self).connections@.len() && 0 <= j < old(self).connections@[i].statements@.len() ==> (#[trigger] final(self).connections@[i].statements@[j]).state is Closed || !old(self).connections@[i].open,
    {
        if !self.open {
            return ;
        }
        self.open = false;
        let mut i: usize = 0;
        while i < self.connections.len()
            invariant
                0 <= i <= self.connections@.len(),
                self.connections@.len() == old(self).connections@.len(),
                self.open == false,
                forall|j: int|
                    0 <= j < i ==> {
                        &&& !(#[trigger] self.connections@[j]).open
                        &&& self.connections@[j].statements@.len() == old(self).connections@[j].statements@.len()
                        &&& !old(self).connections@[j].open ==> self.connections@[j] == old(self).connections@[j]
                        &&& forall|k: int|
                            0 <= k < old(self).connections@[j].statements@.len() ==> (
                            #[trigger] self.connections@[j].statements@[k]).state is Closed || !old(self).connections@[j].open
                    },
                forall|j: int|
                    i <= j < self.connections@.len() ==> #[trigger] self.connections@[j] == old(self).connections@[j],
            decreases self.connections@.len() - i,
        {
            let mut c = self.connections.remove(i);
            c.close();
            self.connections.insert(i, c);
            i = i + 1;
        }
    }
}

} // verus!
