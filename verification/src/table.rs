use vstd::prelude::*;

use crate::conn::Connection;
use crate::conn::ConnView;
use crate::conn::StateModel;
use crate::conn::wf_state;

verus! {

/// Mathematical model of the connection table: the live entries, in table
/// order, and the next identifier to be handed out.
#[verifier::ext_equal]
pub struct TableView {
    pub conns: Seq<ConnView>,
    pub next_id: int,
}

/// Whether the modeled table holds an entry with identifier `id`.
pub open spec fn table_has(t: TableView, id: u64) -> bool {
    exists|i: int| 0 <= i < t.conns.len() && t.conns[i].id == id
}

/// The model of a freshly enrolled connection: reading, empty buffer.
pub open spec fn fresh_conn(id: u64, fd: int) -> ConnView {
    ConnView { id, fd, state: StateModel::Reading { data: Seq::<u8>::empty() } }
}

/// The model of enrolling one accepted descriptor: the next identifier is
/// assigned and a fresh entry appended; no other entry moves.
pub open spec fn enroll_model(t: TableView, fd: int) -> TableView {
    TableView {
        conns: t.conns.push(fresh_conn(t.next_id as u64, fd)),
        next_id: t.next_id + 1,
    }
}

/// The connection table: every live connection, keyed by a stable
/// identifier distinct from the raw descriptor (descriptors are recycled by
/// the operating system; identifiers here never are). It is owned and
/// mutated by the loop thread alone.
pub struct ConnectionTable {
    conns: Vec<Connection>,
    next_id: u64,
}

impl View for ConnectionTable {
    type V = TableView;

    closed spec fn view(&self) -> TableView {
        TableView {
            conns: Seq::new(self.conns@.len(), |i: int| self.conns@[i]@),
            next_id: self.next_id as int,
        }
    }
}

impl ConnectionTable {
    /// Identifiers are unique, below the next one to be handed out, and
    /// every entry's state is well formed.
    pub open spec fn wf(&self) -> bool {
        &&& forall|i: int, j: int|
            0 <= i < j < self@.conns.len() ==> self@.conns[i].id != self@.conns[j].id
        &&& forall|i: int| 0 <= i < self@.conns.len() ==> self@.conns[i].id < self@.next_id
        &&& forall|i: int| 0 <= i < self@.conns.len() ==> wf_state(self@.conns[i].state)
    }

    pub fn new() -> (t: Self)
        ensures
            t@.conns =~= Seq::<ConnView>::empty(),
            t@.next_id == 0,
            t.wf(),
    {
        ConnectionTable { conns: Vec::new(), next_id: 0 }
    }

    pub fn len(&self) -> (n: usize)
        ensures
            n == self@.conns.len(),
    {
        self.conns.len()
    }

    /// The identifier the next enrolled connection would get.
    pub fn next_identifier(&self) -> (r: u64)
        ensures
            r as int == self@.next_id,
    {
        self.next_id
    }

    pub fn contains(&self, id: u64) -> (r: bool)
        ensures
            r == table_has(self@, id),
    {
        self.position(id).is_some()
    }

    /// Where the entry with identifier `id` sits, if anywhere.
    fn position(&self, id: u64) -> (r: Option<usize>)
        ensures
            match r {
                Some(i) => i < self@.conns.len() && self@.conns[i as int].id == id,
                None => !table_has(self@, id),
            },
    {
        let n = self.conns.len();
        let mut i: usize = 0;
        while i < n
            invariant
                n == self@.conns.len(),
                i <= n,
                forall|j: int| 0 <= j < i ==> self@.conns[j].id != id,
            decreases n - i,
        {
            if self.conns[i].id() == id {
                return Some(i);
            }
            i = i + 1;
        }
        None
    }

    /// Enrolls a newly accepted connection: assigns it the next identifier,
    /// never handed out before, and stores it in the reading phase.
    pub fn enroll(&mut self, fd: i32) -> (id: u64)
        requires
            old(self).wf(),
            old(self)@.next_id < u64::MAX,
        ensures
            final(self).wf(),
            id == old(self)@.next_id as u64,
            !table_has(old(self)@, id),
            table_has(final(self)@, id),
            final(self)@ =~= enroll_model(old(self)@, fd as int),
    {
        let id = self.next_id;
        self.next_id = self.next_id + 1;
        let c = Connection::new(id, fd);
        self.conns.push(c);
        proof {
            assert(self@.conns =~= old(self)@.conns.push(fresh_conn(id, fd as int)));
            assert(self@.conns[self@.conns.len() - 1].id == id);
        }
        id
    }

    /// Takes the entry with identifier `id` out of the table, if it is
    /// there: every other entry is kept, in order, and a second take of the
    /// same identifier returns nothing.
    pub fn take(&mut self, id: u64) -> (r: Option<Connection>)
        requires
            old(self).wf(),
        ensures
            final(self).wf(),
            final(self)@.next_id == old(self)@.next_id,
            !table_has(final(self)@, id),
            match r {
                Some(c) => {
                    &&& table_has(old(self)@, id)
                    &&& c@.id == id
                    &&& c@.id < old(self)@.next_id
                    &&& wf_state(c@.state)
                    &&& exists|i: int|
                        0 <= i < old(self)@.conns.len() && old(self)@.conns[i].id == id && c@
                            == old(self)@.conns[i] && final(self)@.conns =~= old(
                            self,
                        )@.conns.remove(i)
                },
                None => !table_has(old(self)@, id) && final(self)@ =~= old(self)@,
            },
    {
        match self.position(id) {
            Some(i) => {
                let ghost pre = self@.conns;
                let c = self.conns.remove(i);
                proof {
                    assert(self@.conns =~= pre.remove(i as int));
                    assert(c@ == pre[i as int]);
                    assert forall|j: int|
                        0 <= j < self@.conns.len() implies self@.conns[j].id != id by {
                        if j < i {
                            assert(self@.conns[j] == pre[j]);
                        } else {
                            assert(self@.conns[j] == pre[j + 1]);
                        }
                    }
                }
                Some(c)
            },
            None => None,
        }
    }

    /// Puts a connection back after its state machine was advanced. Its
    /// identifier must still be free in the table and must have been handed
    /// out before.
    pub fn restore(&mut self, c: Connection)
        requires
            old(self).wf(),
            !table_has(old(self)@, c@.id),
            c@.id < old(self)@.next_id,
            wf_state(c@.state),
        ensures
            final(self).wf(),
            final(self)@.next_id == old(self)@.next_id,
            final(self)@.conns =~= old(self)@.conns.push(c@),
            table_has(final(self)@, c@.id),
    {
        let ghost cv = c@;
        self.conns.push(c);
        proof {
            assert(self@.conns =~= old(self)@.conns.push(cv));
            assert(self@.conns[self@.conns.len() - 1].id == cv.id);
        }
    }
}

} // verus!
