use vstd::prelude::*;

use vstd::pervasive::unreached;

verus! {

/// The interest a descriptor is registered with.
#[derive(Clone, Copy, PartialEq, Eq, Structural, Debug)]
pub enum Interest {
    Readable,
    Writable,
    Both,
}

/// One registration: a connection identifier and its requested interest.
#[verifier::ext_equal]
#[derive(Clone, Copy, PartialEq, Eq, Structural)]
pub struct Registration {
    pub id: u64,
    pub interest: Interest,
}

/// Whether `regs` holds a registration for `id`.
pub open spec fn registered(regs: Seq<Registration>, id: u64) -> bool {
    exists|i: int| 0 <= i < regs.len() && regs[i].id == id
}

/// The readiness-registration table, mirroring what the reactor has told
/// the operating system: which identifiers are registered, each exactly
/// once, and with what interest. Registering an identifier twice, or
/// deregistering one that is not registered, violates the reactor's
/// contract, so both are ruled out here by precondition.
pub struct InterestRegistry {
    regs: Vec<Registration>,
}

impl View for InterestRegistry {
    type V = Seq<Registration>;

    closed spec fn view(&self) -> Seq<Registration> {
        self.regs@
    }
}

impl InterestRegistry {
    /// No identifier is registered twice.
    pub open spec fn wf(&self) -> bool {
        forall|i: int, j: int| 0 <= i < j < self@.len() ==> self@[i].id != self@[j].id
    }

    pub fn new() -> (r: Self)
        ensures
            r@ =~= Seq::<Registration>::empty(),
            r.wf(),
    {
        InterestRegistry { regs: Vec::new() }
    }

    pub fn len(&self) -> (n: usize)
        ensures
            n == self@.len(),
    {
        self.regs.len()
    }

    pub fn contains(&self, id: u64) -> (r: bool)
        ensures
            r == registered(self@, id),
    {
        self.position(id).is_some()
    }

    fn position(&self, id: u64) -> (r: Option<usize>)
        ensures
            match r {
                Some(i) => i < self@.len() && self@[i as int].id == id,
                None => !registered(self@, id),
            },
    {
        let n = self.regs.len();
        let mut i: usize = 0;
        while i < n
            invariant
                n == self@.len(),
                i <= n,
                forall|j: int| 0 <= j < i ==> self@[j].id != id,
            decreases n - i,
        {
            if self.regs[i].id == id {
                return Some(i);
            }
            i = i + 1;
        }
        None
    }

    /// Adds a registration for an identifier that is not yet registered:
    /// registering twice is a programming error, ruled out beforehand.
    pub fn register(&mut self, id: u64, interest: Interest)
        requires
            old(self).wf(),
            !registered(old(self)@, id),
        ensures
            final(self).wf(),
            final(self)@ =~= old(self)@.push(Registration { id, interest }),
            registered(final(self)@, id),
    {
        self.regs.push(Registration { id, interest });
        proof {
            assert(self@[self@.len() - 1].id == id);
        }
    }

    /// Removes the one registration of `id`: afterwards the identifier is
    /// registered no more, so it cannot be deregistered a second time, and
    /// every other registration is kept.
    pub fn deregister(&mut self, id: u64) -> (interest: Interest)
        requires
            old(self).wf(),
            registered(old(self)@, id),
        ensures
            final(self).wf(),
            !registered(final(self)@, id),
            exists|i: int|
                0 <= i < old(self)@.len() && old(self)@[i].id == id && old(self)@[i].interest
                    == interest && final(self)@ =~= old(self)@.remove(i),
    {
        match self.position(id) {
            Some(i) => {
                let ghost pre = self@;
                let r = self.regs.remove(i);
                proof {
                    assert(self@ =~= pre.remove(i as int));
                    assert forall|j: int| 0 <= j < self@.len() implies self@[j].id != id by {
                        if j < i {
                            assert(self@[j] == pre[j]);
                        } else {
                            assert(self@[j] == pre[j + 1]);
                        }
                    }
                }
                r.interest
            },
            None => unreached(),
        }
    }
}

} // verus!
