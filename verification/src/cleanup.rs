use vstd::prelude::*;

verus! {

/// The identifiers of connections that finished during the current batch.
/// Each identifier is recorded at most once, however often its completion
/// was observed, so cleanup removes and deregisters each exactly once.
pub struct CompletedSet {
    ids: Vec<u64>,
}

impl View for CompletedSet {
    type V = Seq<u64>;

    closed spec fn view(&self) -> Seq<u64> {
        self.ids@
    }
}

/// The model of recording a completed identifier: already-recorded
/// identifiers are not recorded again.
pub open spec fn mark_model(s: Seq<u64>, id: u64) -> Seq<u64> {
    if s.contains(id) {
        s
    } else {
        s.push(id)
    }
}

impl CompletedSet {
    /// No identifier is recorded twice.
    pub open spec fn wf(&self) -> bool {
        forall|i: int, j: int| 0 <= i < j < self@.len() ==> self@[i] != self@[j]
    }

    pub fn new() -> (r: Self)
        ensures
            r@ =~= Seq::<u64>::empty(),
            r.wf(),
    {
        CompletedSet { ids: Vec::new() }
    }

    pub fn len(&self) -> (n: usize)
        ensures
            n == self@.len(),
    {
        self.ids.len()
    }

    pub fn get(&self, i: usize) -> (r: u64)
        requires
            i < self@.len(),
        ensures
            r == self@[i as int],
    {
        self.ids[i]
    }

    pub fn contains(&self, id: u64) -> (r: bool)
        ensures
            r == self@.contains(id),
    {
        let n = self.ids.len();
        let mut i: usize = 0;
        while i < n
            invariant
                n == self@.len(),
                i <= n,
                forall|j: int| 0 <= j < i ==> self@[j] != id,
            decreases n - i,
        {
            if self.ids[i] == id {
                return true;
            }
            i = i + 1;
        }
        false
    }

    /// Records `id` unless it is already recorded: a completion observed
    /// more than once within one batch still leads to one cleanup.
    pub fn mark(&mut self, id: u64)
        requires
            old(self).wf(),
        ensures
            final(self).wf(),
            final(self)@ =~= mark_model(old(self)@, id),
            final(self)@.contains(id),
    {
        if !self.contains(id) {
            self.ids.push(id);
            assert(self@[self@.len() - 1] == id);
        }
    }
}

} // verus!
