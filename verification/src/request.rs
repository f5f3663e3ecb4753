use vstd::prelude::*;

verus! {

/// Fixed capacity of a request buffer, in bytes.
pub const REQUEST_CAPACITY: usize = 1024;

/// The four-byte end-of-request marker: `\r\n\r\n`.
pub open spec fn terminator() -> Seq<u8> {
    seq![13u8, 10u8, 13u8, 10u8]
}

/// The terminator occurs in `s` starting at index `i`.
pub open spec fn terminator_at(s: Seq<u8>, i: int) -> bool {
    &&& 0 <= i
    &&& i + 4 <= s.len()
    &&& s[i] == 13u8
    &&& s[i + 1] == 10u8
    &&& s[i + 2] == 13u8
    &&& s[i + 3] == 10u8
}

/// The terminator occurs somewhere in `s`.
pub open spec fn contains_terminator(s: Seq<u8>) -> bool {
    exists|i: int| terminator_at(s, i)
}

/// Fixed-capacity request buffer: it accumulates the bytes received so far,
/// never more than `REQUEST_CAPACITY` of them.
pub struct RequestBuffer {
    data: Vec<u8>,
}

impl View for RequestBuffer {
    type V = Seq<u8>;

    closed spec fn view(&self) -> Seq<u8> {
        self.data@
    }
}

impl RequestBuffer {
    pub open spec fn wf(&self) -> bool {
        self@.len() <= REQUEST_CAPACITY
    }

    pub fn new() -> (r: Self)
        ensures
            r@ =~= Seq::<u8>::empty(),
            r.wf(),
    {
        RequestBuffer { data: Vec::new() }
    }

    pub fn len(&self) -> (n: usize)
        ensures
            n == self@.len(),
    {
        self.data.len()
    }

    /// How many more bytes the buffer can take before it is full.
    pub fn remaining(&self) -> (n: usize)
        requires
            self.wf(),
        ensures
            n == REQUEST_CAPACITY - self@.len(),
    {
        REQUEST_CAPACITY - self.data.len()
    }

    /// Appends a chunk of received bytes at the current fill cursor.
    pub fn append(&mut self, chunk: &[u8])
        requires
            old(self).wf(),
            old(self)@.len() + chunk@.len() <= REQUEST_CAPACITY,
        ensures
            final(self)@ =~= old(self)@ + chunk@,
            final(self).wf(),
    {
        let ghost orig = self.data@;
        let n = chunk.len();
        for i in 0..n
            invariant
                n == chunk@.len(),
                self.data@ =~= orig + chunk@.take(i as int),
                orig.len() + n <= REQUEST_CAPACITY,
        {
            self.data.push(chunk[i]);
            assert(self.data@ =~= orig + chunk@.take(i + 1));
        }
        assert(chunk@.take(n as int) =~= chunk@);
    }

    /// Whether the bytes received so far contain the terminator anywhere.
    pub fn has_terminator(&self) -> (r: bool)
        ensures
            r == contains_terminator(self@),
    {
        let n = self.data.len();
        if n < 4 {
            assert(!contains_terminator(self@));
            return false;
        }
        let mut i: usize = 0;
        while i <= n - 4
            invariant
                n == self@.len(),
                4 <= n,
                i <= n,
                forall|j: int| 0 <= j < i ==> !terminator_at(self@, j),
            decreases n - i,
        {
            if self.data[i] == 13 && self.data[i + 1] == 10 && self.data[i + 2] == 13
                && self.data[i + 3] == 10 {
                assert(terminator_at(self@, i as int));
                return true;
            }
            assert(!terminator_at(self@, i as int));
            i = i + 1;
        }
        assert forall|j: int| !terminator_at(self@, j) by {
            if 0 <= j && j + 4 <= self@.len() {
                assert(j < i);
            }
        }
        false
    }
}

} // verus!
