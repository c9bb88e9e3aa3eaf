//! The client registry: one writable handle per accepted connection, kept in
//! the order of acceptance. Entries are only ever appended; a connection that
//! closes keeps its entry.
use vstd::prelude::*;

verus! {

/// Positions of a registry of `n` handles, in the order in which a broadcast
/// writes to them: every handle once, in the order of registration.
pub open spec fn fan_out_order(n: nat) -> Seq<usize> {
    Seq::new(n, |i: int| i as usize)
}

/// The shared collection of output handles, one per connection accepted so far.
#[derive(Debug)]
pub struct Registry<H> {
    handles: Vec<H>,
}

impl<H> View for Registry<H> {
    type V = Seq<H>;

    closed spec fn view(&self) -> Seq<H> {
        self.handles@
    }
}

impl<H> Registry<H> {
    /// An empty registry, as a freshly constructed server owns.
    pub fn new() -> (r: Self)
        ensures
            r@ == Seq::<H>::empty(),
    {
        Registry { handles: Vec::new() }
    }

    /// Number of connections accepted so far.
    pub fn len(&self) -> (n: usize)
        ensures
            n == self@.len(),
    {
        self.handles.len()
    }

    /// Appends the handle of a newly accepted connection; returns its position.
    pub fn register(&mut self, handle: H) -> (index: usize)
        requires
            old(self)@.len() < usize::MAX,
        ensures
            final(self)@ == old(self)@.push(handle),
            index == old(self)@.len(),
    {
        let index = self.handles.len();
        self.handles.push(handle);
        index
    }

    /// The handle registered at `index`.
    pub fn handle(&self, index: usize) -> (h: &H)
        requires
            index < self@.len(),
        ensures
            *h == self@[index as int],
    {
        &self.handles[index]
    }

    /// The positions a broadcast writes to, in order: every registered
    /// handle, the sender's own included.
    pub fn recipients(&self) -> (order: Vec<usize>)
        ensures
            order@ == fan_out_order(self@.len()),
    {
        let n = self.handles.len();
        let mut order: Vec<usize> = Vec::with_capacity(n);
        let mut i: usize = 0;
        while i < n
            invariant
                n == self@.len(),
                i <= n,
                order@ == fan_out_order(i as nat),
            decreases n - i,
        {
            order.push(i);
            i = i + 1;
            assert(order@ =~= fan_out_order(i as nat));
        }
        order
    }
}

} // verus!
