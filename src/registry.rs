use vstd::prelude::*;

verus! {

/// The cleanup records of resource handles that have been released and whose
/// server-side cleanup has not finished yet, oldest first.
pub struct Registry {
    pending: Vec<u64>,
}

impl View for Registry {
    type V = Seq<u64>;

    closed spec fn view(&self) -> Seq<u64> {
        self.pending@
    }
}

impl Registry {
    /// No handle has two records at once.
    pub open spec fn wf(&self) -> bool {
        self@.no_duplicates()
    }

    /// An empty registry.
    pub fn new() -> (r: Registry)
        ensures
            r@ == Seq::<u64>::empty(),
            r.wf(),
    {
        Registry { pending: Vec::new() }
    }

    /// Records the cleanup of handle `id`, which has no record yet.
    pub fn register(&mut self, id: u64)
        requires
            old(self).wf(),
            !old(self)@.contains(id),
        ensures
            final(self)@ == old(self)@.push(id),
            final(self).wf(),
    {
        self.pending.push(id);
    }

    /// Marks the oldest cleanup as finished and returns its handle, if any.
    pub fn complete_oldest(&mut self) -> (r: Option<u64>)
        requires
            old(self).wf(),
        ensures
            old(self)@.len() == 0 ==> r is None && *final(self) == *old(self),
            old(self)@.len() > 0 ==> r == Some(old(self)@[0]) && final(self)@ == old(
                self,
            )@.drop_first(),
            final(self).wf(),
    {
        if self.pending.len() == 0 {
            None
        } else {
            let id = self.pending.remove(0);
            assert(self@ =~= old(self)@.drop_first());
            Some(id)
        }
    }

    /// Drops every record without running its cleanup.
    pub fn abandon_all(&mut self)
        ensures
            final(self)@ == Seq::<u64>::empty(),
            final(self).wf(),
    {
        self.pending.clear();
    }

    /// Whether every issued cleanup has finished.
    pub fn is_drained(&self) -> (r: bool)
        ensures
            r == (self@.len() == 0),
    {
        self.pending.len() == 0
    }

    /// The number of cleanups still pending.
    pub fn len(&self) -> (r: usize)
        ensures
            r == self@.len(),
    {
        self.pending.len()
    }
}

} // verus!
