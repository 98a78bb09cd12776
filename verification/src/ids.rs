use vstd::prelude::*;

verus! {

/// Logical identifier of one GPU buffer resource. Identifiers are issued by
/// a single monotonically increasing counter, so each value stands for at
/// most one resource over the life of the process.
pub type GfxBufferId = u32;

/// Issues process-unique, strictly increasing buffer identifiers.
///
/// The counter is the only state the producer and consumer sides share
/// without a per-slot lock; callers that allocate from several threads wrap
/// one allocator behind an atomic or a mutex, which does not change the
/// contract below.
pub struct IdAllocator {
    next: u32,
}

impl IdAllocator {
    /// The identifier the next call to `allocate` returns; every identifier
    /// issued so far is strictly below it.
    pub closed spec fn next_id(self) -> u32 {
        self.next
    }

    pub fn new() -> (a: Self)
        ensures
            a.next_id() == 0,
    {
        IdAllocator { next: 0 }
    }

    /// The counter's current reading, so an unverified caller can test
    /// before allocating that the counter is not about to be exhausted.
    pub fn next_value(&self) -> (r: u32)
        ensures
            r == self.next_id(),
    {
        self.next
    }

    /// Returns a value never returned before, strictly greater than all
    /// previously returned values.
    pub fn allocate(&mut self) -> (id: GfxBufferId)
        requires
            old(self).next_id() < u32::MAX,
        ensures
            id == old(self).next_id(),
            final(self).next_id() == old(self).next_id() + 1,
    {
        let id = self.next;
        self.next = self.next + 1;
        id
    }
}

/// What a run of `allocate` calls returns: starting from a state whose
/// counter reads `start`, the k-th call returns `start + k`.
pub open spec fn allocation_run(ids: Seq<GfxBufferId>, start: GfxBufferId) -> bool {
    forall|k: int| 0 <= k < ids.len() ==> ids[k] == start + k
}

/// Law: the identifiers returned by any number of `allocate` calls are
/// pairwise distinct (and strictly increasing in allocation order).
pub proof fn lemma_allocation_run_distinct(ids: Seq<GfxBufferId>, start: GfxBufferId)
    requires
        allocation_run(ids, start),
    ensures
        forall|i: int, j: int| 0 <= i < j < ids.len() ==> ids[i] != ids[j],
{
}

} // verus!
