use vstd::prelude::*;

use std::collections::HashMap;

use crate::command::GfxError;
use crate::ids::GfxBufferId;

verus! {

broadcast use vstd::std_specs::hash::group_hash_axioms;

/// The consumer's map from logical buffer identifiers to live native
/// handles. Owned exclusively by the presentation side; every mutation
/// happens by applying one queued command, and both protocol faults —
/// creating over a live identifier and deleting an unknown one — are
/// reported instead of being silently absorbed, since either means the
/// producer's view of resource lifetimes can no longer be trusted.
pub struct ResourceTable<H> {
    map: HashMap<GfxBufferId, H>,
}

impl<H> View for ResourceTable<H> {
    type V = Map<GfxBufferId, H>;

    closed spec fn view(&self) -> Map<GfxBufferId, H> {
        self.map@
    }
}

impl<H> ResourceTable<H> {
    pub fn new() -> (t: Self)
        ensures
            t@ == Map::<GfxBufferId, H>::empty(),
    {
        ResourceTable { map: HashMap::new() }
    }

    /// Apply a `Create`: record `handle` as the native resource behind
    /// `id`. An identifier that is already live is a fatal protocol fault
    /// (double create); the table is left unchanged so the caller can halt
    /// the subsystem.
    pub fn insert_created(&mut self, id: GfxBufferId, handle: H) -> (r: Result<(), GfxError>)
        ensures
            old(self)@.contains_key(id) ==> r == Err::<(), GfxError>(GfxError::DuplicateBufferId)
                && final(self)@ == old(self)@,
            !old(self)@.contains_key(id) ==> r == Ok::<(), GfxError>(()) && final(self)@ == old(self)@.insert(id, handle),
    {
        if self.map.contains_key(&id) {
            Err(GfxError::DuplicateBufferId)
        } else {
            self.map.insert(id, handle);
            Ok(())
        }
    }

    /// Apply a `Delete`: forget `id` and hand its native handle back so the
    /// caller can release the device resource. An identifier that is not
    /// live is a fatal protocol fault (double free or fabrication); the
    /// table is left unchanged so the caller can halt the subsystem.
    pub fn remove_deleted(&mut self, id: GfxBufferId) -> (r: Result<H, GfxError>)
        ensures
            !old(self)@.contains_key(id) ==> r == Err::<H, GfxError>(GfxError::UnknownBufferId)
                && final(self)@ == old(self)@,
            old(self)@.contains_key(id) ==> r == Ok::<H, GfxError>(old(self)@[id]) && final(self)@ == old(self)@.remove(id),
    {
        match self.map.remove(&id) {
            Some(handle) => Ok(handle),
            None => Err(GfxError::UnknownBufferId),
        }
    }

    /// Whether `id` currently maps to a live native handle.
    pub fn contains_buffer(&self, id: GfxBufferId) -> (r: bool)
        ensures
            r == self@.contains_key(id),
    {
        self.map.contains_key(&id)
    }

    /// How many resources are live.
    pub fn len(&self) -> (n: usize)
        ensures
            n == self@.len(),
    {
        self.map.len()
    }
}

} // verus!
