use vstd::prelude::*;
use vstd::hash_map::HashMapWithView;
use crate::error::CoreError;

verus! {

/// Bounded store of message keys for out-of-order delivery, keyed by message
/// counter. It is scoped to one epoch at a time: the caller rejects epoch
/// mismatches before consulting it. An insert that would exceed the capacity
/// is rejected with `SkippedStoreError`.
pub struct SkippedKeyStore {
    cap: usize,
    map: HashMapWithView<u64, [u8; 32]>,
}

impl View for SkippedKeyStore {
    type V = Map<u64, [u8; 32]>;

    closed spec fn view(&self) -> Map<u64, [u8; 32]> {
        self.map@
    }
}

impl SkippedKeyStore {
    /// Capacity the store was created with.
    pub closed spec fn spec_cap(&self) -> usize {
        self.cap
    }

    pub fn new(cap: usize) -> (r: Self)
        ensures
            r@ == Map::<u64, [u8; 32]>::empty(),
            r.spec_cap() == cap,
    {
        SkippedKeyStore { cap, map: HashMapWithView::new() }
    }

    /// Stores the skipped message key for `counter`. Replacing the key held
    /// for a counter always succeeds; a new counter is accepted only while
    /// the store is below its capacity.
    pub fn put(&mut self, counter: u64, mk: [u8; 32]) -> (r: Result<(), CoreError>)
        ensures
            final(self).spec_cap() == old(self).spec_cap(),
            r is Ok <==> (old(self)@.contains_key(counter) || old(self)@.len()
                < old(self).spec_cap()),
            r is Ok ==> final(self)@ == old(self)@.insert(counter, mk),
            r is Err ==> r == Err::<(), CoreError>(CoreError::SkippedStoreError) && final(self)@
                == old(self)@,
    {
        if self.map.contains_key(&counter) || self.map.len() < self.cap {
            self.map.insert(counter, mk);
            Ok(())
        } else {
            Err(CoreError::SkippedStoreError)
        }
    }

    /// Removes and returns the skipped key for `counter`, if one is held.
    pub fn take(&mut self, counter: u64) -> (r: Option<[u8; 32]>)
        ensures
            final(self).spec_cap() == old(self).spec_cap(),
            match r {
                Some(mk) => old(self)@.contains_key(counter) && mk == old(self)@[counter]
                    && final(self)@ == old(self)@.remove(counter),
                None => !old(self)@.contains_key(counter) && final(self)@ == old(self)@,
            },
    {
        self.map.remove(&counter)
    }

    /// Number of keys currently held.
    pub fn len(&self) -> (r: usize)
        ensures
            r == self@.len(),
    {
        self.map.len()
    }
}

/// A skipped key is consumed at most once: after a take of `counter`
/// succeeds, the store holds no key for `counter`, so a second take of the
/// same counter cannot return a key until a new put stores one.
pub proof fn lemma_take_consumes(m: Map<u64, [u8; 32]>, counter: u64)
    ensures
        !m.remove(counter).contains_key(counter),
{
}

} // verus!
