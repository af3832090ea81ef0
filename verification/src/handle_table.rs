//! A slot-indexed registry mapping small integers ("handles") to transient
//! values, so a foreign caller can reference a result without holding a raw
//! memory address.
//!
//! A handle is valid from the moment it is returned by insertion until the
//! moment it is explicitly removed.  Insertion reuses a previously freed slot
//! if one is available and grows the storage otherwise, and it never hands
//! out a handle that currently maps to a live value.

use vstd::prelude::*;

verus! {

/// The registry.  `slots` holds the live values; `free` records the indices
/// of vacated slots so they can be reused by later insertions.
pub struct HandleTable<V> {
    slots: Vec<Option<V>>,
    free: Vec<usize>,
}

impl<V> View for HandleTable<V> {
    type V = Map<int, V>;

    /// A table is viewed as the map from live handles to their values.
    closed spec fn view(&self) -> Map<int, V> {
        Map::new(
            |h: int| 0 <= h < self.slots@.len() && self.slots@[h] is Some,
            |h: int| self.slots@[h]->0,
        )
    }
}

impl<V> HandleTable<V> {
    /// Internal consistency: every free-list entry names a vacant slot, no
    /// slot is named twice, and every vacant slot is on the free list.
    pub closed spec fn wf(&self) -> bool {
        &&& forall|k: int|
            0 <= k < self.free@.len() ==> (#[trigger] self.free@[k]) < self.slots@.len()
                && self.slots@[self.free@[k] as int] is None
        &&& forall|k1: int, k2: int|
            0 <= k1 < k2 < self.free@.len() ==> self.free@[k1] != self.free@[k2]
        &&& forall|i: int|
            0 <= i < self.slots@.len() && (#[trigger] self.slots@[i]) is None
                ==> self.free@.contains(i as usize)
    }

    /// An empty registry: no handle is live.
    pub fn new() -> (t: HandleTable<V>)
        ensures
            t.wf(),
            t@ == Map::<int, V>::empty(),
    {
        let t = HandleTable { slots: Vec::new(), free: Vec::new() };
        proof {
            assert(t@ =~= Map::<int, V>::empty());
        }
        t
    }

    /// Allocates a slot — reusing a previously freed one if available,
    /// otherwise growing the storage — and returns a handle guaranteed to be
    /// currently unassigned to any other live value.
    ///
    /// No two concurrently live handles are ever equal: the returned handle
    /// was not live before this call, so a freed slot is only reused once no
    /// holder of its prior handle can remain.
    pub fn insert_with_unique_id(&mut self, value: V) -> (h: usize)
        requires
            old(self).wf(),
        ensures
            final(self).wf(),
            !old(self)@.dom().contains(h as int),
            final(self)@ == old(self)@.insert(h as int, value),
    {
        let popped = self.free.pop();
        match popped {
            Some(h) => {
                self.slots.set(h, Some(value));
                proof {
                    let pre = old(self);
                    assert forall|i: int|
                        0 <= i < self.slots@.len() && (#[trigger] self.slots@[i]) is None
                            implies self.free@.contains(i as usize) by {
                        assert(pre.slots@[i] is None);
                        let k = choose|k: int|
                            0 <= k < pre.free@.len() && pre.free@[k] == i as usize;
                        assert(k < pre.free@.len() - 1);
                        assert(self.free@[k] == i as usize);
                    }
                    assert(self@ =~= pre@.insert(h as int, value));
                }
                h
            },
            None => {
                let h = self.slots.len();
                self.slots.push(Some(value));
                proof {
                    let pre = old(self);
                    assert forall|i: int|
                        0 <= i < self.slots@.len() && (#[trigger] self.slots@[i]) is None
                            implies self.free@.contains(i as usize) by {
                        assert(i < pre.slots@.len() && pre.slots@[i] is None);
                    }
                    assert(self@ =~= pre@.insert(h as int, value));
                }
                h
            },
        }
    }

    /// Frees the slot, invalidating the handle thereafter.  On an unknown or
    /// already-removed handle it returns `None` — never aborting the process
    /// — which makes a double free harmless.
    pub fn remove_with_id(&mut self, handle: usize) -> (r: Option<V>)
        requires
            old(self).wf(),
        ensures
            final(self).wf(),
            final(self)@ == old(self)@.remove(handle as int),
            old(self)@.dom().contains(handle as int)
                ==> r == Some(old(self)@[handle as int]),
            !old(self)@.dom().contains(handle as int) ==> r is None,
    {
        if handle < self.slots.len() {
            let occupied = self.slots[handle].is_some();
            if occupied {
                proof {
                    // The handle's slot is live, so it cannot be on the free
                    // list; pushing it keeps the list duplicate-free.
                    assert forall|k: int| 0 <= k < self.free@.len()
                        implies #[trigger] self.free@[k] != handle by {
                        assert(self.slots@[self.free@[k] as int] is None);
                    }
                }
                let mut taken: Option<V> = None;
                self.slots.set_and_swap(handle, &mut taken);
                self.free.push(handle);
                proof {
                    let pre = old(self);
                    assert forall|i: int|
                        0 <= i < self.slots@.len() && (#[trigger] self.slots@[i]) is None
                            implies self.free@.contains(i as usize) by {
                        if i == handle {
                            assert(self.free@[self.free@.len() - 1] == handle);
                        } else {
                            let k = choose|k: int|
                                0 <= k < pre.free@.len() && pre.free@[k] == i as usize;
                            assert(self.free@[k] == i as usize);
                        }
                    }
                    assert(self@ =~= pre@.remove(handle as int));
                }
                taken
            } else {
                proof {
                    assert(self@ =~= old(self)@.remove(handle as int));
                }
                None
            }
        } else {
            proof {
                assert(self@ =~= old(self)@.remove(handle as int));
            }
            None
        }
    }

    /// Looks a handle up; the reference is valid strictly until removal.
    pub fn lookup(&self, handle: usize) -> (r: Option<&V>)
        ensures
            self@.dom().contains(handle as int)
                ==> (r matches Some(v) && *v == self@[handle as int]),
            !self@.dom().contains(handle as int) ==> r is None,
    {
        if handle < self.slots.len() {
            match &self.slots[handle] {
                Some(v) => Some(v),
                None => None,
            }
        } else {
            None
        }
    }
}

} // verus!
