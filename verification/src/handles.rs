//! The secret handle bridge: a store/claim registry that transfers ownership
//! of an ephemeral secret from the call that produced it to the call that
//! consumes it.
//!
//! `publish` takes exclusive ownership of a secret and returns an opaque
//! handle; `take` removes and returns the secret. A handle is retrievable at
//! most once: slots are never reused, and a consumed or unknown handle fails
//! with `InvalidHandle`. The registry enforces nothing else; round ordering
//! is the protocol's concern.

use vstd::prelude::*;

use crate::errors::Error;

verus! {

/// Process-wide keyed storage for ephemeral secrets of one kind.
///
/// The abstract state is the map from live handles to the stored secrets.
pub struct Registry<T> {
    slots: Vec<Option<T>>,
}

impl<T> View for Registry<T> {
    type V = Map<usize, T>;

    closed spec fn view(&self) -> Map<usize, T> {
        Map::new(
            |h: usize| h < self.slots@.len() && self.slots@[h as int] is Some,
            |h: usize| self.slots@[h as int].unwrap(),
        )
    }
}

impl<T> Registry<T> {
    /// How many handles this registry has ever issued. Handles are issued in
    /// order, so exactly the indices below this count have ever been
    /// returned by `publish`; the count never decreases.
    pub closed spec fn issued(&self) -> nat {
        self.slots@.len()
    }

    /// Whether `publish` ever returned this handle, live or consumed.
    pub open spec fn was_issued(&self, h: usize) -> bool {
        h < self.issued()
    }

    /// An empty registry with no live handle.
    pub fn new() -> (r: Registry<T>)
        ensures
            r@ == Map::<usize, T>::empty(),
            r.issued() == 0,
    {
        let r = Registry { slots: Vec::new() };
        proof {
            assert(r@ =~= Map::<usize, T>::empty());
        }
        r
    }

    /// Stores a secret and returns a fresh handle for it: one this registry
    /// has never issued before, so no handle is ever returned twice.
    /// Afterwards the handle is issued and maps to exactly this secret.
    pub fn publish(&mut self, secret: T) -> (h: usize)
        ensures
            !old(self).was_issued(h),
            !old(self)@.contains_key(h),
            final(self).was_issued(h),
            final(self).issued() == old(self).issued() + 1,
            final(self)@ == old(self)@.insert(h, secret),
    {
        let h = self.slots.len();
        self.slots.push(Some(secret));
        proof {
            assert(final(self)@ =~= old(self)@.insert(h, secret));
        }
        h
    }

    /// Removes and returns the secret that a handle names. Succeeds exactly
    /// where the handle is live; afterwards the handle is permanently dead,
    /// so a second `take` on it fails with `InvalidHandle`.
    pub fn take(&mut self, h: usize) -> (r: Result<T, Error>)
        ensures
            old(self)@.contains_key(h) ==> r is Ok && r.unwrap() == old(self)@[h]
                && final(self)@ == old(self)@.remove(h),
            !old(self)@.contains_key(h) ==> r is Err && r->Err_0 == Error::InvalidHandle
                && final(self)@ == old(self)@,
            final(self).issued() == old(self).issued(),
    {
        if h >= self.slots.len() {
            return Err(Error::InvalidHandle);
        }
        let slot = self.slots.remove(h);
        self.slots.insert(h, None);
        proof {
            assert(self.slots@ =~= old(self).slots@.update(h as int, None));
            if old(self)@.contains_key(h) {
                assert(final(self)@ =~= old(self)@.remove(h));
            } else {
                assert(final(self)@ =~= old(self)@);
            }
        }
        match slot {
            Some(v) => Ok(v),
            None => Err(Error::InvalidHandle),
        }
    }

}

/// A handle can be taken at most once: whatever the registry held, after one
/// successful `take` of a handle the registry no longer contains it, so a
/// second `take` of the same handle must fail with `InvalidHandle`.
pub proof fn lemma_take_at_most_once<T>(m: Map<usize, T>, h: usize)
    ensures
        !m.remove(h).contains_key(h),
{
}

} // verus!
