//! The slot storage of [`crate::sync::Gen`].
use std::sync::Arc;
use vstd::prelude::*;
use vstd::rwlock::RwLock;

use crate::engine::SlotRule;
use crate::slot::Slot;

verus! {

/// A transfer slot behind a lock and an `Arc`. A clone is another handle to the same slot.
pub struct Airlock<Y, R>(Arc<RwLock<Slot<Y, R>, SlotRule>>);

impl<Y, R> Default for Airlock<Y, R> {
    /// Creates storage that holds a vacant slot.
    fn default() -> Self {
        Airlock(Arc::new(RwLock::new(Slot::new(), Ghost(SlotRule))))
    }
}

/// Makes another pointer to the same allocation with `Arc::clone`: the two point to one and
/// the same cell, which is all that is claimed.
#[verifier::external_body]
fn share<T>(pointer: &Arc<T>) -> (other: Arc<T>)
    ensures
        other == *pointer,
{
    pointer.clone()
}

impl<Y, R> Clone for Airlock<Y, R> {
    /// Returns another handle to the same slot.
    fn clone(&self) -> (cloned: Self)
        ensures
            cloned == *self,
    {
        Airlock(share(&self.0))
    }
}

impl<Y, R> crate::engine::Airlock for Airlock<Y, R> {
    type Yield = Y;

    type Resume = R;

    /// Takes the lock for writing, swaps the slots, and gives the lock back.
    fn exchange(&self, slot: Slot<Y, R>) -> Slot<Y, R> {
        let (held, handle) = self.0.acquire_write();
        handle.release_write(slot);
        held
    }
}

/// The handle through which the computation of a [`crate::sync::Gen`] yields.
pub type Co<Y, R = ()> = crate::engine::Co<Airlock<Y, R>>;

} // verus!
