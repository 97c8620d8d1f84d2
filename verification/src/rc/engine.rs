//! The slot storage of [`crate::rc::Gen`].
use std::rc::Rc;
use vstd::cell::invcell::InvCell;
use vstd::prelude::*;

use crate::engine::SlotRule;
use crate::slot::Slot;

verus! {

/// A transfer slot in a cell behind an `Rc`. Single-threaded; a clone is another handle to
/// the same slot.
pub struct Airlock<Y, R>(Rc<InvCell<Slot<Y, R>, SlotRule>>);

impl<Y, R> Default for Airlock<Y, R> {
    /// Creates storage that holds a vacant slot.
    fn default() -> Self {
        Airlock(Rc::new(InvCell::new(Slot::new(), Ghost(SlotRule))))
    }
}

/// Makes another pointer to the same allocation with `Rc::clone`: the two point to one and
/// the same cell, which is all that is claimed.
#[verifier::external_body]
fn share<T>(pointer: &Rc<T>) -> (other: Rc<T>)
    ensures
        other == *pointer,
{
    pointer.clone()
}

impl<Y, R> Clone for Airlock<Y, R> {
    /// Returns another handle to the same slot.
    fn clone(&self) -> (cloned: Self)
        ensures
            cloned == *self,
    {
        Airlock(share(&self.0))
    }
}

impl<Y, R> crate::engine::Airlock for Airlock<Y, R> {
    type Yield = Y;

    type Resume = R;

    fn exchange(&self, slot: Slot<Y, R>) -> Slot<Y, R> {
        self.0.replace(slot)
    }
}

/// The handle through which the computation of a [`crate::rc::Gen`] yields.
pub type Co<Y, R = ()> = crate::engine::Co<Airlock<Y, R>>;

} // verus!
