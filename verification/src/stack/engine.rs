//! The slot storage of [`crate::stack::Gen`].
use vstd::cell::invcell::InvCell;
use vstd::prelude::*;

use crate::engine::SlotRule;
use crate::slot::Slot;

verus! {

/// A transfer slot in a cell that is reached through plain shared references.
/// Single-threaded.
pub struct Airlock<Y, R>(InvCell<Slot<Y, R>, SlotRule>);

impl<Y, R> Default for Airlock<Y, R> {
    /// Creates storage that holds a vacant slot.
    fn default() -> Self {
        Airlock(InvCell::new(Slot::new(), Ghost(SlotRule)))
    }
}

impl<'s, Y, R> crate::engine::Airlock for &'s Airlock<Y, R> {
    type Yield = Y;

    type Resume = R;

    fn exchange(&self, slot: Slot<Y, R>) -> Slot<Y, R> {
        self.0.replace(slot)
    }
}

/// The handle through which the computation of a [`crate::stack::Gen`] yields.
pub type Co<'y, Y, R = ()> = crate::engine::Co<&'y Airlock<Y, R>>;

} // verus!
