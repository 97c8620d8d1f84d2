//! The scheduler stub: a waker that does nothing.
use std::task::Waker;
use vstd::prelude::*;

verus! {

/// Returns a waker whose clone, wake, wake-by-ref and drop all do nothing.
///
/// A generator is only ever polled in direct response to a `resume`, so nothing needs to be
/// woken. A computation that registers for a real wake-up through this waker is never woken:
/// the synchronous driver reports that as [`crate::slot::Misuse::ForeignAwait`].
pub fn create() -> &'static Waker {
    Waker::noop()
}

} // verus!
