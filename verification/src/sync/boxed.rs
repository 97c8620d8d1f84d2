//! Generators whose computation is a boxed trait object.
use std::future::Future;
use std::pin::Pin;
use std::task::{Context, Poll};
use vstd::prelude::*;

use crate::phase::Phase;
use crate::sync::engine::{Airlock, Co};
use crate::sync::generator::Gen;
use crate::task::{into_poll, poll_pinned, repinned};

verus! {

/// A computation that returns a `C` and can be sent to another thread, with nothing else
/// known of it: what is left of a future once its type has been forgotten.
pub trait Task<C>: Send {
    /// Polls the computation once: `Some` of what it returns if it is ready, `None` if it
    /// is pending.
    fn step(self: Pin<&mut Self>, cx: &mut Context<'_>) -> Option<C>;
}

impl<C, F: Future<Output = C> + Send> Task<C> for F {
    fn step(self: Pin<&mut Self>, cx: &mut Context<'_>) -> Option<C> {
        poll_pinned(self, cx)
    }
}

/// A computation in a box, of which the type says only what it returns. It is a future
/// like the one that was put in.
#[verifier::reject_recursive_types(C)]
pub struct Boxed<C> {
    inner: Pin<Box<dyn Task<C>>>,
}

/// Forgets the type of a computation in a pinned box: the box is handed on as it is, under
/// the type of the trait object. Nothing is claimed of it.
#[verifier::external_body]
fn forget<C, F: Future<Output = C> + Send + 'static>(pinned: Pin<Box<F>>) -> (boxed: Boxed<C>) {
    Boxed { inner: pinned }
}

/// Gets at the field of a pinned [`Boxed`] with `Pin::get_mut`. A `Boxed` holds nothing
/// but a pinned box, so it is `Unpin` and may be moved.
#[verifier::external_body]
fn unpinned<'a, C>(pinned: Pin<&'a mut Boxed<C>>) -> (this: &'a mut Boxed<C>) {
    pinned.get_mut()
}

impl<C> Future for Boxed<C> {
    type Output = C;

    /// Polls the computation in the box, and hands on what comes of it.
    fn poll(self: Pin<&mut Self>, cx: &mut Context<'_>) -> Poll<C> {
        let this = unpinned(self);
        into_poll(repinned(&mut this.inner).step(cx))
    }
}

/// A generator whose computation is boxed, so that its type can be written down: for a
/// field of a struct, or a `static`.
pub type GenBoxed<Y, R = (), C = ()> = Gen<Y, R, Boxed<C>>;

impl<Y, R, C> GenBoxed<Y, R, C> {
    /// Creates a new generator with a boxed future, so it can be stored in a `static`.
    ///
    /// This works exactly the same as [`Gen::new`] with an immediately boxed future. It
    /// exists to spare the caller from writing down the type of the box.
    pub fn new_boxed<F>(producer: impl FnOnce(Co<Y, R>) -> F) -> (gen: Self) where
        F: Future<Output = C> + Send + 'static,

        requires
            forall|co: Co<Y, R>| call_requires(producer, (co,)),
        ensures
            gen.phase() == Phase::Active,
            gen.polls() == 0,
            exists|co: Co<Y, R>, future: F|
                co.airlock() == gen.storage() && call_ensures(producer, (co,), future),
    {
        let airlock = Airlock::default();
        let computation = forget(Box::pin(producer(Co::new(airlock.clone()))));
        Gen::from_parts(airlock, computation)
    }
}

} // verus!
