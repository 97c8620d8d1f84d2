//! The pieces of `std::pin` and `std::task` that the engine touches.
//!
//! Nothing here is proved. The types are opaque to the verifier, and the functions are
//! believed to do what their documentation says. None of them promises anything about its
//! result: whatever they hand back, the verified code around them copes with.
use std::future::Future;
use std::pin::Pin;
use std::task::{Context, Poll, Waker};
use vstd::prelude::*;

verus! {

/// `std::pin::Pin`, carried through without looking inside.
#[verifier::external_type_specification]
#[verifier::external_body]
#[verifier::reject_recursive_types(Ptr)]
pub struct ExPin<Ptr>(Pin<Ptr>);

/// `std::task::Poll`, carried through without looking inside.
#[verifier::external_type_specification]
#[verifier::external_body]
#[verifier::reject_recursive_types(T)]
pub struct ExPoll<T>(Poll<T>);

/// `std::task::Context`, carried through without looking inside.
#[verifier::external_type_specification]
#[verifier::external_body]
pub struct ExContext<'a>(Context<'a>);

/// `std::task::Waker`, carried through without looking inside.
#[verifier::external_type_specification]
#[verifier::external_body]
pub struct ExWaker(Waker);

/// `Waker::noop` returns a waker whose every operation does nothing. Nothing is claimed of it.
pub assume_specification[ Waker::noop ]() -> (noop: &'static Waker);

/// `Context::from_waker` builds a task context around a waker. Nothing is claimed of it.
pub assume_specification<'a>[ Context::<'a>::from_waker ](inner: &'a Waker) -> (cx: Context<'a>);

/// `Box::pin` moves a value to the heap and pins it there. Nothing is claimed of it.
pub assume_specification<T>[ Box::<T>::pin ](x: T) -> (pinned: Pin<Box<T>>);

/// Reborrows a pinned box for a shorter time with `Pin::as_mut`. For a box this cannot
/// panic; nothing else is claimed of it.
#[verifier::external_body]
pub(crate) fn repinned<'a, F: ?Sized>(pinned: &'a mut Pin<Box<F>>) -> (reborrowed: Pin<&'a mut F>)
    no_unwind
{
    pinned.as_mut()
}

/// Polls `future` once through `Future::poll` and hands back `Some` of its output if it is
/// ready, `None` if it is pending. Nothing is claimed of which of the two comes back: that
/// is up to the future.
#[verifier::external_body]
pub(crate) fn poll_pinned<F: Future>(future: Pin<&mut F>, cx: &mut Context<'_>) -> (polled: Option<
    F::Output,
>) {
    match future.poll(cx) {
        Poll::Ready(output) => Some(output),
        Poll::Pending => None,
    }
}

/// Writes an `Option` as a `Poll`: `Some(v)` as `Poll::Ready(v)`, `None` as `Poll::Pending`.
#[verifier::external_body]
pub(crate) fn into_poll<T>(outcome: Option<T>) -> (poll: Poll<T>) {
    match outcome {
        Some(value) => Poll::Ready(value),
        None => Poll::Pending,
    }
}

/// Gives up the exclusive access of a pinned reference with `Pin::into_ref`. Nothing is
/// claimed of the result.
#[verifier::external_body]
pub(crate) fn pinned_shared<'a, T>(pinned: Pin<&'a mut T>) -> (shared: Pin<&'a T>) {
    pinned.into_ref()
}

/// Reads through a pinned shared reference with `Pin::get_ref`. The value is only looked
/// at, so it does not move. Nothing is claimed of the result.
#[verifier::external_body]
pub(crate) fn pinned_ref<'a, T>(pinned: Pin<&'a T>) -> (shared: &'a T) {
    pinned.get_ref()
}

} // verus!
