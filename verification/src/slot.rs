//! The transfer slot and the steps of the protocol on it.
//!
//! The slot is the single mailbox through which a generator and its computation talk. The
//! driver leaves a resume argument in it and polls; the computation takes the argument out
//! at its barrier, runs on, and yields a value into the slot; the driver takes the value out.
//! Each of these steps is a method of [`Slot`] whose contract fixes what is in the slot
//! afterwards and what is returned.
//!
//! The steps are those of the protocol: a yield asks for a slot that can take the value,
//! and the end of a poll for a slot that is not stalled. A caller that cannot know what its
//! slot holds, because the slot has just come out of a shared cell, asks first
//! ([`Slot::check_yield`], [`Slot::is_stalled`]) and records the misuse with [`Slot::fail`];
//! [`Slot::yielded`] and [`Slot::concluded`] say what comes of that for every slot.
use vstd::prelude::*;

use crate::ops::GeneratorState;

verus! {

/// What the transfer slot holds between the driver and the computation.
#[derive(PartialEq, Debug)]
pub enum Next<Y, R> {
    /// Nothing is in flight.
    Empty,
    /// The computation has yielded a value that the driver has not taken yet.
    Yield(Y),
    /// The driver has left a resume argument that the computation has not taken yet.
    Resume(R),
    /// The computation has returned.
    Completed,
}

impl<Y, R> Next<Y, R> {
    /// The state with its payload erased.
    pub open spec fn tag(self) -> Next<(), ()> {
        match self {
            Next::Empty => Next::Empty,
            Next::Yield(_) => Next::Yield(()),
            Next::Resume(_) => Next::Resume(()),
            Next::Completed => Next::Completed,
        }
    }

    /// Returns the state without its payload.
    pub fn without_values(&self) -> (tag: Next<(), ()>)
        ensures
            tag == self.tag(),
    {
        match self {
            Next::Empty => Next::Empty,
            Next::Yield(_) => Next::Yield(()),
            Next::Resume(_) => Next::Resume(()),
            Next::Completed => Next::Completed,
        }
    }
}

/// A way of breaking the protocol between a generator and its computation.
#[derive(Clone, Copy, PartialEq, Eq, Debug, Structural)]
pub enum Misuse {
    /// The computation yielded while its previous value was still in the slot: it did not
    /// await the barrier of the earlier yield.
    MultipleYields,
    /// The handle was used to yield after the computation had returned.
    YieldAfterCompletion,
    /// The computation suspended without a value in the slot: it awaited something other
    /// than the yield barrier while it was driven synchronously.
    ForeignAwait,
    /// The generator was resumed after its computation had returned.
    ResumedAfterCompletion,
}

impl Misuse {
    /// The text that describes this misuse.
    pub open spec fn text(self) -> Seq<char> {
        match self {
            Misuse::MultipleYields =>
                "Multiple values were yielded without an intervening await. Make sure to immediately await the result of `Co::yield_`."@,
            Misuse::YieldAfterCompletion =>
                "`yield_` should not be used after the generator completes. The `Co` object should have been dropped by now."@,
            Misuse::ForeignAwait =>
                "An async generator was resumed via a non-async method. For async generators, use `Stream` or `async_resume` instead of `Iterator` or `resume`."@,
            Misuse::ResumedAfterCompletion =>
                "The generator was resumed after it had completed. Once `Complete` has been returned, do not resume again."@,
        }
    }

    /// Describes this misuse in words, for a caller that wants to stop with a message.
    pub fn message(&self) -> (msg: &'static str)
        ensures
            msg@ == self.text(),
    {
        match self {
            Misuse::MultipleYields =>
                "Multiple values were yielded without an intervening await. Make sure to immediately await the result of `Co::yield_`.",
            Misuse::YieldAfterCompletion =>
                "`yield_` should not be used after the generator completes. The `Co` object should have been dropped by now.",
            Misuse::ForeignAwait =>
                "An async generator was resumed via a non-async method. For async generators, use `Stream` or `async_resume` instead of `Iterator` or `resume`.",
            Misuse::ResumedAfterCompletion =>
                "The generator was resumed after it had completed. Once `Complete` has been returned, do not resume again.",
        }
    }
}

/// The transfer slot: a mailbox for at most one value in flight, together with the first
/// misuse that was noticed on it.
///
/// A slot is a plain value. The protocol between driver and computation is the set of
/// methods below, each of which says exactly what it leaves in the slot and what it returns.
#[derive(PartialEq, Debug)]
pub struct Slot<Y, R> {
    /// The value in flight, if any.
    pub next: Next<Y, R>,
    /// The first misuse noticed, if any. Once set it stays.
    pub fault: Option<Misuse>,
}

impl<Y, R> Slot<Y, R> {
    /// What holds of every slot that the protocol leaves behind: resuming a generator that
    /// has completed is the generator's business alone, and is never recorded on a slot.
    pub open spec fn well_formed(self) -> bool {
        self.fault != Some(Misuse::ResumedAfterCompletion)
    }

    /// The slot of a generator that has not run yet.
    pub open spec fn vacant() -> Self {
        Slot { next: Next::Empty, fault: None }
    }

    /// The slot after a misuse has been noticed on it: the first one noticed is kept.
    pub open spec fn failed(self, misuse: Misuse) -> Self {
        Slot {
            next: self.next,
            fault: Some(
                match self.fault {
                    Some(first) => first,
                    None => misuse,
                },
            ),
        }
    }

    /// The slot after the driver has left the resume argument `arg` in it.
    pub open spec fn deposited(self, arg: R) -> Self {
        Slot { next: Next::Resume(arg), fault: self.fault }
    }

    /// Why a slot whose state has the given tag cannot take a yielded value, if it cannot.
    pub open spec fn refusal(tag: Next<(), ()>) -> Option<Misuse> {
        match tag {
            Next::Yield(_) => Some(Misuse::MultipleYields),
            Next::Completed => Some(Misuse::YieldAfterCompletion),
            Next::Empty => None,
            Next::Resume(_) => None,
        }
    }

    /// The slot after the computation has yielded `value` into it. This is the step of a
    /// computation that keeps to the protocol: the slot must be able to take the value.
    pub open spec fn offered(self, value: Y) -> Self
        recommends
            Self::refusal(self.next.tag()) is None,
    {
        Slot { next: Next::Yield(value), fault: self.fault }
    }

    /// The slot after a yield of `value` has been tried on it, whatever it held: the value
    /// is in it if it could take the value, and if not, the slot holds what it held and the
    /// misuse is recorded on it.
    pub open spec fn yielded(self, value: Y) -> Self {
        match Self::refusal(self.next.tag()) {
            Some(misuse) => self.failed(misuse),
            None => self.offered(value),
        }
    }

    /// The slot after the barrier has looked for a resume argument, and what it found.
    pub open spec fn received(self) -> (Self, Option<R>) {
        match self.next {
            Next::Resume(arg) => (Slot { next: Next::Empty, fault: self.fault }, Some(arg)),
            _ => (self, None),
        }
    }

    /// What the slot holds once the driver is done with a poll that ended in `polled`.
    pub open spec fn cleared<C>(polled: Option<C>) -> Next<Y, R> {
        match polled {
            Some(_) => Next::Completed,
            None => Next::Empty,
        }
    }

    /// Whether a poll that ended in `polled` has left the slot with nothing to settle: the
    /// computation is pending, no misuse is recorded, and no value is in the slot. A
    /// computation that keeps to the protocol never leaves its synchronous driver so.
    pub open spec fn stalled<C>(self, polled: Option<C>) -> bool {
        polled is None && self.fault is None && !(self.next is Yield)
    }

    /// The slot after the synchronous driver has settled it following a poll that ended in
    /// `polled` (`Some` of the return value, or `None` for pending), and the result of the
    /// resumption. The slot must not be stalled; of a stalled slot this says nothing that
    /// anything relies on.
    pub open spec fn settled<C>(self, polled: Option<C>) -> (
        Self,
        Result<GeneratorState<Y, C>, Misuse>,
    )
        recommends
            !self.stalled(polled),
    {
        match self.fault {
            Some(misuse) => (Slot { next: Self::cleared(polled), fault: self.fault }, Err(misuse)),
            None => match polled {
                Some(value) => (
                    Slot { next: Next::Completed, fault: None },
                    Ok(GeneratorState::Complete(value)),
                ),
                None => match self.next {
                    Next::Yield(y) => (
                        Slot { next: Next::Empty, fault: None },
                        Ok(GeneratorState::Yielded(y)),
                    ),
                    _ => (self, Err(Misuse::ForeignAwait)),
                },
            },
        }
    }

    /// The slot after the synchronous driver is done with a poll that ended in `polled`,
    /// whatever the computation left, and the result of the resumption: a stalled slot has
    /// the misuse recorded on it first, and is then settled like any other.
    pub open spec fn concluded<C>(self, polled: Option<C>) -> (
        Self,
        Result<GeneratorState<Y, C>, Misuse>,
    ) {
        if self.stalled(polled) {
            self.failed(Misuse::ForeignAwait).settled(polled)
        } else {
            self.settled(polled)
        }
    }

    /// The slot after the asynchronous driver has looked at it following a poll that ended
    /// in `polled`, and the result of the resumption if there is one yet (`None`: the
    /// computation is waiting for something else and has to be polled again).
    pub open spec fn settled_async<C>(self, polled: Option<C>) -> (
        Self,
        Option<Result<GeneratorState<Y, C>, Misuse>>,
    ) {
        match self.fault {
            Some(misuse) => (
                Slot { next: Self::cleared(polled), fault: self.fault },
                Some(Err(misuse)),
            ),
            None => match polled {
                Some(value) => (
                    Slot { next: Next::Completed, fault: None },
                    Some(Ok(GeneratorState::Complete(value))),
                ),
                None => match self.next {
                    Next::Yield(y) => (
                        Slot { next: Next::Empty, fault: None },
                        Some(Ok(GeneratorState::Yielded(y))),
                    ),
                    _ => (Slot { next: Next::Empty, fault: None }, None),
                },
            },
        }
    }

    /// Creates the slot of a generator that has not run yet.
    pub fn new() -> (slot: Self)
        ensures
            slot == Self::vacant(),
    {
        Slot { next: Next::Empty, fault: None }
    }

    /// Returns the state of the slot without its payload.
    pub fn peek(&self) -> (tag: Next<(), ()>)
        ensures
            tag == self.next.tag(),
    {
        self.next.without_values()
    }

    /// Puts `next` into the slot and returns what was there. Every change of the value in
    /// flight goes through here.
    pub fn replace(&mut self, next: Next<Y, R>) -> (previous: Next<Y, R>)
        ensures
            previous == old(self).next,
            final(self).next == next,
            final(self).fault == old(self).fault,
    {
        let mut previous = next;
        std::mem::swap(&mut self.next, &mut previous);
        previous
    }

    /// Returns the first misuse noticed on this slot, if any.
    pub fn fault(&self) -> (fault: Option<Misuse>)
        ensures
            fault == self.fault,
    {
        self.fault
    }

    /// Records a misuse that the computation has committed, unless one is recorded already.
    ///
    /// Resuming a generator that has completed is not the computation's doing: it is never
    /// recorded on a slot, so that a well-formed slot stays well formed.
    pub fn fail(&mut self, misuse: Misuse)
        requires
            misuse != Misuse::ResumedAfterCompletion,
        ensures
            *final(self) == old(self).failed(misuse),
    {
        if self.fault.is_none() {
            self.fault = Some(misuse);
        }
    }

    /// Says why a slot in the state `tag` cannot take a yielded value, or `None` if it can.
    ///
    /// A slot that still holds a yielded value has not been awaited; a slot marked completed
    /// belongs to a computation that has returned.
    pub fn check_yield(tag: &Next<(), ()>) -> (refusal: Option<Misuse>)
        ensures
            refusal == Self::refusal(*tag),
    {
        match tag {
            Next::Yield(_) => Some(Misuse::MultipleYields),
            Next::Completed => Some(Misuse::YieldAfterCompletion),
            Next::Empty => None,
            Next::Resume(_) => None,
        }
    }

    /// The driver's step before a poll: leaves the resume argument in the slot. Whatever
    /// was in flight is dropped.
    pub fn deposit(&mut self, arg: R)
        ensures
            *final(self) == old(self).deposited(arg),
    {
        let _ = self.replace(Next::Resume(arg));
    }

    /// The computation's step: yields `value` into the slot.
    ///
    /// The slot must be able to take the value: it must not hold a value that nobody has
    /// taken, and must not be marked completed ([`Slot::check_yield`] tells). The value
    /// replaces what was there; a resume argument that nobody awaited is dropped.
    pub fn offer(&mut self, value: Y)
        requires
            Self::refusal(old(self).next.tag()) is None,
        ensures
            *final(self) == old(self).offered(value),
    {
        let _ = self.replace(Next::Yield(value));
    }

    /// The barrier's step: takes the resume argument out of the slot if there is one.
    ///
    /// With a resume argument in the slot, the slot is left empty and the argument is
    /// returned. In every other state the slot is left as it is and `None` is returned:
    /// the barrier stays closed.
    pub fn receive(&mut self) -> (arg: Option<R>)
        ensures
            (*final(self), arg) == old(self).received(),
    {
        match self.peek() {
            Next::Resume(_) => {
                match self.replace(Next::Empty) {
                    Next::Resume(arg) => Some(arg),
                    _ => None,
                }
            },
            _ => None,
        }
    }

    /// Says whether a poll that ended in `polled` has left the slot stalled: pending, with
    /// no misuse recorded and no value to hand out.
    pub fn is_stalled<C>(&self, polled: &Option<C>) -> (stalled: bool)
        ensures
            stalled == self.stalled(*polled),
    {
        match polled {
            Some(_) => false,
            None => match self.fault {
                Some(_) => false,
                None => match self.peek() {
                    Next::Yield(_) => false,
                    _ => true,
                },
            },
        }
    }

    /// The synchronous driver's step after a poll.
    ///
    /// `polled` is what the poll returned: `Some` of the computation's return value, or
    /// `None` if it is pending. The slot must not be stalled: a pending computation with
    /// no misuse on record must have left a value.
    ///
    /// - A misuse recorded on the slot is reported, whatever the poll returned.
    /// - Otherwise a computation that returned is `Complete`, and the slot is marked
    ///   completed.
    /// - Otherwise the value in the slot is `Yielded`, and the slot is left empty.
    pub fn settle<C>(&mut self, polled: Option<C>) -> (out: Result<GeneratorState<Y, C>, Misuse>)
        requires
            !old(self).stalled(polled),
        ensures
            (*final(self), out) == old(self).settled(polled),
    {
        match polled {
            Some(value) => {
                let _ = self.replace(Next::Completed);
                match self.fault {
                    Some(misuse) => Err(misuse),
                    None => Ok(GeneratorState::Complete(value)),
                }
            },
            None => {
                let taken = self.replace(Next::Empty);
                match self.fault {
                    Some(misuse) => Err(misuse),
                    None => match taken {
                        Next::Yield(y) => Ok(GeneratorState::Yielded(y)),
                        _ => Err(Misuse::ForeignAwait),
                    },
                }
            },
        }
    }

    /// The asynchronous driver's step after a poll.
    ///
    /// As [`Slot::settle`], except that a computation that suspended without yielding is
    /// no misuse here: `None` is returned, and the driver reports that it is pending itself.
    pub fn settle_async<C>(&mut self, polled: Option<C>) -> (out: Option<
        Result<GeneratorState<Y, C>, Misuse>,
    >)
        ensures
            (*final(self), out) == old(self).settled_async(polled),
    {
        match polled {
            Some(value) => {
                let _ = self.replace(Next::Completed);
                match self.fault {
                    Some(misuse) => Some(Err(misuse)),
                    None => Some(Ok(GeneratorState::Complete(value))),
                }
            },
            None => {
                let taken = self.replace(Next::Empty);
                match self.fault {
                    Some(misuse) => Some(Err(misuse)),
                    None => match taken {
                        Next::Yield(y) => Some(Ok(GeneratorState::Yielded(y))),
                        _ => None,
                    },
                }
            },
        }
    }
}

} // verus!
