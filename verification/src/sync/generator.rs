//! The generator itself.
use std::future::Future;
use std::task::Context;
use vstd::prelude::*;

use crate::engine::Computation;
use crate::ops::{Generator, GeneratorState};
use crate::phase::Phase;
use crate::slot::Misuse;
use crate::sync::engine::{Airlock, Co};
use crate::sync::iterator::IntoIter;

verus! {

/// A generator that can be shared between threads.
#[verifier::reject_recursive_types(F)]
pub struct Gen<Y, R, F: Future> {
    airlock: Airlock<Y, R>,
    computation: Computation<F>,
}

impl<Y, R, F: Future> Gen<Y, R, F> {
    /// Where the generator stands.
    pub closed spec fn spec_phase(&self) -> Phase {
        self.computation.phase()
    }

    /// How often the computation of this generator has been polled.
    pub closed spec fn polls(&self) -> nat {
        self.computation.polls()
    }

    /// The storage of the slot that this generator settles.
    pub closed spec fn storage(&self) -> Airlock<Y, R> {
        self.airlock
    }

    /// Creates a new generator from a function.
    ///
    /// The function accepts a [`Co`] object, and returns a future. Every time the generator
    /// is resumed, the future is polled. Each time the future is polled, it should do one
    /// of two things:
    ///
    /// - Call `co.yield_()`, await the barrier it returns, and so return `Poll::Pending`.
    /// - Drop the `Co`, and then return `Poll::Ready`.
    ///
    /// Typically this exchange will happen in the context of an `async fn`. The function is
    /// called once, here; the future it returns must be fresh, and is not polled before
    /// the first resumption.
    pub fn new(producer: impl FnOnce(Co<Y, R>) -> F) -> (gen: Self)
        requires
            forall|co: Co<Y, R>| call_requires(producer, (co,)),
        ensures
            gen.phase() == Phase::Active,
            gen.polls() == 0,
            exists|co: Co<Y, R>, future: F|
                co.airlock() == gen.storage() && call_ensures(producer, (co,), future),
    {
        let airlock = Airlock::default();
        let computation = Computation::new(producer(Co::new(airlock.clone())));
        Gen { airlock, computation }
    }

    /// Puts a generator together from its slot storage and a fresh computation that holds
    /// the handle to that storage.
    pub(crate) fn from_parts(airlock: Airlock<Y, R>, future: F) -> (gen: Self)
        ensures
            gen.phase() == Phase::Active,
            gen.polls() == 0,
            gen.storage() == airlock,
    {
        Gen { airlock, computation: Computation::new(future) }
    }

    /// Returns where the generator stands: whether it can still be resumed, has completed,
    /// or has failed with a misuse.
    #[verifier::when_used_as_spec(spec_phase)]
    pub fn phase(&self) -> (phase: Phase)
        ensures
            phase == self.phase(),
    {
        self.computation.phase()
    }

    /// Returns the misuse that this generator has failed with, or else the first misuse
    /// recorded in its slot, if any: a handle that has escaped from a computation that has
    /// returned, and is then used to yield, leaves its mark only there.
    pub fn fault(&self) -> (fault: Option<Misuse>)
        ensures
            self.phase() matches Phase::Failed(misuse) ==> fault == Some(misuse),
            fault != Some(Misuse::ResumedAfterCompletion),
    {
        crate::engine::fault(&self.computation, &self.airlock)
    }

    /// Resumes execution of the generator.
    ///
    /// `arg` is the resume argument. If the generator was previously paused by awaiting a
    /// barrier returned from `co.yield_()`, that barrier opens and returns `arg`. The
    /// argument of the first resumption is dropped unseen: the computation has no barrier
    /// to receive it.
    ///
    /// If the generator yields a value, `Yielded` is returned; if it returns, `Complete`.
    /// A generator that has completed or failed is not run again, and says so.
    pub fn resume_with(&mut self, arg: R) -> (out: Result<GeneratorState<Y, F::Output>, Misuse>)
        ensures
            old(self).phase().refusal() matches Some(misuse) ==> out == Err::<
                GeneratorState<Y, F::Output>,
                Misuse,
            >(misuse),
            final(self).phase() == old(self).phase().after(out),
            final(self).polls() == old(self).polls() + old(self).phase().polls_due(),
            old(self).phase() == Phase::Complete <==> out == Err::<
                GeneratorState<Y, F::Output>,
                Misuse,
            >(Misuse::ResumedAfterCompletion),
    {
        crate::engine::resume(&mut self.computation, &self.airlock, arg)
    }

    /// Resumes execution of the generator, for computations that await other futures
    /// between two yields.
    ///
    /// The future that is returned is pending while the computation waits for something
    /// else, and ready with `Yielded` or `Complete` once it has yielded or returned.
    pub fn async_resume(&mut self, arg: R) -> impl Future<
        Output = Result<GeneratorState<Y, F::Output>, Misuse>,
    > + '_ {
        crate::engine::async_resume(&mut self.computation, &self.airlock, arg)
    }
}

impl<Y, F: Future> Gen<Y, (), F> {
    /// Resumes execution of the generator with no argument.
    pub fn resume(&mut self) -> (out: Result<GeneratorState<Y, F::Output>, Misuse>)
        ensures
            old(self).phase().refusal() matches Some(misuse) ==> out == Err::<
                GeneratorState<Y, F::Output>,
                Misuse,
            >(misuse),
            final(self).phase() == old(self).phase().after(out),
            final(self).polls() == old(self).polls() + old(self).phase().polls_due(),
            old(self).phase() == Phase::Complete <==> out == Err::<
                GeneratorState<Y, F::Output>,
                Misuse,
            >(Misuse::ResumedAfterCompletion),
    {
        self.resume_with(())
    }
}

impl<Y, F: Future<Output = ()>> Gen<Y, (), F> {
    /// Takes the next value out of the generator, used as a sequence: `Some` for a value
    /// or a misuse, `None` at the end and ever after.
    pub fn next_item(&mut self) -> (item: Option<Result<Y, Misuse>>)
        ensures
            crate::phase::iterated(old(self).phase(), item, final(self).phase()),
            final(self).polls() == old(self).polls() + old(self).phase().polls_due(),
    {
        crate::engine::next_item(&mut self.computation, &self.airlock)
    }

    /// Takes the next value out of an asynchronous generator that is used as a stream.
    ///
    /// The outer `None` stands for pending: the computation waits for something else, and
    /// the stream has to be polled again. `Some` carries the item: a value or a misuse, or
    /// `None` at the end. A generator that is not active is not polled: it is at its end,
    /// and stays there.
    pub fn poll_next(&mut self, cx: &mut Context<'_>) -> (polled: Option<
        Option<Result<Y, Misuse>>,
    >)
        ensures
            polled matches Some(item) ==> crate::phase::iterated(
                old(self).phase(),
                item,
                final(self).phase(),
            ),
            polled is None ==> old(self).phase() == Phase::Active,
            polled is None ==> final(self).phase() == Phase::Active,
            final(self).polls() == old(self).polls() + old(self).phase().polls_due(),
    {
        crate::engine::poll_item(&mut self.computation, &self.airlock, cx)
    }

    /// Turns the generator into a sequence of the values it yields.
    pub fn into_iter(self) -> (iter: IntoIter<Y, F>)
        ensures
            iter.phase() == self.phase(),
            iter.polls() == self.polls(),
    {
        IntoIter::new(self)
    }
}

impl<Y, R, F: Future> Generator<R> for Gen<Y, R, F> {
    type Yield = Y;

    type Return = F::Output;

    /// Resumes execution of the generator, as [`Gen::resume_with`] does.
    fn resume(&mut self, arg: R) -> (out: Result<GeneratorState<Y, F::Output>, Misuse>)
        ensures
            old(self).phase().refusal() matches Some(misuse) ==> out == Err::<
                GeneratorState<Y, F::Output>,
                Misuse,
            >(misuse),
            final(self).phase() == old(self).phase().after(out),
            final(self).polls() == old(self).polls() + old(self).phase().polls_due(),
            old(self).phase() == Phase::Complete <==> out == Err::<
                GeneratorState<Y, F::Output>,
                Misuse,
            >(Misuse::ResumedAfterCompletion),
    {
        self.resume_with(arg)
    }
}

} // verus!
