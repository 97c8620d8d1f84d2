//! The engine: shared storage for the slot, the handle and barrier on the computation's
//! side, and the drivers on the generator's side.
//!
//! The slot lives in a cell that both sides reach. Each side moves the slot out of the
//! cell, takes one step of the protocol on it ([`crate::slot::Slot`] says which), and moves
//! it back. What the other side has done to the slot in between is not known in advance:
//! all that is known of a slot that comes out of its cell is that it is well formed. So
//! what the functions here promise is about the generator's own [`Phase`], which nobody
//! else can touch.
use std::future::Future;
use std::pin::Pin;
use std::task::{Context, Poll};
use vstd::predicate::Predicate;
use vstd::prelude::*;
use vstd::rwlock::RwLockPredicate;

use crate::ops::GeneratorState;
use crate::phase::{into_item, iterated, Phase};
use crate::slot::{Misuse, Slot};
use crate::task::{into_poll, pinned_ref, pinned_shared, poll_pinned, repinned};
use crate::waker;

verus! {

/// The rule for what a shared cell may hold: any slot that is well formed.
///
/// The cells that the storage backings are built on ask for such a rule. It is all that is
/// known of a slot that comes out of a cell.
pub struct SlotRule;

impl<Y, R> Predicate<Slot<Y, R>> for SlotRule {
    open spec fn predicate(&self, slot: Slot<Y, R>) -> bool {
        slot.well_formed()
    }
}

impl<Y, R> RwLockPredicate<Slot<Y, R>> for SlotRule {
    open spec fn inv(self, slot: Slot<Y, R>) -> bool {
        slot.well_formed()
    }
}

/// Shared storage for one [`Slot`].
///
/// The driver and the computation each hold a handle to the same storage. Every access
/// moves the whole slot out and another one in, so the storage needs no more than this one
/// operation. Between two accesses by one party the other may have changed the slot: what
/// comes out is not known in advance, and no more is promised of it than that it is well
/// formed, as every slot that goes in must be.
pub trait Airlock {
    /// The type of value the generator yields.
    type Yield;

    /// The type of value the generator is resumed with.
    type Resume;

    /// Puts `slot` into the storage and returns the slot that was there.
    fn exchange(&self, slot: Slot<Self::Yield, Self::Resume>) -> (held: Slot<
        Self::Yield,
        Self::Resume,
    >)
        requires
            slot.well_formed(),
        ensures
            held.well_formed(),
    ;
}

/// Leaves the resume argument `arg` in the slot behind `airlock`, by [`Slot::deposit`].
pub fn deposit<A: Airlock>(airlock: &A, arg: A::Resume) {
    let mut slot = airlock.exchange(Slot::new());
    slot.deposit(arg);
    let _ = airlock.exchange(slot);
}

/// Returns the first misuse recorded in the slot behind `airlock`, if any.
pub fn recorded_fault<A: Airlock>(airlock: &A) -> (fault: Option<Misuse>)
    ensures
        fault != Some(Misuse::ResumedAfterCompletion),
{
    let slot = airlock.exchange(Slot::new());
    let fault = slot.fault();
    let _ = airlock.exchange(slot);
    fault
}

/// Tries to yield `value` into a slot that has come out of its cell, and says what the
/// yield was refused with, if it was.
///
/// A slot that can take the value gets it, by [`Slot::offer`]. A slot that still holds a
/// yielded value, or is marked completed, cannot: the value is dropped, the slot keeps what
/// it holds, and the misuse is recorded on it by [`Slot::fail`].
pub fn yield_into<Y, R>(slot: &mut Slot<Y, R>, value: Y) -> (refused: Option<Misuse>)
    ensures
        refused == Slot::<Y, R>::refusal(old(slot).next.tag()),
        *final(slot) == old(slot).yielded(value),
{
    let tag = slot.peek();
    match Slot::<Y, R>::check_yield(&tag) {
        Some(misuse) => {
            slot.fail(misuse);
            Some(misuse)
        },
        None => {
            slot.offer(value);
            None
        },
    }
}

/// Settles a slot that has come out of its cell after a poll that ended in `polled`,
/// whatever the computation has left in it.
///
/// A stalled slot means that the computation has suspended without yielding: it awaited
/// something other than the yield barrier. That is recorded on the slot as
/// [`Misuse::ForeignAwait`] by [`Slot::fail`]. The slot is then settled by
/// [`Slot::settle`], which reports the misuse on record, if there is one.
pub fn conclude<Y, R, C>(slot: &mut Slot<Y, R>, polled: Option<C>) -> (out: Result<
    GeneratorState<Y, C>,
    Misuse,
>)
    ensures
        (*final(slot), out) == old(slot).concluded(polled),
{
    if slot.is_stalled(&polled) {
        slot.fail(Misuse::ForeignAwait);
    }
    slot.settle(polled)
}

/// The handle through which a computation yields values out of its generator.
///
/// "Co" can stand for either _controller_ or _coroutine_.
pub struct Co<A: Airlock> {
    airlock: A,
}

impl<A: Airlock> Co<A> {
    /// The storage this handle writes to.
    pub closed spec fn airlock(&self) -> A {
        self.airlock
    }

    /// Creates the handle for the storage `airlock`.
    pub fn new(airlock: A) -> (co: Self)
        ensures
            co.airlock() == airlock,
    {
        Co { airlock }
    }

    /// Yields a value from the generator.
    ///
    /// The caller should immediately `await` the barrier that is returned, and nothing else
    /// before it. The barrier opens with the argument of the next resumption.
    ///
    /// The slot is taken out of its cell and handed to [`yield_into`], which says what
    /// becomes of it: a second yield without an `await` in between, or a yield after the
    /// computation has returned, is a misuse. This function cannot stop the computation, so
    /// the value is dropped, the slot is left holding what it held, and the misuse is
    /// recorded on it for the driver to report.
    pub fn yield_(&mut self, value: A::Yield) -> (barrier: Barrier<'_, A>)
        ensures
            barrier.airlock() == old(self).airlock(),
            final(self).airlock() == old(self).airlock(),
    {
        let mut slot = self.airlock.exchange(Slot::new());
        let _ = yield_into(&mut slot, value);
        let _ = self.airlock.exchange(slot);
        Barrier { airlock: &self.airlock }
    }
}

/// The suspension point of a yield: a future that is pending until the generator is
/// resumed, and then returns the resume argument.
#[must_use]
pub struct Barrier<'a, A: Airlock> {
    airlock: &'a A,
}

impl<'a, A: Airlock> Barrier<'a, A> {
    /// The storage this barrier watches.
    pub closed spec fn airlock(&self) -> A {
        *self.airlock
    }

    /// Returns the first misuse recorded in the slot that this barrier watches, if any.
    /// Right after a yield, this is how the computation can learn that its yield was
    /// refused.
    pub fn fault(&self) -> (fault: Option<Misuse>)
        ensures
            fault != Some(Misuse::ResumedAfterCompletion),
    {
        recorded_fault(self.airlock)
    }

    /// Looks for a resume argument in the slot, by [`Slot::receive`]: `Some` of it if the
    /// driver has left one, `None` if the barrier stays closed.
    pub fn receive(&self) -> Option<A::Resume> {
        let mut slot = self.airlock.exchange(Slot::new());
        let arg = slot.receive();
        let _ = self.airlock.exchange(slot);
        arg
    }
}

impl<'a, A: Airlock> Future for Barrier<'a, A> {
    type Output = A::Resume;

    /// Ready with the resume argument once the driver has left one, pending until then.
    fn poll(self: Pin<&mut Self>, _cx: &mut Context<'_>) -> Poll<Self::Output> {
        let this = pinned_ref(pinned_shared(self));
        into_poll(this.receive())
    }
}

/// A computation, pinned on the heap, together with the phase of its generator.
///
/// The two are kept in one place, and out of reach, so that the phase cannot be set apart
/// from what has happened to the computation: it is active exactly as long as the
/// computation has neither returned nor been caught breaking the protocol. Only an active
/// computation is ever polled.
#[verifier::reject_recursive_types(F)]
pub struct Computation<F: Future> {
    future: Pin<Box<F>>,
    phase: Phase,
    polls: Ghost<nat>,
}

impl<F: Future> Computation<F> {
    /// A generator fails only with a misuse that its computation committed. Resuming a
    /// generator that has completed is refused each time, and leaves it complete.
    #[verifier::type_invariant]
    spec fn well_formed(&self) -> bool {
        self.phase != Phase::Failed(Misuse::ResumedAfterCompletion)
    }

    /// Where the generator of this computation stands.
    pub closed spec fn spec_phase(&self) -> Phase {
        self.phase
    }

    /// How often the computation has been polled since it was boxed.
    pub closed spec fn polls(&self) -> nat {
        self.polls@
    }

    /// Boxes and pins a computation that has not been polled yet. It starts out active.
    pub fn new(future: F) -> (computation: Self)
        ensures
            computation.phase() == Phase::Active,
            computation.polls() == 0,
    {
        Computation { future: Box::pin(future), phase: Phase::Active, polls: Ghost(0) }
    }

    /// Polls the computation once, and counts the poll. This is the only place where the
    /// computation is polled, and it asks for an active generator: a computation that has
    /// returned is out of its reach.
    fn poll_once(&mut self, cx: &mut Context<'_>) -> (polled: Option<F::Output>)
        requires
            old(self).phase() == Phase::Active,
        ensures
            final(self).phase() == Phase::Active,
            final(self).polls() == old(self).polls() + 1,
    {
        self.polls = Ghost((self.polls@ + 1) as nat);
        poll_pinned(repinned(&mut self.future), cx)
    }

    /// Returns where the generator of this computation stands.
    #[verifier::when_used_as_spec(spec_phase)]
    pub fn phase(&self) -> (phase: Phase)
        ensures
            phase == self.phase(),
    {
        self.phase
    }
}

/// Returns the misuse that the generator has failed with, or else the first misuse
/// recorded in the slot behind `airlock`, if any.
pub fn fault<A: Airlock, F: Future>(computation: &Computation<F>, airlock: &A) -> (fault: Option<
    Misuse,
>)
    ensures
        computation.phase() matches Phase::Failed(misuse) ==> fault == Some(misuse),
        fault != Some(Misuse::ResumedAfterCompletion),
{
    proof {
        use_type_invariant(computation);
    }
    match computation.phase {
        Phase::Failed(misuse) => Some(misuse),
        _ => recorded_fault(airlock),
    }
}

/// Polls an active computation once and says what came of it.
///
/// The computation is polled with a waker that does nothing, then the slot behind `airlock`
/// is taken out and handed to [`conclude`], whose contract says what is returned for each
/// outcome of the poll and each content of the slot. The phase follows from the result: a computation
/// that has returned or has been caught in a misuse is active no longer.
///
/// A computation that is not active must not be polled; [`resume`] checks that first.
pub fn advance<A: Airlock, F: Future>(computation: &mut Computation<F>, airlock: &A) -> (out:
    Result<GeneratorState<A::Yield, F::Output>, Misuse>)
    requires
        old(computation).phase() == Phase::Active,
    ensures
        final(computation).phase() == Phase::Active.after(out),
        final(computation).polls() == old(computation).polls() + 1,
        out != Err::<GeneratorState<A::Yield, F::Output>, Misuse>(Misuse::ResumedAfterCompletion),
{
    let waker = waker::create();
    let mut cx = Context::from_waker(waker);
    let polled = computation.poll_once(&mut cx);
    let mut slot = airlock.exchange(Slot::new());
    let out = conclude(&mut slot, polled);
    let _ = airlock.exchange(slot);
    computation.phase.record(&out);
    out
}

/// Resumes a generator with the argument `arg`.
///
/// A generator that is complete or has failed is not touched: the call is refused with
/// [`Misuse::ResumedAfterCompletion`], or with the misuse that made it fail. An active
/// generator gets `arg` into its slot and is advanced by one poll; its phase then follows
/// from the result.
pub fn resume<A: Airlock, F: Future>(
    computation: &mut Computation<F>,
    airlock: &A,
    arg: A::Resume,
) -> (out: Result<GeneratorState<A::Yield, F::Output>, Misuse>)
    ensures
        old(computation).phase().refusal() matches Some(misuse) ==> out == Err::<
            GeneratorState<A::Yield, F::Output>,
            Misuse,
        >(misuse),
        final(computation).phase() == old(computation).phase().after(out),
        final(computation).polls() == old(computation).polls() + old(
            computation,
        ).phase().polls_due(),
        old(computation).phase() == Phase::Complete <==> out == Err::<
            GeneratorState<A::Yield, F::Output>,
            Misuse,
        >(Misuse::ResumedAfterCompletion),
{
    proof {
        use_type_invariant(&*computation);
    }
    match computation.phase.check() {
        Some(misuse) => Err(misuse),
        None => {
            deposit(airlock, arg);
            advance(computation, airlock)
        },
    }
}

/// Polls the computation of an asynchronous generator once, with the caller's context.
///
/// This is [`advance`] for a generator whose computation may wait for other futures
/// between two yields: a computation that is pending without having yielded is no misuse
/// here, and `None` is returned for it; the slot is settled by [`Slot::settle_async`].
/// The resume argument is not handled here: [`async_resume`] leaves it in the slot once,
/// before the first poll.
///
/// A generator that is complete or has failed is not polled: `Some` of the refusal is
/// returned at once.
pub fn async_step<A: Airlock, F: Future>(
    computation: &mut Computation<F>,
    airlock: &A,
    cx: &mut Context<'_>,
) -> (out: Option<Result<GeneratorState<A::Yield, F::Output>, Misuse>>)
    ensures
        old(computation).phase().refusal() matches Some(misuse) ==> out == Some(
            Err::<GeneratorState<A::Yield, F::Output>, Misuse>(misuse),
        ),
        out matches Some(result) ==> final(computation).phase() == old(computation).phase().after(
            result,
        ),
        out is None ==> old(computation).phase() == Phase::Active,
        out is None ==> final(computation).phase() == Phase::Active,
        final(computation).polls() == old(computation).polls() + old(
            computation,
        ).phase().polls_due(),
        old(computation).phase() == Phase::Complete <==> out == Some(
            Err::<GeneratorState<A::Yield, F::Output>, Misuse>(Misuse::ResumedAfterCompletion),
        ),
{
    proof {
        use_type_invariant(&*computation);
    }
    match computation.phase.check() {
        Some(misuse) => Some(Err(misuse)),
        None => {
            let polled = computation.poll_once(cx);
            let mut slot = airlock.exchange(Slot::new());
            let out = slot.settle_async(polled);
            let _ = airlock.exchange(slot);
            match &out {
                Some(result) => {
                    computation.phase.record(result);
                },
                None => {},
            }
            out
        },
    }
}

/// One resumption of an asynchronous generator, as a future.
///
/// Each poll of it is one [`async_step`]. It is ready with the result of the resumption as
/// soon as the computation has yielded or returned, or a misuse has been noticed.
#[must_use]
#[verifier::reject_recursive_types(F)]
pub struct Advance<'a, F: Future, A: Airlock> {
    /// The computation that this resumption polls.
    pub computation: &'a mut Computation<F>,
    /// The storage of the slot that this resumption settles.
    pub airlock: &'a A,
}

/// Gets at the fields of a pinned [`Advance`] with `Pin::get_mut`. An `Advance` holds
/// nothing but two references, so it is `Unpin` and may be moved.
#[verifier::external_body]
fn unpinned<'b, 'a, F: Future, A: Airlock>(pinned: Pin<&'b mut Advance<'a, F, A>>) -> (this:
    &'b mut Advance<'a, F, A>) {
    pinned.get_mut()
}

impl<'a, F: Future, A: Airlock> Future for Advance<'a, F, A> {
    type Output = Result<GeneratorState<A::Yield, F::Output>, Misuse>;

    fn poll(self: Pin<&mut Self>, cx: &mut Context<'_>) -> Poll<Self::Output> {
        let this = unpinned(self);
        into_poll(async_step(this.computation, this.airlock, cx))
    }
}

/// Returns the future that carries out one resumption of an asynchronous generator. The
/// resume argument must be in the slot already.
pub fn async_advance<'a, F: Future, A: Airlock>(
    computation: &'a mut Computation<F>,
    airlock: &'a A,
) -> (resumption: Advance<'a, F, A>)
    ensures
        *resumption.computation == *old(computation),
        *final(resumption.computation) == *final(computation),
        *resumption.airlock == *airlock,
{
    Advance { computation, airlock }
}

/// Starts one resumption of an asynchronous generator with the argument `arg`: leaves the
/// argument in the slot if the generator is active, and returns the future that carries
/// the resumption out.
pub fn async_resume<'a, F: Future, A: Airlock>(
    computation: &'a mut Computation<F>,
    airlock: &'a A,
    arg: A::Resume,
) -> (resumption: Advance<'a, F, A>)
    ensures
        *resumption.computation == *old(computation),
        *final(resumption.computation) == *final(computation),
        *resumption.airlock == *airlock,
{
    match computation.phase.check() {
        Some(_) => {},
        None => {
            deposit(airlock, arg);
        },
    }
    async_advance(computation, airlock)
}

/// Takes the next item out of a generator that is used as a sequence: one [`resume`] if
/// the generator is active, the end if it is not.
pub fn next_item<A: Airlock<Resume = ()>, F: Future<Output = ()>>(
    computation: &mut Computation<F>,
    airlock: &A,
) -> (item: Option<Result<A::Yield, Misuse>>)
    ensures
        iterated(old(computation).phase(), item, final(computation).phase()),
        final(computation).polls() == old(computation).polls() + old(
            computation,
        ).phase().polls_due(),
{
    match computation.phase.check() {
        Some(_) => None,
        None => into_item(resume(computation, airlock, ())),
    }
}

/// Takes the next item out of an asynchronous generator that is used as a stream.
///
/// The outer `None` says that the computation is waiting for something else and that the
/// stream has to be polled again. `Some` carries the item: a value or a misuse, or the end
/// once the generator has completed and ever after.
pub fn poll_item<A: Airlock<Resume = ()>, F: Future<Output = ()>>(
    computation: &mut Computation<F>,
    airlock: &A,
    cx: &mut Context<'_>,
) -> (polled: Option<Option<Result<A::Yield, Misuse>>>)
    ensures
        polled matches Some(item) ==> iterated(
            old(computation).phase(),
            item,
            final(computation).phase(),
        ),
        polled is None ==> old(computation).phase() == Phase::Active,
        polled is None ==> final(computation).phase() == Phase::Active,
        final(computation).polls() == old(computation).polls() + old(
            computation,
        ).phase().polls_due(),
{
    match computation.phase.check() {
        Some(_) => Some(None),
        None => {
            deposit(airlock, ());
            match async_step(computation, airlock, cx) {
                Some(out) => Some(into_item(out)),
                None => None,
            }
        },
    }
}

} // verus!
