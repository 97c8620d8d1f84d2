//! The protocol as a whole: what a driver and a computation make of the slot together.
//!
//! The steps of [`crate::slot::Slot`] are stated one by one, each for the slots that the
//! protocol lets it meet. What the handle and the driver make of any slot at all is stated
//! by [`crate::slot::Slot::yielded`] and [`crate::slot::Slot::concluded`]. Here these are
//! put in the order
//! in which a generator and its computation take them, and it is proved what comes of that:
//! for a computation that keeps to the protocol, that each resumption returns exactly what
//! the computation yielded or returned and that each barrier opens with exactly the argument
//! of the resumption that followed; and for each way of breaking the protocol, that it is
//! caught.
use vstd::prelude::*;

use crate::ops::GeneratorState;
use crate::phase::Phase;
use crate::slot::{Misuse, Next, Slot};

verus! {

/// What a computation that keeps to the protocol does when it is polled: it yields a value
/// and waits at the barrier, or it returns.
pub enum Act<Y, C> {
    /// Yield this value and await the barrier.
    Yield(Y),
    /// Return this value.
    Return(C),
}

/// What one resumption leaves behind.
pub struct Turn<Y, R, C> {
    /// The slot after the resumption.
    pub slot: Slot<Y, R>,
    /// What the barrier that the computation was waiting at, if any, opened with.
    pub received: Option<R>,
    /// What the resumption returned to the caller.
    pub out: Result<GeneratorState<Y, C>, Misuse>,
}

/// One resumption with the argument `arg` of a computation that keeps to the protocol.
///
/// The driver deposits `arg`. The computation, if it is `waiting` at the barrier of an
/// earlier yield, looks for the argument there; if it is not, it is polled for the first
/// time and runs from its start. It then does `act`, and the driver settles the slot.
/// (A barrier that stays closed leaves the computation pending where it was.)
pub open spec fn turn<Y, R, C>(slot: Slot<Y, R>, arg: R, waiting: bool, act: Act<Y, C>) -> Turn<
    Y,
    R,
    C,
> {
    let deposited = slot.deposited(arg);
    let (entered, received) = if waiting {
        deposited.received()
    } else {
        (deposited, None)
    };
    if waiting && received is None {
        let (settled, out) = entered.concluded::<C>(None);
        Turn { slot: settled, received, out }
    } else {
        match act {
            Act::Yield(value) => {
                let (settled, out) = entered.yielded(value).concluded::<C>(None);
                Turn { slot: settled, received, out }
            },
            Act::Return(value) => {
                let (settled, out) = entered.concluded(Some(value));
                Turn { slot: settled, received, out }
            },
        }
    }
}

/// What a run of resumptions leaves behind.
pub struct Run<Y, R, C> {
    /// The slot after the last resumption.
    pub slot: Slot<Y, R>,
    /// What each barrier in turn opened with.
    pub received: Seq<Option<R>>,
    /// What each resumption in turn returned to the caller.
    pub outs: Seq<Result<GeneratorState<Y, C>, Misuse>>,
}

/// As many resumptions as there are `values`, the i-th with the argument `args[i]`, of a
/// computation that keeps to the protocol and yields `values[i]` in the i-th.
pub open spec fn run<Y, R, C>(slot: Slot<Y, R>, waiting: bool, values: Seq<Y>, args: Seq<R>) -> Run<
    Y,
    R,
    C,
>
    recommends
        args.len() == values.len(),
    decreases values.len(),
{
    if values.len() == 0 {
        Run { slot, received: Seq::empty(), outs: Seq::empty() }
    } else {
        let first = turn::<Y, R, C>(slot, args[0], waiting, Act::Yield(values[0]));
        let rest = run::<Y, R, C>(first.slot, true, values.skip(1), args.skip(1));
        Run {
            slot: rest.slot,
            received: seq![first.received] + rest.received,
            outs: seq![first.out] + rest.outs,
        }
    }
}

/// A resumption in which the computation yields returns that very value, hands the
/// argument of the resumption to the barrier that the computation was waiting at, and
/// leaves the slot empty.
pub proof fn lemma_turn_yields<Y, R, C>(slot: Slot<Y, R>, arg: R, waiting: bool, value: Y)
    requires
        slot.fault is None,
    ensures
        turn::<Y, R, C>(slot, arg, waiting, Act::Yield(value)).out == Ok::<
            GeneratorState<Y, C>,
            Misuse,
        >(GeneratorState::Yielded(value)),
        turn::<Y, R, C>(slot, arg, waiting, Act::Yield(value)).slot == Slot::<Y, R>::vacant(),
        turn::<Y, R, C>(slot, arg, waiting, Act::Yield(value)).received == if waiting {
            Some(arg)
        } else {
            None
        },
{
}

/// A resumption in which the computation returns is complete with that very value, hands
/// the argument of the resumption to the barrier that the computation was waiting at, and
/// leaves the slot marked completed.
pub proof fn lemma_turn_returns<Y, R, C>(slot: Slot<Y, R>, arg: R, waiting: bool, value: C)
    requires
        slot.fault is None,
    ensures
        turn::<Y, R, C>(slot, arg, waiting, Act::Return(value)).out == Ok::<
            GeneratorState<Y, C>,
            Misuse,
        >(GeneratorState::Complete(value)),
        turn::<Y, R, C>(slot, arg, waiting, Act::Return(value)).slot == (Slot::<Y, R> {
            next: Next::Completed,
            fault: None,
        }),
        turn::<Y, R, C>(slot, arg, waiting, Act::Return(value)).received == if waiting {
            Some(arg)
        } else {
            None
        },
{
}

/// Resumes and yields alternate: a computation that keeps to the protocol and yields
/// `values` one by one has each of them returned by the resumption in which it was
/// yielded, in order, and no misuse is reported.
///
/// Each barrier opens with the argument of the resumption that found the computation
/// waiting at it. A computation that is polled for the first time is waiting at no
/// barrier, so the argument of the first resumption reaches nobody.
pub proof fn lemma_run_yields<Y, R, C>(slot: Slot<Y, R>, waiting: bool, values: Seq<Y>, args: Seq<R>)
    requires
        slot.fault is None,
        args.len() == values.len(),
    ensures
        run::<Y, R, C>(slot, waiting, values, args).outs.len() == values.len(),
        run::<Y, R, C>(slot, waiting, values, args).received.len() == values.len(),
        forall|i: int|
            0 <= i < values.len() ==> #[trigger] run::<Y, R, C>(slot, waiting, values, args).outs[i]
                == Ok::<GeneratorState<Y, C>, Misuse>(GeneratorState::Yielded(values[i])),
        forall|i: int|
            0 <= i < values.len() ==> #[trigger] run::<Y, R, C>(
                slot,
                waiting,
                values,
                args,
            ).received[i] == if i == 0 && !waiting {
                None
            } else {
                Some(args[i])
            },
        run::<Y, R, C>(slot, waiting, values, args).slot.fault is None,
        values.len() > 0 ==> run::<Y, R, C>(slot, waiting, values, args).slot == Slot::<
            Y,
            R,
        >::vacant(),
    decreases values.len(),
{
    if values.len() > 0 {
        let first = turn::<Y, R, C>(slot, args[0], waiting, Act::Yield(values[0]));
        lemma_turn_yields::<Y, R, C>(slot, args[0], waiting, values[0]);
        let rest = run::<Y, R, C>(first.slot, true, values.skip(1), args.skip(1));
        lemma_run_yields::<Y, R, C>(first.slot, true, values.skip(1), args.skip(1));
        let whole = run::<Y, R, C>(slot, waiting, values, args);
        assert(whole.outs == seq![first.out] + rest.outs);
        assert(whole.received == seq![first.received] + rest.received);
        assert forall|i: int| 0 <= i < values.len() implies #[trigger] whole.outs[i] == Ok::<
            GeneratorState<Y, C>,
            Misuse,
        >(GeneratorState::Yielded(values[i])) by {
            if i > 0 {
                assert(whole.outs[i] == rest.outs[i - 1]);
                assert(values.skip(1)[i - 1] == values[i]);
            }
        }
        assert forall|i: int| 0 <= i < values.len() implies #[trigger] whole.received[i] == if i
            == 0 && !waiting {
            None
        } else {
            Some(args[i])
        } by {
            if i > 0 {
                assert(whole.received[i] == rest.received[i - 1]);
                assert(args.skip(1)[i - 1] == args[i]);
            }
        }
    }
}

/// The whole life of a generator whose computation keeps to the protocol, yields `values`
/// one by one and then returns `ret`, resumed with `args` one by one: as many resumptions
/// as there are values, and one more in which the computation returns.
pub open spec fn life<Y, R, C>(values: Seq<Y>, ret: C, args: Seq<R>) -> Run<Y, R, C>
    recommends
        args.len() == values.len() + 1,
{
    let n = values.len() as int;
    let yields = run::<Y, R, C>(Slot::vacant(), false, values, args.take(n));
    let last = turn::<Y, R, C>(yields.slot, args[n], n > 0, Act::Return(ret));
    Run {
        slot: last.slot,
        received: yields.received.push(last.received),
        outs: yields.outs.push(last.out),
    }
}

/// A generator whose computation keeps to the protocol returns `Yielded` of each value in
/// order and then `Complete` of the return value, whatever the types of the two.
///
/// The computation sees every resume argument but the first: the barrier of its i-th yield
/// opens with the argument of the resumption after it. At the end the slot is marked
/// completed, and no misuse has been recorded on the way.
pub proof fn lemma_whole_life<Y, R, C>(values: Seq<Y>, ret: C, args: Seq<R>)
    requires
        args.len() == values.len() + 1,
    ensures
        life(values, ret, args).outs.len() == values.len() + 1,
        forall|i: int|
            0 <= i < values.len() ==> #[trigger] life(values, ret, args).outs[i] == Ok::<
                GeneratorState<Y, C>,
                Misuse,
            >(GeneratorState::Yielded(values[i])),
        life(values, ret, args).outs[values.len() as int] == Ok::<GeneratorState<Y, C>, Misuse>(
            GeneratorState::Complete(ret),
        ),
        life(values, ret, args).received.len() == values.len() + 1,
        life(values, ret, args).received[0] == None::<R>,
        forall|i: int|
            1 <= i <= values.len() ==> #[trigger] life(values, ret, args).received[i] == Some(
                args[i],
            ),
        life(values, ret, args).slot == (Slot::<Y, R> { next: Next::Completed, fault: None }),
{
    let n = values.len() as int;
    let front = args.take(n);
    lemma_run_yields::<Y, R, C>(Slot::vacant(), false, values, front);
    let yields = run::<Y, R, C>(Slot::vacant(), false, values, front);
    lemma_turn_returns::<Y, R, C>(yields.slot, args[n], n > 0, ret);
    let whole = life(values, ret, args);
    assert forall|i: int| 0 <= i < n implies #[trigger] whole.outs[i] == Ok::<
        GeneratorState<Y, C>,
        Misuse,
    >(GeneratorState::Yielded(values[i])) by {
        assert(whole.outs[i] == yields.outs[i]);
    }
    assert forall|i: int| 1 <= i <= n implies #[trigger] whole.received[i] == Some(args[i]) by {
        if i < n {
            assert(whole.received[i] == yields.received[i]);
            assert(front[i] == args[i]);
        }
    }
    if n > 0 {
        assert(whole.received[0] == yields.received[0]);
    }
}

/// The phase that a generator which starts in `phase` is in after resumptions that ended in
/// `outs`, one after the other.
pub open spec fn followed<Y, C>(phase: Phase, outs: Seq<Result<GeneratorState<Y, C>, Misuse>>) -> Phase
    decreases outs.len(),
{
    if outs.len() == 0 {
        phase
    } else {
        followed(phase, outs.drop_last()).after(outs.last())
    }
}

/// A generator whose computation keeps to the protocol stays active as long as the
/// computation yields: after any number of resumptions short of the last.
pub proof fn lemma_life_stays_active<Y, R, C>(values: Seq<Y>, ret: C, args: Seq<R>, k: int)
    requires
        args.len() == values.len() + 1,
        0 <= k <= values.len(),
    ensures
        followed(Phase::Active, life(values, ret, args).outs.take(k)) == Phase::Active,
    decreases k,
{
    lemma_whole_life(values, ret, args);
    let outs = life(values, ret, args).outs;
    if k > 0 {
        lemma_life_stays_active(values, ret, args, k - 1);
        assert(outs.take(k).drop_last() == outs.take(k - 1));
        assert(outs.take(k).last() == outs[k - 1]);
    }
}

/// A generator whose computation keeps to the protocol is complete once the computation
/// has returned.
pub proof fn lemma_life_ends_complete<Y, R, C>(values: Seq<Y>, ret: C, args: Seq<R>)
    requires
        args.len() == values.len() + 1,
    ensures
        followed(Phase::Active, life(values, ret, args).outs) == Phase::Complete,
{
    lemma_whole_life(values, ret, args);
    lemma_life_stays_active(values, ret, args, values.len() as int);
    let outs = life(values, ret, args).outs;
    assert(outs.drop_last() == outs.take(values.len() as int));
}

/// On the slots that the protocol lets them meet, the handle and the driver do nothing but
/// take the plain steps: a yield into a slot that can take the value is
/// [`Slot::offered`], and the end of a poll over a slot that is not stalled is
/// [`Slot::settled`]. On every other slot they record the misuse and change nothing else.
pub proof fn lemma_handlers_take_the_steps<Y, R, C>(slot: Slot<Y, R>, value: Y, polled: Option<C>)
    ensures
        Slot::<Y, R>::refusal(slot.next.tag()) is None ==> slot.yielded(value) == slot.offered(
            value,
        ),
        Slot::<Y, R>::refusal(slot.next.tag()) matches Some(misuse) ==> slot.yielded(value)
            == slot.failed(misuse),
        !slot.stalled(polled) ==> slot.concluded(polled) == slot.settled(polled),
        slot.stalled(polled) ==> slot.concluded(polled) == (
            Slot::<Y, R> { next: Next::Empty, fault: Some(Misuse::ForeignAwait) },
            Err::<GeneratorState<Y, C>, Misuse>(Misuse::ForeignAwait),
        ),
{
}

/// The argument of the first resumption is dropped unseen: whatever it is, the slot is the
/// same once the computation has yielded for the first time.
pub proof fn lemma_first_argument_is_dropped<Y, R>(slot: Slot<Y, R>, one: R, other: R, value: Y)
    requires
        slot.fault is None,
    ensures
        slot.deposited(one).yielded(value) == slot.deposited(other).yielded(value),
        slot.deposited(one).yielded(value) == (Slot::<Y, R> {
            next: Next::Yield(value),
            fault: None,
        }),
{
}

/// A second yield without an `await` in between is caught: the slot keeps the first value,
/// the second is dropped, and the resumption reports the misuse whether the computation
/// then suspends or returns.
pub proof fn lemma_second_yield_is_caught<Y, R, C>(
    slot: Slot<Y, R>,
    first: Y,
    second: Y,
    polled: Option<C>,
)
    requires
        slot.fault is None,
        slot.next is Empty || slot.next is Resume,
    ensures
        slot.yielded(first).yielded(second).next == Next::<Y, R>::Yield(first),
        slot.yielded(first).yielded(second).fault == Some(Misuse::MultipleYields),
        slot.yielded(first).yielded(second).concluded(polled).1 == Err::<
            GeneratorState<Y, C>,
            Misuse,
        >(Misuse::MultipleYields),
{
}

/// A computation that suspends without having yielded is caught by the synchronous driver,
/// and the misuse stays on the slot. To the asynchronous driver the same computation is
/// merely not ready yet.
pub proof fn lemma_foreign_await_is_caught<Y, R, C>(slot: Slot<Y, R>)
    requires
        slot.fault is None,
        !(slot.next is Yield),
    ensures
        slot.concluded::<C>(None).1 == Err::<GeneratorState<Y, C>, Misuse>(Misuse::ForeignAwait),
        slot.concluded::<C>(None).0.fault == Some(Misuse::ForeignAwait),
        slot.settled_async::<C>(None).1 is None,
        slot.settled_async::<C>(None).0 == Slot::<Y, R>::vacant(),
{
}

/// Driven asynchronously, a computation may wait for something else between its barrier
/// and its next yield: the driver that finds it pending without a value reports nothing
/// and leaves the slot empty, and the value yielded later is returned by the poll that
/// finds it, as if the computation had never waited.
pub proof fn lemma_async_turn_waits<Y, R, C>(slot: Slot<Y, R>, arg: R, value: Y)
    requires
        slot.fault is None,
    ensures
        ({
            let (entered, received) = slot.deposited(arg).received();
            let (waiting, pending) = entered.settled_async::<C>(None);
            let (done, out) = waiting.yielded(value).settled_async::<C>(None);
            &&& received == Some(arg)
            &&& pending is None
            &&& waiting == Slot::<Y, R>::vacant()
            &&& out == Some(Ok::<GeneratorState<Y, C>, Misuse>(GeneratorState::Yielded(value)))
            &&& done == Slot::<Y, R>::vacant()
        }),
{
}

/// Every step of the protocol leaves a well-formed slot well formed, so a slot that has
/// only ever been touched by these steps is well formed: that is the rule of the shared
/// cells.
pub proof fn lemma_steps_keep_well_formed<Y, R, C>(
    slot: Slot<Y, R>,
    arg: R,
    value: Y,
    polled: Option<C>,
)
    requires
        slot.well_formed(),
    ensures
        Slot::<Y, R>::vacant().well_formed(),
        slot.deposited(arg).well_formed(),
        slot.yielded(value).well_formed(),
        slot.received().0.well_formed(),
        slot.concluded(polled).0.well_formed(),
        slot.settled_async(polled).0.well_formed(),
        slot.concluded(polled).1 != Err::<GeneratorState<Y, C>, Misuse>(
            Misuse::ResumedAfterCompletion,
        ),
        slot.settled_async(polled).1 != Some(
            Err::<GeneratorState<Y, C>, Misuse>(Misuse::ResumedAfterCompletion),
        ),
{
}

/// A yield after the computation has returned is caught: the slot stays marked completed
/// and the misuse is recorded on it.
pub proof fn lemma_yield_after_completion_is_caught<Y, R, C>(slot: Slot<Y, R>, ret: C, value: Y)
    requires
        slot.fault is None,
    ensures
        slot.concluded(Some(ret)).0.yielded(value).next == Next::<Y, R>::Completed,
        slot.concluded(Some(ret)).0.yielded(value).fault == Some(Misuse::YieldAfterCompletion),
{
}

/// A misuse, once recorded, stays: no step of the protocol removes or replaces it, and both
/// drivers report it at every resumption from then on.
pub proof fn lemma_fault_stays<Y, R, C>(
    slot: Slot<Y, R>,
    misuse: Misuse,
    other: Misuse,
    arg: R,
    value: Y,
    polled: Option<C>,
)
    requires
        slot.fault == Some(misuse),
    ensures
        slot.failed(other).fault == Some(misuse),
        slot.deposited(arg).fault == Some(misuse),
        slot.yielded(value).fault == Some(misuse),
        slot.received().0.fault == Some(misuse),
        slot.concluded(polled).0.fault == Some(misuse),
        slot.concluded(polled).1 == Err::<GeneratorState<Y, C>, Misuse>(misuse),
        slot.settled_async(polled).0.fault == Some(misuse),
        slot.settled_async(polled).1 == Some(Err::<GeneratorState<Y, C>, Misuse>(misuse)),
{
}

} // verus!
