//! The life of a generator: active, complete, or failed.
//!
//! A generator owns its phase, so unlike the contents of the shared slot it is known to the
//! verifier at every point. The phase is what keeps a computation that has returned, or
//! whose protocol is broken, from ever being polled again.
use vstd::prelude::*;

use crate::ops::GeneratorState;
use crate::slot::Misuse;

verus! {

/// Where a generator stands in its life.
#[derive(Clone, Copy, PartialEq, Eq, Debug, Structural)]
pub enum Phase {
    /// The computation has not returned and no misuse has been reported: it can be resumed.
    Active,
    /// The computation has returned. It is never polled again.
    Complete,
    /// A misuse has been reported. The computation is never polled again.
    Failed(Misuse),
}

impl Phase {
    /// What a resumption in this phase is answered with before the computation is even
    /// looked at, if it is.
    pub open spec fn refusal(self) -> Option<Misuse> {
        match self {
            Phase::Active => None,
            Phase::Complete => Some(Misuse::ResumedAfterCompletion),
            Phase::Failed(misuse) => Some(misuse),
        }
    }

    /// The phase that follows this one when a resumption has ended in `out`.
    pub open spec fn after<Y, C>(self, out: Result<GeneratorState<Y, C>, Misuse>) -> Phase {
        match self {
            Phase::Active => match out {
                Ok(GeneratorState::Yielded(_)) => Phase::Active,
                Ok(GeneratorState::Complete(_)) => Phase::Complete,
                Err(misuse) => Phase::Failed(misuse),
            },
            _ => self,
        }
    }

    /// How often a resumption in this phase polls the computation: once if the generator is
    /// active, and not at all if it is complete or has failed.
    pub open spec fn polls_due(self) -> nat {
        if self == Phase::Active {
            1
        } else {
            0
        }
    }

    /// Says what a resumption in this phase is refused with, or `None` if the computation
    /// may run.
    pub fn check(&self) -> (refusal: Option<Misuse>)
        ensures
            refusal == self.refusal(),
    {
        match self {
            Phase::Active => None,
            Phase::Complete => Some(Misuse::ResumedAfterCompletion),
            Phase::Failed(misuse) => Some(*misuse),
        }
    }

    /// Moves an active generator on to the phase that the result `out` of its resumption
    /// calls for. A generator that is not active stays where it is.
    pub fn record<Y, C>(&mut self, out: &Result<GeneratorState<Y, C>, Misuse>)
        ensures
            *final(self) == old(self).after(*out),
        no_unwind
    {
        match self {
            Phase::Active => {
                match out {
                    Ok(GeneratorState::Yielded(_)) => {},
                    Ok(GeneratorState::Complete(_)) => {
                        *self = Phase::Complete;
                    },
                    Err(misuse) => {
                        *self = Phase::Failed(*misuse);
                    },
                }
            },
            _ => {},
        }
    }
}

/// The item that a sequence over a generator hands out for the result `out` of one
/// resumption: a yielded value or a misuse is an item, completion is the end.
pub open spec fn item_of<Y>(out: Result<GeneratorState<Y, ()>, Misuse>) -> Option<
    Result<Y, Misuse>,
> {
    match out {
        Ok(GeneratorState::Yielded(y)) => Some(Ok(y)),
        Ok(GeneratorState::Complete(_)) => None,
        Err(misuse) => Some(Err(misuse)),
    }
}

/// Whether a sequence over a generator in the phase `before` may hand out `item` and
/// leave the generator in the phase `after`.
///
/// From an active generator, a value leaves it active, a misuse leaves it failed with
/// that misuse, and the end leaves it complete. From any other phase only the end comes,
/// and the phase stays.
pub open spec fn iterated<Y>(before: Phase, item: Option<Result<Y, Misuse>>, after: Phase) -> bool {
    match before {
        Phase::Active => match item {
            Some(Ok(_)) => after == Phase::Active,
            Some(Err(misuse)) => after == Phase::Failed(misuse),
            None => after == Phase::Complete,
        },
        _ => item is None && after == before,
    }
}

/// Turns the result of one resumption into the item of a sequence.
pub fn into_item<Y>(out: Result<GeneratorState<Y, ()>, Misuse>) -> (item: Option<Result<Y, Misuse>>)
    ensures
        item == item_of(out),
{
    match out {
        Ok(GeneratorState::Yielded(y)) => Some(Ok(y)),
        Ok(GeneratorState::Complete(_)) => None,
        Err(misuse) => Some(Err(misuse)),
    }
}

/// Once a sequence over a generator has handed out the end, it hands out nothing but the
/// end: a generator that has finished is not brought back to life.
///
/// `first` and `second` are what two calls in a row hand out, `start`, `between` and `end`
/// the phases of the generator before, between and after them.
pub proof fn lemma_end_is_final<Y>(
    start: Phase,
    first: Option<Result<Y, Misuse>>,
    between: Phase,
    second: Option<Result<Y, Misuse>>,
    end: Phase,
)
    requires
        iterated(start, first, between),
        first is None,
        iterated(between, second, end),
    ensures
        second is None,
        end == between,
{
}

/// Once a sequence over a generator has handed out the end, or a misuse, the computation
/// is not polled again: the generator is no longer active, and a resumption of such a
/// generator polls nothing.
pub proof fn lemma_end_polls_nothing<Y>(
    start: Phase,
    item: Option<Result<Y, Misuse>>,
    after: Phase,
)
    requires
        iterated(start, item, after),
        item is None || item matches Some(Err(_)),
    ensures
        after.polls_due() == 0,
{
}

/// A sequence over a generator hands out a misuse at most once, as its last item.
pub proof fn lemma_misuse_is_last<Y>(
    start: Phase,
    first: Option<Result<Y, Misuse>>,
    between: Phase,
    second: Option<Result<Y, Misuse>>,
    end: Phase,
)
    requires
        iterated(start, first, between),
        first matches Some(Err(_)),
        iterated(between, second, end),
    ensures
        second is None,
        end == between,
{
}

/// A generator that is not active is never moved to another phase, and every resumption
/// of it is answered with the same refusal.
pub proof fn lemma_refusal_is_final<Y, C>(phase: Phase, out: Result<GeneratorState<Y, C>, Misuse>)
    requires
        phase != Phase::Active,
    ensures
        phase.refusal() is Some,
        phase.after(out) == phase,
        phase.after(out).refusal() == phase.refusal(),
{
}

} // verus!
