//! The result of a resumption, and the trait shared by all generators.
use vstd::prelude::*;

use crate::slot::Misuse;

verus! {

/// The result of resuming a generator.
#[derive(PartialEq, Debug)]
pub enum GeneratorState<Y, R> {
    /// The generator suspended with a value.
    Yielded(Y),
    /// The generator finished with a return value. It must not be resumed again.
    Complete(R),
}

/// A computation that can be resumed step by step with an argument of type `R`.
pub trait Generator<R = ()> {
    /// The type of value this generator yields.
    type Yield;

    /// The type of value this generator returns upon completion.
    type Return;

    /// Resumes the execution of this generator.
    fn resume(&mut self, arg: R) -> Result<GeneratorState<Self::Yield, Self::Return>, Misuse>;
}

} // verus!
