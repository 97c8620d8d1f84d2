//! A generator as a sequence.
use std::future::Future;
use vstd::prelude::*;

use crate::phase::{iterated, Phase};
use crate::slot::Misuse;
use crate::stack::generator::Gen;

verus! {

/// The values that a generator yields, one after the other.
///
/// Each call of [`IntoIter::next`] resumes the generator once. The sequence ends when the
/// generator completes, or after a misuse has been handed out; from then on the generator
/// is not resumed any more.
#[verifier::reject_recursive_types(F)]
pub struct IntoIter<'s, Y, F: Future<Output = ()>> {
    generator: Gen<'s, Y, (), F>,
}

impl<'s, Y, F: Future<Output = ()>> IntoIter<'s, Y, F> {
    /// Where the generator behind this sequence stands.
    pub closed spec fn phase(&self) -> Phase {
        self.generator.phase()
    }

    /// How often the computation of the generator behind this sequence has been polled.
    pub closed spec fn polls(&self) -> nat {
        self.generator.polls()
    }

    /// Wraps a generator.
    pub fn new(generator: Gen<'s, Y, (), F>) -> (iter: Self)
        ensures
            iter.phase() == generator.phase(),
            iter.polls() == generator.polls(),
    {
        IntoIter { generator }
    }

    /// Returns the next value that the generator yields, or `None` at the end.
    pub fn next(&mut self) -> (item: Option<Result<Y, Misuse>>)
        ensures
            iterated(old(self).phase(), item, final(self).phase()),
            final(self).polls() == old(self).polls() + old(self).phase().polls_due(),
    {
        self.generator.next_item()
    }
}

/// The values that a borrowed generator yields, one after the other.
///
/// As [`IntoIter`], but the generator stays with its owner, who can go on resuming it
/// once this sequence is dropped.
#[verifier::reject_recursive_types(F)]
pub struct MutIntoIter<'r, 's, Y, F: Future<Output = ()>> {
    /// The generator behind this sequence.
    pub generator: &'r mut Gen<'s, Y, (), F>,
}

impl<'r, 's, Y, F: Future<Output = ()>> MutIntoIter<'r, 's, Y, F> {
    /// Where the generator behind this sequence stands.
    pub open spec fn phase(&self) -> Phase {
        self.generator.phase()
    }

    /// How often the computation of the generator behind this sequence has been polled.
    pub open spec fn polls(&self) -> nat {
        self.generator.polls()
    }

    /// Wraps a borrowed generator.
    pub fn new(generator: &'r mut Gen<'s, Y, (), F>) -> (iter: Self)
        ensures
            iter.phase() == old(generator).phase(),
            iter.polls() == old(generator).polls(),
            *final(generator) == *final(iter.generator),
    {
        MutIntoIter { generator }
    }

    /// Returns the next value that the generator yields, or `None` at the end.
    pub fn next(&mut self) -> (item: Option<Result<Y, Misuse>>)
        ensures
            iterated(old(self).phase(), item, final(self).phase()),
            final(self).polls() == old(self).polls() + old(self).phase().polls_due(),
            *final(final(self).generator) == *final(old(self).generator),
    {
        self.generator.next_item()
    }
}

} // verus!
