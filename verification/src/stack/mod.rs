//! A generator whose transfer slot lives in storage that the caller provides.
//!
//! The caller makes a [`Shelf`] and lends it to the generator for as long as the generator
//! lives. The handle given to the computation refers to the slot on the shelf, so the
//! compiler sees to it that the handle cannot outlive the shelf. The computation
//! itself is boxed and pinned: it never moves, wherever the generator is moved to.
pub mod engine;
pub mod generator;
pub mod iterator;

pub use crate::stack::engine::{Airlock, Co};
pub use crate::stack::generator::{Gen, Shelf};
pub use crate::stack::iterator::{IntoIter, MutIntoIter};
