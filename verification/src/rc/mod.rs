//! A generator whose transfer slot is shared through an `Rc`.
//!
//! The generator and the handle given to the computation each hold a reference-counted
//! pointer to the slot. The computation is boxed and pinned, so the generator can be moved
//! freely while the computation stays where it is.
pub mod engine;
pub mod generator;
pub mod iterator;

pub use crate::rc::engine::{Airlock, Co};
pub use crate::rc::generator::Gen;
pub use crate::rc::iterator::IntoIter;
