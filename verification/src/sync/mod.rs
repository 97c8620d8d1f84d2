//! A generator that can be sent to another thread.
//!
//! The transfer slot sits behind an `Arc` and a lock, so the generator may be driven from
//! a thread other than the one it was made on. Only one resumption may be under way at a
//! time: the lock guards each single access to the slot, not a whole resumption.
pub mod boxed;
pub mod engine;
pub mod generator;
pub mod iterator;

pub use crate::sync::boxed::{Boxed, GenBoxed, Task};
pub use crate::sync::engine::{Airlock, Co};
pub use crate::sync::generator::Gen;
pub use crate::sync::iterator::IntoIter;
