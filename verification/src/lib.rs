//! Generators on stable Rust, built on top of `async`/`await`.
//!
//! A generator is a computation that can suspend itself, hand a value to its caller, and later
//! be resumed where it left off, optionally receiving a value back. Here the computation is an
//! ordinary future; it yields by awaiting the barrier that [`engine::Co::yield_`] returns, and the
//! caller drives it one step at a time with `resume` / `resume_with`.
//!
//! Three kinds of generator are offered. They share one engine and differ in where the
//! transfer slot lives:
//!
//! |                                  | [`stack::Gen`]  | [`rc::Gen`] | [`sync::Gen`] |
//! |----------------------------------|-----------------|-------------|---------------|
//! | Slot storage                     | caller's shelf  | `Rc`        | `Arc` + lock  |
//! | Heap allocations per generator   | 1               | 2           | 2             |
//! | Can be sent to another thread    | no              | no          | yes           |
//!
//! ```
//! use genawaiter::rc::{Co, Gen};
//! use genawaiter::GeneratorState;
//!
//! async fn odd_numbers_less_than_ten(mut co: Co<i32>) {
//!     let mut n = 1;
//!     while n < 10 {
//!         co.yield_(n).await;
//!         n += 2;
//!     }
//! }
//!
//! let mut generator = Gen::new(odd_numbers_less_than_ten);
//! assert_eq!(generator.resume(), Ok(GeneratorState::Yielded(1)));
//! assert_eq!(generator.resume(), Ok(GeneratorState::Yielded(3)));
//!
//! let mut rest = generator.into_iter();
//! assert_eq!(rest.next(), Some(Ok(5)));
//! assert_eq!(rest.next(), Some(Ok(7)));
//! assert_eq!(rest.next(), Some(Ok(9)));
//! assert_eq!(rest.next(), None);
//! ```
//!
//! # Misuse is reported, never raised
//!
//! This crate raises no panic of its own. The three ways in which a computation can break
//! the yield protocol (yielding twice without awaiting, awaiting something other than the
//! yield barrier while driven synchronously, yielding after completion), and resuming a
//! generator that has finished, are all detected in every build and reported as a
//! [`slot::Misuse`] through the `Err` side of `resume`. A generator that has reported a
//! misuse never runs its computation again.
//!
//! # What is proved
//!
//! The transfer slot ([`slot::Slot`]) is a plain value, and each step of the protocol is a
//! method on it whose contract fixes both the slot afterwards and the value returned.
//! [`protocol`] puts the steps in order and proves what a generator and a computation make
//! of them together: that every value yielded and every resume argument arrives, once and
//! in order, and that every breach of the protocol is caught.
//!
//! The drivers in [`engine`] move a slot out of its shared cell, take one such step on it,
//! and move it back. What the computation does to the slot between two steps of the driver
//! is not known to the verifier, so the contracts of the drivers state what holds for every
//! computation: how the generator's [`phase::Phase`] follows from the result, that
//! resumption after completion is reported exactly when the generator is complete, and that
//! each resumption polls an active computation exactly once and any other not at all. The
//! constructors state that the handle given to the producer writes to the storage that the
//! generator settles.
pub mod engine;
pub mod ops;
pub mod phase;
pub mod protocol;
pub mod rc;
pub mod slot;
pub mod stack;
pub mod sync;
pub mod task;
pub mod waker;

pub use crate::ops::{Generator, GeneratorState};
pub use crate::phase::Phase;
pub use crate::slot::Misuse;
