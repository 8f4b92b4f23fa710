//! Helpers for clearing sensitive data on the stack and heap.
//!
//! Some kinds of data should not be kept in memory any longer than they are
//! needed: keys, passwords, decrypted text. [`ClearOnDrop`] wraps a place that
//! holds such data and overwrites the data when the wrapper goes out of scope,
//! whichever way the scope is left. The overwriting is followed by a barrier
//! that keeps the optimizer from removing it as a store that nothing reads.
//!
//! - [`clear`] says which values can be overwritten, and with what.
//! - [`scalar`] declares the integers safe to be set to all-bits-zero, and
//!   [`initial`] gives a few more types of the standard library a value to be
//!   cleared to.
//! - [`place`] says what a place is and how a guard gives it up.
//! - [`guard`] holds one guard for each kind of place.
//! - [`clear_on_drop`] is the wrapper itself, [`forward`] its comparisons.
//! - [`barrier`] hides a place from the optimizer.
//! - [`clearable`] clears `Copy` values element by element.
//!
//! Only the memory that a place leads to is cleared. Copies that the compiler
//! or the program made elsewhere, in registers or on the stack, are not.

pub mod barrier;
pub mod clear;
pub mod clear_on_drop;
pub mod clearable;
pub mod forward;
pub mod guard;
pub mod initial;
pub mod place;
pub mod scalar;

pub use crate::clear::{Clear, InitializableFromZeroed, ZeroSafe};
pub use crate::clear_on_drop::ClearOnDrop;
pub use crate::clearable::Clearable;
pub use crate::place::{Exit, Place};
