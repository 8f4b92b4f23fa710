//! The guards, one for each kind of place.
//!
//! Every guard is made of two parts. The inner part, the slot, holds the place
//! until it is given up, and clears the value when it is dropped while it still
//! holds the place. The outer part is what the rest of the library sees: it
//! always holds its place, and is taken apart when the place is handed back.
//!
//! - [`value`]: `&mut T` and `Box<T>`
//! - [`slice`]: `&mut [T]`, `Box<[T]>` and `Vec<T>`
//! - [`array`]: `&mut [T; N]` and `Box<[T; N]>`
//! - [`text`]: `String`

pub mod array;
pub mod slice;
pub mod text;
pub mod value;
