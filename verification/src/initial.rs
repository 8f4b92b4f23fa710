//! Initial values of types of the standard library for which all-bits-zero is
//! not declared safe here, but which have a value to fall back to.
//!
//! Writing `None` over an option need not touch the bytes of what the option
//! held. So an option is first overwritten with the initial value of what it
//! holds, and only then set to `None`; a pair is initialized part by part.

use vstd::prelude::*;

use crate::barrier::hide_mem_impl;
use crate::clear::InitializableFromZeroed;

verus! {

impl InitializableFromZeroed for () {
    const INITIAL: () = ();
}

impl InitializableFromZeroed for bool {
    const INITIAL: bool = false;
}

impl InitializableFromZeroed for char {
    const INITIAL: char = '\0';
}

impl<T: InitializableFromZeroed> InitializableFromZeroed for Option<T> {
    const INITIAL: Option<T> = None;

    /// Overwrites what the option holds, then empties the option.
    fn initialize(place: &mut Self) {
        *place = Some(T::INITIAL);
        hide_mem_impl::<Option<T>>(place);
        *place = None;
    }
}

impl<A: InitializableFromZeroed, B: InitializableFromZeroed> InitializableFromZeroed for (A, B) {
    const INITIAL: (A, B) = (A::INITIAL, B::INITIAL);

    /// Initializes the two parts, each in its own way.
    fn initialize(place: &mut Self) {
        A::initialize(&mut place.0);
        B::initialize(&mut place.1);
    }
}

/// The initial values of `bool` and `char` are `false` and NUL.
pub proof fn lemma_initial_scalars()
    ensures
        bool::INITIAL == false,
        char::INITIAL == '\0',
{
}

/// The initial value of an option is `None`.
pub proof fn lemma_initial_option<T: InitializableFromZeroed>()
    ensures
        Option::<T>::INITIAL == None::<T>,
{
}

/// The initial value of a pair is the pair of the initial values.
pub proof fn lemma_initial_pair<A: InitializableFromZeroed, B: InitializableFromZeroed>()
    ensures
        <(A, B)>::INITIAL == (A::INITIAL, B::INITIAL),
{
}

} // verus!
