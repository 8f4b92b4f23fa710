//! Prevent aggressive code removal optimizations.
//!
//! The functions in this module hide a place from the optimizer, so that it
//! believes the place has been read and modified in unpredictable ways, while
//! in fact nothing happened. A store of zeros that is followed by one of these
//! calls is then not a store that nothing reads, and stays.
//!
//! This is hardening, not a guarantee: the language promises nothing about what
//! an optimizer removes, and the effect has to be looked at again whenever the
//! compiler changes. What the contracts here state is the other half, which can
//! be proved: the place is left exactly as it was. None of the functions
//! unwinds, so they may be called while a value is dropped.

use vstd::prelude::*;

verus! {

/// Hands a borrow to `core::hint::black_box` and takes it back.
///
/// Trusted. The standard library documents `black_box` as an identity function
/// about which the compiler is maximally pessimistic. The contract states the
/// identity for a mutable borrow: the borrow that comes back shows the value
/// that went in, and whatever is written through it is written to the place
/// that `ptr` borrows. That the call never unwinds is assumed as well.
#[verifier::external_body]
fn black_box_mut<T: ?Sized>(ptr: &mut T) -> (seen: &mut T)
    ensures
        &*seen == &*old(ptr),
        &*final(ptr) == &*final(seen),
    opens_invariants none
    no_unwind
{
    core::hint::black_box(ptr)
}

/// The barrier itself: makes the optimizer believe that the memory behind `ptr`
/// is read and modified by an operation it cannot see into.
pub fn hide_mem_impl<T: ?Sized>(ptr: &mut T)
    ensures
        &*final(ptr) == &*old(ptr),
    opens_invariants none
    no_unwind
{
    let _ = black_box_mut(ptr);
}

/// Make the optimizer believe the memory pointed to by `ptr` is read
/// and modified arbitrarily.
pub fn hide_mem<T: ?Sized>(ptr: &mut T)
    ensures
        &*final(ptr) == &*old(ptr),
    opens_invariants none
    no_unwind
{
    hide_mem_impl(ptr);
}

/// Make the optimizer believe the pointer returned by this function is
/// possibly unrelated (except for the lifetime) to `ptr`.
pub fn hide_ptr<P>(ptr: P) -> (hidden: P)
    ensures
        hidden == ptr,
    opens_invariants none
    no_unwind
{
    let mut ptr = ptr;
    hide_mem::<P>(&mut ptr);
    ptr
}

} // verus!
