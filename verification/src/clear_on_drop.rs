//! The wrapper that clears a place when it goes out of scope.

use core::borrow::{Borrow, BorrowMut};
use core::hash::{Hash, Hasher};
use core::ops::{Deref, DerefMut};

use vstd::prelude::*;

use crate::clear::Clear;
use crate::place::{Exit, Place};

verus! {

/// Zeroizes a storage location when dropped.
///
/// This struct contains a reference to a memory location, either as a
/// mutable borrow (`&mut T`), or as an owned container (`Box<T>` or
/// similar). When this struct is dropped, the referenced location is
/// overwritten with its initial value.
///
/// While it lives, the struct stands for the value: it dereferences to it, for
/// reading and for writing, and compares, hashes and converts as the place
/// does. It has no `Debug`, so that no log shows what it guards.
pub struct ClearOnDrop<P: Place> {
    guard: P::Guard,
}

impl<P: Place> ClearOnDrop<P> {
    /// The guard that holds the wrapped place.
    pub closed spec fn guard(&self) -> P::Guard {
        self.guard
    }

    /// The place that is wrapped.
    pub open spec fn place(&self) -> P {
        P::held(&self.guard())
    }

    /// The value that the wrapped place leads to.
    pub open spec fn target(&self) -> &P::Target {
        self.place().target()
    }

    /// What the value holds that the wrapped place leads to.
    pub open spec fn content(&self) -> P::Content {
        self.place().content()
    }

    /// Creates a new `ClearOnDrop` which clears `place` on drop.
    ///
    /// The `place` parameter can be a `&mut T`, a `Box<T>`, or other
    /// containers which behave like `Box<T>`.
    ///
    /// Note: only the first level of dereference will be cleared. Do
    /// not use `&mut Box<T>` or similar as the place, since the heap
    /// contents won't be cleared in that case. If you need the place
    /// back, use `ClearOnDrop::into_place(...)` instead of a borrow.
    ///
    /// The wrapper's guard is the one that arming `place` gives: whatever the
    /// kind of place states of that, a borrow's tie to its storage among it,
    /// holds of the wrapper.
    pub fn new(place: P) -> (c: Self)
        ensures
            c.content() == place.content(),
            c.target() == place.target(),
            call_ensures(P::arm, (place,), c.guard()),
    {
        ClearOnDrop { guard: place.arm() }
    }

    /// Consumes the `ClearOnDrop`, returning the `place` after clearing.
    ///
    /// Note: this is an associated function, which means that you have
    /// to call it as `ClearOnDrop::into_place(c)` instead of
    /// `c.into_place()`. This is so that there is no conflict with a
    /// method on the inner type.
    ///
    /// The place is the one that the guard releases after clearing: a borrow
    /// that comes back leads to the storage that was wrapped, which by then
    /// holds the cleared value.
    pub fn into_place(c: Self) -> (place: P)
        ensures
            place.content() == P::cleared(c.content()),
            call_ensures(P::release, (c.guard(), Exit::IntoPlace), place),
    {
        P::release(c.guard, Exit::IntoPlace)
    }

    /// Consumes the `ClearOnDrop`, returning the `place` without clearing.
    ///
    /// Note: this is an associated function, which means that you have
    /// to call it as `ClearOnDrop::into_uncleared_place(c)` instead of
    /// `c.into_uncleared_place()`. This is so that there is no conflict
    /// with a method on the inner type.
    ///
    /// The place is the one that the guard releases as it is: a borrow that
    /// comes back leads to the storage that was wrapped.
    pub fn into_uncleared_place(c: Self) -> (place: P)
        ensures
            place.content() == c.content(),
            place.target() == c.target(),
            call_ensures(P::release, (c.guard(), Exit::IntoUnclearedPlace), place),
    {
        P::release(c.guard, Exit::IntoUnclearedPlace)
    }
}

impl<P: Place + Clone> Clone for ClearOnDrop<P> {
    /// Wraps a clone of the place.
    fn clone(&self) -> (copy: Self)
        ensures
            exists|place: P| #[trigger]
                cloned(self.place(), place) && copy.content() == place.content(),
    {
        let place = P::place_ref(&self.guard).clone();
        assert(cloned(self.place(), place));
        ClearOnDrop::new(place)
    }

    /// Replaces the wrapper by one of a clone of the place of `source`. The
    /// wrapper that is replaced is dropped, which clears its value.
    fn clone_from(&mut self, source: &Self)
        ensures
            exists|place: P| #[trigger]
                cloned(source.place(), place) && final(self).content() == place.content(),
    {
        *self = source.clone();
    }
}

impl<P: Place> Deref for ClearOnDrop<P> {
    type Target = P::Target;

    /// The value, for reading.
    fn deref(&self) -> (target: &P::Target)
        ensures
            target == self.target(),
            P::content_of(target) == self.content(),
    {
        P::target_ref(&self.guard)
    }
}

impl<P: Place> DerefMut for ClearOnDrop<P> {
    /// The value, for writing. What comes back is what the guard of the
    /// wrapper hands out, so that a borrowed place goes on leading to the
    /// storage that was wrapped.
    fn deref_mut(&mut self) -> (target: &mut P::Target)
        ensures
            P::content_of(&*target) == old(self).content(),
            P::content_of(&*final(target)) == final(self).content(),
            exists|guard: &mut P::Guard| #[trigger]
                call_ensures(P::target_mut, (guard,), target) && *guard == old(self).guard()
                    && *final(guard) == final(self).guard(),
    {
        P::target_mut(&mut self.guard)
    }
}

/// Trusted: `AsRef::as_ref`. Nothing is stated of what it returns.
#[verifier::external_body]
fn as_ref_of<'p, P: AsRef<T>, T: ?Sized>(place: &'p P) -> &'p T {
    place.as_ref()
}

/// Trusted: `AsMut::as_mut`. Nothing is stated of what it returns.
#[verifier::external_body]
fn as_mut_of<'p, P: AsMut<T>, T: ?Sized>(place: &'p mut P) -> &'p mut T {
    place.as_mut()
}

/// Trusted: `Borrow::borrow`. Nothing is stated of what it returns.
#[verifier::external_body]
fn borrow_of<'p, P: Borrow<T>, T: ?Sized>(place: &'p P) -> &'p T {
    place.borrow()
}

/// Trusted: `BorrowMut::borrow_mut`. Nothing is stated of what it returns.
#[verifier::external_body]
fn borrow_mut_of<'p, P: BorrowMut<T>, T: ?Sized>(place: &'p mut P) -> &'p mut T {
    place.borrow_mut()
}

/// Trusted: `Hash::hash`. Nothing is stated of what it feeds to the hasher.
#[verifier::external_body]
fn hash_of<P: Hash, H: Hasher>(place: &P, state: &mut H) {
    place.hash(state)
}

impl<P: Place + AsRef<T>, T: ?Sized> AsRef<T> for ClearOnDrop<P> {
    /// What the place converts to.
    fn as_ref(&self) -> &T {
        as_ref_of(P::place_ref(&self.guard))
    }
}

impl<P: Place + AsMut<T>, T: ?Sized> AsMut<T> for ClearOnDrop<P> {
    /// What the place converts to.
    fn as_mut(&mut self) -> &mut T {
        as_mut_of(P::place_mut(&mut self.guard))
    }
}

// The `T: Clear` bound keeps these two apart from the implementations that the
// standard library has for every type: a wrapper is never `Clear` itself.

impl<P: Place + Borrow<T>, T: ?Sized + Clear> Borrow<T> for ClearOnDrop<P> {
    /// What the place borrows as.
    fn borrow(&self) -> &T {
        borrow_of(P::place_ref(&self.guard))
    }
}

impl<P: Place + BorrowMut<T>, T: ?Sized + Clear> BorrowMut<T> for ClearOnDrop<P> {
    /// What the place borrows as.
    fn borrow_mut(&mut self) -> &mut T {
        borrow_mut_of(P::place_mut(&mut self.guard))
    }
}

impl<P: Place + Hash> Hash for ClearOnDrop<P> {
    /// Feeds the place to the hasher, so that the wrapper hashes as the place
    /// does.
    fn hash<H: Hasher>(&self, state: &mut H) {
        hash_of(P::place_ref(&self.guard), state)
    }
}

} // verus!
