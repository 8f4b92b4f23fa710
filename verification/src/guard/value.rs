//! Guards for places that lead to a single value: `&mut T` and `Box<T>`.

use vstd::prelude::*;

use crate::clear::{reset, InitializableFromZeroed};
use crate::place::{fills, Exit, Place};

verus! {

/// A mutable borrow of a value that is held until it is given up.
pub struct BorrowedSlot<'a, T: InitializableFromZeroed> {
    slot: Option<&'a mut T>,
}

impl<'a, T: InitializableFromZeroed> BorrowedSlot<'a, T> {
    /// The borrow that is held, if any.
    pub closed spec fn held(&self) -> Option<&'a mut T> {
        self.slot
    }

    /// Whether the borrow is still held.
    pub open spec fn armed(&self) -> bool {
        self.held() is Some
    }

    /// The borrow, for reading; `None` once it is gone.
    pub fn place_ref<'g>(&'g self) -> (place: Option<&'g &'a mut T>)
        ensures
            place is Some <==> self.armed(),
            place is Some ==> *place.unwrap() == self.held().unwrap(),
    {
        match &self.slot {
            Some(place) => Some(place),
            None => None,
        }
    }

    /// The borrow, for writing; `None` once it is gone. What is handed out
    /// shows the borrow that is held, and what is left behind it is what the
    /// slot holds afterwards.
    pub fn place_mut<'g>(&'g mut self) -> (place: Option<&'g mut &'a mut T>)
        ensures
            place is Some <==> old(self).armed(),
            final(self).armed() <==> old(self).armed(),
            place is Some ==> *place.unwrap() == old(self).held().unwrap(),
            place is Some ==> *final(place.unwrap()) == final(self).held().unwrap(),
        opens_invariants none
        no_unwind
    {
        match &mut self.slot {
            Some(place) => Some(place),
            None => None,
        }
    }

    /// The value, for writing; `None` once the borrow is gone.
    pub fn target_mut<'g>(&'g mut self) -> (target: Option<&'g mut T>)
        ensures
            target is Some <==> old(self).armed(),
            final(self).armed() <==> old(self).armed(),
            target is Some ==> *target.unwrap() == *old(self).held().unwrap(),
            target is Some ==> *final(target.unwrap()) == *final(self).held().unwrap(),
            target is Some
                ==> *final(final(self).held().unwrap()) == *final(old(self).held().unwrap()),
        opens_invariants none
        no_unwind
    {
        match &mut self.slot {
            Some(place) => Some(&mut **place),
            None => None,
        }
    }

    /// Gives up the borrow, after clearing the value if `exit` asks for it. An
    /// empty slot stays as it is and clears nothing.
    pub fn leave(&mut self, exit: Exit) -> (place: Option<&'a mut T>)
        ensures
            !final(self).armed(),
            place is Some <==> old(self).armed(),
            fills(old(self).armed(), exit)
                ==> *place.unwrap() == T::INITIAL,
            place is Some && !exit.clears() ==> *place.unwrap() == *old(self).held().unwrap(),
            place is Some
                ==> *final(place.unwrap()) == *final(old(self).held().unwrap()),
        opens_invariants none
        no_unwind
    {
        let mut taken: Option<&'a mut T> = None;
        core::mem::swap(&mut self.slot, &mut taken);
        match taken {
            Some(place) => {
                if exit.is_clearing() {
                    reset(place);
                }
                Some(place)
            },
            None => None,
        }
    }
}

impl<'a, T: InitializableFromZeroed> Drop for BorrowedSlot<'a, T> {
    /// Clears the value if the borrow is still held, and does nothing if it is
    /// not.
    fn drop(&mut self)
        ensures
            !final(self).armed(),
            old(self).held() is Some
                ==> *final(old(self).held().unwrap()) == T::INITIAL,
        opens_invariants none
        no_unwind
    {
        let _ = self.leave(Exit::ScopeExit);
    }
}

/// The guard of a `&mut T`. It always holds its place.
pub struct Borrowed<'a, T: InitializableFromZeroed> {
    inner: BorrowedSlot<'a, T>,
}

impl<'a, T: InitializableFromZeroed> Borrowed<'a, T> {
    #[verifier::type_invariant]
    spec fn armed(&self) -> bool {
        self.inner.armed()
    }

    /// The place that the guard holds.
    pub closed spec fn place(&self) -> &'a mut T {
        self.inner.held().unwrap()
    }
}

impl<'a, T: InitializableFromZeroed> Place for &'a mut T {
    type Target = T;

    type Content = T;

    type Guard = Borrowed<'a, T>;

    open spec fn target(&self) -> &T {
        &**self
    }

    open spec fn content(&self) -> T {
        **self
    }

    open spec fn content_of(target: &T) -> T {
        *target
    }

    open spec fn cleared(before: T) -> T {
        T::INITIAL
    }

    open spec fn held(guard: &Borrowed<'a, T>) -> Self {
        guard.place()
    }

    /// The guard holds the borrow that is given: what is finally behind the one
    /// is finally behind the other.
    fn arm(self) -> (guard: Borrowed<'a, T>)
        ensures
            *final(self) == *final(Self::held(&guard)),
    {
        Borrowed { inner: BorrowedSlot { slot: Some(self) } }
    }

    /// The borrow that comes back is the one that was held: it leads to the
    /// storage that was wrapped.
    fn release(guard: Borrowed<'a, T>, exit: Exit) -> (place: Self)
        ensures
            *final(place) == *final(Self::held(&guard)),
    {
        proof {
            use_type_invariant(&guard);
        }
        let mut inner = guard.inner;
        match inner.leave(exit) {
            Some(place) => place,
            None => vstd::pervasive::unreached(),
        }
    }

    fn place_ref<'g>(guard: &'g Borrowed<'a, T>) -> (place: &'g Self) {
        proof {
            use_type_invariant(guard);
        }
        match guard.inner.place_ref() {
            Some(place) => place,
            None => vstd::pervasive::unreached(),
        }
    }

    fn place_mut<'g>(guard: &'g mut Borrowed<'a, T>) -> (place: &'g mut Self) {
        proof {
            use_type_invariant(&*guard);
        }
        match guard.inner.place_mut() {
            Some(place) => place,
            None => vstd::pervasive::unreached(),
        }
    }

    fn target_ref<'g>(guard: &'g Borrowed<'a, T>) -> (target: &'g T) {
        proof {
            use_type_invariant(guard);
        }
        match guard.inner.place_ref() {
            Some(place) => &**place,
            None => vstd::pervasive::unreached(),
        }
    }

    /// Handing out the value leaves the borrow that is held tied to its
    /// storage.
    fn target_mut<'g>(guard: &'g mut Borrowed<'a, T>) -> (target: &'g mut T)
        ensures
            *final(Self::held(final(guard))) == *final(Self::held(old(guard))),
    {
        proof {
            use_type_invariant(&*guard);
        }
        match guard.inner.target_mut() {
            Some(target) => target,
            None => vstd::pervasive::unreached(),
        }
    }
}

/// A boxed value that is held until it is given up.
pub struct BoxedSlot<T: InitializableFromZeroed> {
    slot: Option<Box<T>>,
}

impl<T: InitializableFromZeroed> BoxedSlot<T> {
    /// The box that is held, if any.
    pub closed spec fn held(&self) -> Option<Box<T>> {
        self.slot
    }

    /// Whether the box is still held.
    pub open spec fn armed(&self) -> bool {
        self.held() is Some
    }

    /// The box, for reading; `None` once it is gone.
    pub fn place_ref<'g>(&'g self) -> (place: Option<&'g Box<T>>)
        ensures
            place is Some <==> self.armed(),
            place is Some ==> *place.unwrap() == self.held().unwrap(),
    {
        match &self.slot {
            Some(place) => Some(place),
            None => None,
        }
    }

    /// The box, for writing; `None` once it is gone. What is handed out
    /// shows the box that is held, and what is left behind it is what the
    /// slot holds afterwards.
    pub fn place_mut<'g>(&'g mut self) -> (place: Option<&'g mut Box<T>>)
        ensures
            place is Some <==> old(self).armed(),
            final(self).armed() <==> old(self).armed(),
            place is Some ==> *place.unwrap() == old(self).held().unwrap(),
            place is Some ==> *final(place.unwrap()) == final(self).held().unwrap(),
        opens_invariants none
        no_unwind
    {
        match &mut self.slot {
            Some(place) => Some(place),
            None => None,
        }
    }

    /// The value, for writing; `None` once the box is gone.
    pub fn target_mut<'g>(&'g mut self) -> (target: Option<&'g mut T>)
        ensures
            target is Some <==> old(self).armed(),
            final(self).armed() <==> old(self).armed(),
            target is Some ==> *target.unwrap() == *old(self).held().unwrap(),
            target is Some ==> *final(target.unwrap()) == *final(self).held().unwrap(),
        opens_invariants none
        no_unwind
    {
        match &mut self.slot {
            Some(place) => Some(&mut **place),
            None => None,
        }
    }

    /// Gives up the box, after clearing the value if `exit` asks for it. An
    /// empty slot stays as it is and clears nothing.
    pub fn leave(&mut self, exit: Exit) -> (place: Option<Box<T>>)
        ensures
            !final(self).armed(),
            place is Some <==> old(self).armed(),
            fills(old(self).armed(), exit)
                ==> *place.unwrap() == T::INITIAL,
            place is Some && !exit.clears() ==> place == old(self).held(),
        opens_invariants none
        no_unwind
    {
        let mut taken: Option<Box<T>> = None;
        core::mem::swap(&mut self.slot, &mut taken);
        match taken {
            Some(place) => {
                let mut place = place;
                if exit.is_clearing() {
                    reset::<T>(&mut *place);
                }
                Some(place)
            },
            None => None,
        }
    }
}

impl<T: InitializableFromZeroed> Drop for BoxedSlot<T> {
    /// Clears the value if the box is still held, and does nothing if it is
    /// not.
    fn drop(&mut self)
        ensures
            !final(self).armed(),
        opens_invariants none
        no_unwind
    {
        let _ = self.leave(Exit::ScopeExit);
    }
}

/// The guard of a `Box<T>`. It always holds its place.
pub struct Boxed<T: InitializableFromZeroed> {
    inner: BoxedSlot<T>,
}

impl<T: InitializableFromZeroed> Boxed<T> {
    #[verifier::type_invariant]
    spec fn armed(&self) -> bool {
        self.inner.armed()
    }

    /// The place that the guard holds.
    pub closed spec fn place(&self) -> Box<T> {
        self.inner.held().unwrap()
    }
}

impl<T: InitializableFromZeroed> Place for Box<T> {
    type Target = T;

    type Content = T;

    type Guard = Boxed<T>;

    open spec fn target(&self) -> &T {
        &**self
    }

    open spec fn content(&self) -> T {
        **self
    }

    open spec fn content_of(target: &T) -> T {
        *target
    }

    open spec fn cleared(before: T) -> T {
        T::INITIAL
    }

    open spec fn held(guard: &Boxed<T>) -> Self {
        guard.place()
    }

    /// The guard holds the box that is given.
    fn arm(self) -> (guard: Boxed<T>)
        ensures
            Self::held(&guard) == self,
    {
        Boxed { inner: BoxedSlot { slot: Some(self) } }
    }

    /// A box that is not cleared comes back as it was held.
    fn release(guard: Boxed<T>, exit: Exit) -> (place: Self)
        ensures
            !exit.clears() ==> place == Self::held(&guard),
    {
        proof {
            use_type_invariant(&guard);
        }
        let mut inner = guard.inner;
        match inner.leave(exit) {
            Some(place) => place,
            None => vstd::pervasive::unreached(),
        }
    }

    fn place_ref<'g>(guard: &'g Boxed<T>) -> (place: &'g Self) {
        proof {
            use_type_invariant(guard);
        }
        match guard.inner.place_ref() {
            Some(place) => place,
            None => vstd::pervasive::unreached(),
        }
    }

    fn place_mut<'g>(guard: &'g mut Boxed<T>) -> (place: &'g mut Self) {
        proof {
            use_type_invariant(&*guard);
        }
        match guard.inner.place_mut() {
            Some(place) => place,
            None => vstd::pervasive::unreached(),
        }
    }

    fn target_ref<'g>(guard: &'g Boxed<T>) -> (target: &'g T) {
        proof {
            use_type_invariant(guard);
        }
        match guard.inner.place_ref() {
            Some(place) => &**place,
            None => vstd::pervasive::unreached(),
        }
    }

    fn target_mut<'g>(guard: &'g mut Boxed<T>) -> (target: &'g mut T) {
        proof {
            use_type_invariant(&*guard);
        }
        match guard.inner.target_mut() {
            Some(target) => target,
            None => vstd::pervasive::unreached(),
        }
    }
}

} // verus!
