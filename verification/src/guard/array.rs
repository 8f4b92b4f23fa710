//! Guards for places that lead to an array: `&mut [T; N]` and `Box<[T; N]>`.

use vstd::prelude::*;

use crate::clear::{zero_fill, zeros, ZeroSafe};
use crate::place::{fills, Exit, Place};

verus! {

/// A mutable borrow of an array that is held until it is given up.
pub struct BorrowedArraySlot<'a, T: ZeroSafe, const N: usize> {
    slot: Option<&'a mut [T; N]>,
}

impl<'a, T: ZeroSafe, const N: usize> BorrowedArraySlot<'a, T, N> {
    /// The borrow that is held, if any.
    pub closed spec fn held(&self) -> Option<&'a mut [T; N]> {
        self.slot
    }

    /// Whether the borrow is still held.
    pub open spec fn armed(&self) -> bool {
        self.held() is Some
    }

    /// The borrow, for reading; `None` once it is gone.
    pub fn place_ref<'g>(&'g self) -> (place: Option<&'g &'a mut [T; N]>)
        ensures
            place is Some <==> self.armed(),
            place is Some ==> *place.unwrap() == self.held().unwrap(),
    {
        match &self.slot {
            Some(place) => Some(place),
            None => None,
        }
    }

    /// The borrow, for writing; `None` once it is gone. What is handed out
    /// shows the borrow that is held, and what is left behind it is what the
    /// slot holds afterwards.
    pub fn place_mut<'g>(&'g mut self) -> (place: Option<&'g mut &'a mut [T; N]>)
        ensures
            place is Some <==> old(self).armed(),
            final(self).armed() <==> old(self).armed(),
            place is Some ==> *place.unwrap() == old(self).held().unwrap(),
            place is Some ==> *final(place.unwrap()) == final(self).held().unwrap(),
        opens_invariants none
        no_unwind
    {
        match &mut self.slot {
            Some(place) => Some(place),
            None => None,
        }
    }

    /// The array, for writing; `None` once the borrow is gone.
    pub fn target_mut<'g>(&'g mut self) -> (target: Option<&'g mut [T; N]>)
        ensures
            target is Some <==> old(self).armed(),
            final(self).armed() <==> old(self).armed(),
            target is Some ==> target.unwrap()@ == old(self).held().unwrap()@,
            target is Some ==> final(target.unwrap())@ == final(self).held().unwrap()@,
            target is Some
                ==> final(final(self).held().unwrap())@ == final(old(self).held().unwrap())@,
        opens_invariants none
        no_unwind
    {
        match &mut self.slot {
            Some(place) => Some(&mut **place),
            None => None,
        }
    }

    /// Gives up the borrow, after filling the array with zeros if `exit` asks
    /// for it. An empty slot stays as it is and clears nothing.
    pub fn leave(&mut self, exit: Exit) -> (place: Option<&'a mut [T; N]>)
        ensures
            !final(self).armed(),
            place is Some <==> old(self).armed(),
            fills(old(self).armed(), exit)
                ==> place.unwrap()@ == zeros::<T>(old(self).held().unwrap()@.len()),
            place is Some && !exit.clears() ==> *place.unwrap() == *old(self).held().unwrap(),
            place is Some
                ==> final(place.unwrap())@ == final(old(self).held().unwrap())@,
        opens_invariants none
        no_unwind
    {
        let mut taken: Option<&'a mut [T; N]> = None;
        core::mem::swap(&mut self.slot, &mut taken);
        match taken {
            Some(place) => {
                if exit.is_clearing() {
                    zero_fill::<T>(&mut *place);
                }
                Some(place)
            },
            None => None,
        }
    }
}

impl<'a, T: ZeroSafe, const N: usize> Drop for BorrowedArraySlot<'a, T, N> {
    /// Clears the array if the borrow is still held, and does nothing if it is
    /// not.
    fn drop(&mut self)
        ensures
            !final(self).armed(),
            old(self).held() is Some
                ==> final(old(self).held().unwrap())@ == zeros::<T>(
                    old(self).held().unwrap()@.len(),
                ),
        opens_invariants none
        no_unwind
    {
        let _ = self.leave(Exit::ScopeExit);
    }
}

/// The guard of a `&mut [T; N]`. It always holds its place.
pub struct BorrowedArray<'a, T: ZeroSafe, const N: usize> {
    inner: BorrowedArraySlot<'a, T, N>,
}

impl<'a, T: ZeroSafe, const N: usize> BorrowedArray<'a, T, N> {
    #[verifier::type_invariant]
    spec fn armed(&self) -> bool {
        self.inner.armed()
    }

    /// The place that the guard holds.
    pub closed spec fn place(&self) -> &'a mut [T; N] {
        self.inner.held().unwrap()
    }
}

impl<'a, T: ZeroSafe, const N: usize> Place for &'a mut [T; N] {
    type Target = [T; N];

    type Content = Seq<T>;

    type Guard = BorrowedArray<'a, T, N>;

    open spec fn target(&self) -> &[T; N] {
        &**self
    }

    open spec fn content(&self) -> Seq<T> {
        self@
    }

    open spec fn content_of(target: &[T; N]) -> Seq<T> {
        target@
    }

    open spec fn cleared(before: Seq<T>) -> Seq<T> {
        zeros::<T>(before.len())
    }

    open spec fn held(guard: &BorrowedArray<'a, T, N>) -> Self {
        guard.place()
    }

    /// The guard holds the borrow that is given: what is finally behind the one
    /// is finally behind the other.
    fn arm(self) -> (guard: BorrowedArray<'a, T, N>)
        ensures
            final(self)@ == final(Self::held(&guard))@,
    {
        BorrowedArray { inner: BorrowedArraySlot { slot: Some(self) } }
    }

    /// The borrow that comes back is the one that was held: it leads to the
    /// storage that was wrapped.
    fn release(guard: BorrowedArray<'a, T, N>, exit: Exit) -> (place: Self)
        ensures
            final(place)@ == final(Self::held(&guard))@,
    {
        proof {
            use_type_invariant(&guard);
        }
        let mut inner = guard.inner;
        match inner.leave(exit) {
            Some(place) => place,
            None => vstd::pervasive::unreached(),
        }
    }

    fn place_ref<'g>(guard: &'g BorrowedArray<'a, T, N>) -> (place: &'g Self) {
        proof {
            use_type_invariant(guard);
        }
        match guard.inner.place_ref() {
            Some(place) => place,
            None => vstd::pervasive::unreached(),
        }
    }

    fn place_mut<'g>(guard: &'g mut BorrowedArray<'a, T, N>) -> (place: &'g mut Self) {
        proof {
            use_type_invariant(&*guard);
        }
        match guard.inner.place_mut() {
            Some(place) => place,
            None => vstd::pervasive::unreached(),
        }
    }

    fn target_ref<'g>(guard: &'g BorrowedArray<'a, T, N>) -> (target: &'g [T; N]) {
        proof {
            use_type_invariant(guard);
        }
        match guard.inner.place_ref() {
            Some(place) => &**place,
            None => vstd::pervasive::unreached(),
        }
    }

    /// Handing out the array leaves the borrow that is held tied to its
    /// storage.
    fn target_mut<'g>(guard: &'g mut BorrowedArray<'a, T, N>) -> (target: &'g mut [T; N])
        ensures
            final(Self::held(final(guard)))@ == final(Self::held(old(guard)))@,
    {
        proof {
            use_type_invariant(&*guard);
        }
        match guard.inner.target_mut() {
            Some(target) => target,
            None => vstd::pervasive::unreached(),
        }
    }
}

/// A boxed array that is held until it is given up.
pub struct BoxedArraySlot<T: ZeroSafe, const N: usize> {
    slot: Option<Box<[T; N]>>,
}

impl<T: ZeroSafe, const N: usize> BoxedArraySlot<T, N> {
    /// The box that is held, if any.
    pub closed spec fn held(&self) -> Option<Box<[T; N]>> {
        self.slot
    }

    /// Whether the box is still held.
    pub open spec fn armed(&self) -> bool {
        self.held() is Some
    }

    /// The box, for reading; `None` once it is gone.
    pub fn place_ref<'g>(&'g self) -> (place: Option<&'g Box<[T; N]>>)
        ensures
            place is Some <==> self.armed(),
            place is Some ==> *place.unwrap() == self.held().unwrap(),
    {
        match &self.slot {
            Some(place) => Some(place),
            None => None,
        }
    }

    /// The box, for writing; `None` once it is gone. What is handed out
    /// shows the box that is held, and what is left behind it is what the
    /// slot holds afterwards.
    pub fn place_mut<'g>(&'g mut self) -> (place: Option<&'g mut Box<[T; N]>>)
        ensures
            place is Some <==> old(self).armed(),
            final(self).armed() <==> old(self).armed(),
            place is Some ==> *place.unwrap() == old(self).held().unwrap(),
            place is Some ==> *final(place.unwrap()) == final(self).held().unwrap(),
        opens_invariants none
        no_unwind
    {
        match &mut self.slot {
            Some(place) => Some(place),
            None => None,
        }
    }

    /// The array, for writing; `None` once the box is gone.
    pub fn target_mut<'g>(&'g mut self) -> (target: Option<&'g mut [T; N]>)
        ensures
            target is Some <==> old(self).armed(),
            final(self).armed() <==> old(self).armed(),
            target is Some ==> target.unwrap()@ == old(self).held().unwrap()@,
            target is Some ==> final(target.unwrap())@ == final(self).held().unwrap()@,
        opens_invariants none
        no_unwind
    {
        match &mut self.slot {
            Some(place) => Some(&mut **place),
            None => None,
        }
    }

    /// Gives up the box, after filling the array with zeros if `exit` asks for
    /// it. An empty slot stays as it is and clears nothing.
    pub fn leave(&mut self, exit: Exit) -> (place: Option<Box<[T; N]>>)
        ensures
            !final(self).armed(),
            place is Some <==> old(self).armed(),
            fills(old(self).armed(), exit)
                ==> place.unwrap()@ == zeros::<T>(old(self).held().unwrap()@.len()),
            place is Some && !exit.clears() ==> place == old(self).held(),
        opens_invariants none
        no_unwind
    {
        let mut taken: Option<Box<[T; N]>> = None;
        core::mem::swap(&mut self.slot, &mut taken);
        match taken {
            Some(place) => {
                let mut place = place;
                if exit.is_clearing() {
                    let array: &mut [T; N] = &mut *place;
                    zero_fill::<T>(array);
                }
                Some(place)
            },
            None => None,
        }
    }
}

impl<T: ZeroSafe, const N: usize> Drop for BoxedArraySlot<T, N> {
    /// Clears the array if the box is still held, and does nothing if it is
    /// not.
    fn drop(&mut self)
        ensures
            !final(self).armed(),
        opens_invariants none
        no_unwind
    {
        let _ = self.leave(Exit::ScopeExit);
    }
}

/// The guard of a `Box<[T; N]>`. It always holds its place.
pub struct BoxedArray<T: ZeroSafe, const N: usize> {
    inner: BoxedArraySlot<T, N>,
}

impl<T: ZeroSafe, const N: usize> BoxedArray<T, N> {
    #[verifier::type_invariant]
    spec fn armed(&self) -> bool {
        self.inner.armed()
    }

    /// The place that the guard holds.
    pub closed spec fn place(&self) -> Box<[T; N]> {
        self.inner.held().unwrap()
    }
}

impl<T: ZeroSafe, const N: usize> Place for Box<[T; N]> {
    type Target = [T; N];

    type Content = Seq<T>;

    type Guard = BoxedArray<T, N>;

    open spec fn target(&self) -> &[T; N] {
        &**self
    }

    open spec fn content(&self) -> Seq<T> {
        self@
    }

    open spec fn content_of(target: &[T; N]) -> Seq<T> {
        target@
    }

    open spec fn cleared(before: Seq<T>) -> Seq<T> {
        zeros::<T>(before.len())
    }

    open spec fn held(guard: &BoxedArray<T, N>) -> Self {
        guard.place()
    }

    /// The guard holds the box that is given.
    fn arm(self) -> (guard: BoxedArray<T, N>)
        ensures
            Self::held(&guard) == self,
    {
        BoxedArray { inner: BoxedArraySlot { slot: Some(self) } }
    }

    /// A box that is not cleared comes back as it was held.
    fn release(guard: BoxedArray<T, N>, exit: Exit) -> (place: Self)
        ensures
            !exit.clears() ==> place == Self::held(&guard),
    {
        proof {
            use_type_invariant(&guard);
        }
        let mut inner = guard.inner;
        match inner.leave(exit) {
            Some(place) => place,
            None => vstd::pervasive::unreached(),
        }
    }

    fn place_ref<'g>(guard: &'g BoxedArray<T, N>) -> (place: &'g Self) {
        proof {
            use_type_invariant(guard);
        }
        match guard.inner.place_ref() {
            Some(place) => place,
            None => vstd::pervasive::unreached(),
        }
    }

    fn place_mut<'g>(guard: &'g mut BoxedArray<T, N>) -> (place: &'g mut Self) {
        proof {
            use_type_invariant(&*guard);
        }
        match guard.inner.place_mut() {
            Some(place) => place,
            None => vstd::pervasive::unreached(),
        }
    }

    fn target_ref<'g>(guard: &'g BoxedArray<T, N>) -> (target: &'g [T; N]) {
        proof {
            use_type_invariant(guard);
        }
        match guard.inner.place_ref() {
            Some(place) => &**place,
            None => vstd::pervasive::unreached(),
        }
    }

    fn target_mut<'g>(guard: &'g mut BoxedArray<T, N>) -> (target: &'g mut [T; N]) {
        proof {
            use_type_invariant(&*guard);
        }
        match guard.inner.target_mut() {
            Some(target) => target,
            None => vstd::pervasive::unreached(),
        }
    }
}

} // verus!
