//! Guards for places that lead to a slice: `&mut [T]`, `Box<[T]>` and `Vec<T>`.

use vstd::prelude::*;

use crate::clear::{zero_fill, zeros, ZeroSafe};
use crate::place::{fills, Exit, Place};

verus! {

/// A mutable borrow of a slice that is held until it is given up.
pub struct BorrowedSliceSlot<'a, T: ZeroSafe> {
    slot: Option<&'a mut [T]>,
}

impl<'a, T: ZeroSafe> BorrowedSliceSlot<'a, T> {
    /// The borrow that is held, if any.
    pub closed spec fn held(&self) -> Option<&'a mut [T]> {
        self.slot
    }

    /// Whether the borrow is still held.
    pub open spec fn armed(&self) -> bool {
        self.held() is Some
    }

    /// The borrow, for reading; `None` once it is gone.
    pub fn place_ref<'g>(&'g self) -> (place: Option<&'g &'a mut [T]>)
        ensures
            place is Some <==> self.armed(),
            place is Some ==> *place.unwrap() == self.held().unwrap(),
    {
        match &self.slot {
            Some(place) => Some(place),
            None => None,
        }
    }

    /// The borrow, for writing; `None` once it is gone. What is handed out
    /// shows the borrow that is held, and what is left behind it is what the
    /// slot holds afterwards.
    pub fn place_mut<'g>(&'g mut self) -> (place: Option<&'g mut &'a mut [T]>)
        ensures
            place is Some <==> old(self).armed(),
            final(self).armed() <==> old(self).armed(),
            place is Some ==> *place.unwrap() == old(self).held().unwrap(),
            place is Some ==> *final(place.unwrap()) == final(self).held().unwrap(),
        opens_invariants none
        no_unwind
    {
        match &mut self.slot {
            Some(place) => Some(place),
            None => None,
        }
    }

    /// The slice, for writing; `None` once the borrow is gone.
    pub fn target_mut<'g>(&'g mut self) -> (target: Option<&'g mut [T]>)
        ensures
            target is Some <==> old(self).armed(),
            final(self).armed() <==> old(self).armed(),
            target is Some ==> target.unwrap()@ == old(self).held().unwrap()@,
            target is Some ==> final(target.unwrap())@ == final(self).held().unwrap()@,
            target is Some
                ==> final(final(self).held().unwrap())@ == final(old(self).held().unwrap())@,
        opens_invariants none
        no_unwind
    {
        match &mut self.slot {
            Some(place) => Some(&mut **place),
            None => None,
        }
    }

    /// Gives up the borrow, after filling the slice with zeros if `exit` asks
    /// for it. An empty slot stays as it is and clears nothing.
    pub fn leave(&mut self, exit: Exit) -> (place: Option<&'a mut [T]>)
        ensures
            !final(self).armed(),
            place is Some <==> old(self).armed(),
            fills(old(self).armed(), exit)
                ==> place.unwrap()@ == zeros::<T>(old(self).held().unwrap()@.len()),
            place is Some && !exit.clears() ==> &*place.unwrap() == &*old(self).held().unwrap(),
            place is Some
                ==> final(place.unwrap())@ == final(old(self).held().unwrap())@,
        opens_invariants none
        no_unwind
    {
        let mut taken: Option<&'a mut [T]> = None;
        core::mem::swap(&mut self.slot, &mut taken);
        match taken {
            Some(place) => {
                if exit.is_clearing() {
                    zero_fill(place);
                }
                Some(place)
            },
            None => None,
        }
    }
}

impl<'a, T: ZeroSafe> Drop for BorrowedSliceSlot<'a, T> {
    /// Clears the slice if the borrow is still held, and does nothing if it is
    /// not.
    fn drop(&mut self)
        ensures
            !final(self).armed(),
            old(self).held() is Some
                ==> final(old(self).held().unwrap())@ == zeros::<T>(
                    old(self).held().unwrap()@.len(),
                ),
        opens_invariants none
        no_unwind
    {
        let _ = self.leave(Exit::ScopeExit);
    }
}

/// The guard of a `&mut [T]`. It always holds its place.
pub struct BorrowedSlice<'a, T: ZeroSafe> {
    inner: BorrowedSliceSlot<'a, T>,
}

impl<'a, T: ZeroSafe> BorrowedSlice<'a, T> {
    #[verifier::type_invariant]
    spec fn armed(&self) -> bool {
        self.inner.armed()
    }

    /// The place that the guard holds.
    pub closed spec fn place(&self) -> &'a mut [T] {
        self.inner.held().unwrap()
    }
}

impl<'a, T: ZeroSafe> Place for &'a mut [T] {
    type Target = [T];

    type Content = Seq<T>;

    type Guard = BorrowedSlice<'a, T>;

    open spec fn target(&self) -> &[T] {
        &**self
    }

    open spec fn content(&self) -> Seq<T> {
        self@
    }

    open spec fn content_of(target: &[T]) -> Seq<T> {
        target@
    }

    open spec fn cleared(before: Seq<T>) -> Seq<T> {
        zeros::<T>(before.len())
    }

    open spec fn held(guard: &BorrowedSlice<'a, T>) -> Self {
        guard.place()
    }

    /// The guard holds the borrow that is given: what is finally behind the one
    /// is finally behind the other.
    fn arm(self) -> (guard: BorrowedSlice<'a, T>)
        ensures
            final(self)@ == final(Self::held(&guard))@,
    {
        BorrowedSlice { inner: BorrowedSliceSlot { slot: Some(self) } }
    }

    /// The borrow that comes back is the one that was held: it leads to the
    /// storage that was wrapped.
    fn release(guard: BorrowedSlice<'a, T>, exit: Exit) -> (place: Self)
        ensures
            final(place)@ == final(Self::held(&guard))@,
    {
        proof {
            use_type_invariant(&guard);
        }
        let mut inner = guard.inner;
        match inner.leave(exit) {
            Some(place) => place,
            None => vstd::pervasive::unreached(),
        }
    }

    fn place_ref<'g>(guard: &'g BorrowedSlice<'a, T>) -> (place: &'g Self) {
        proof {
            use_type_invariant(guard);
        }
        match guard.inner.place_ref() {
            Some(place) => place,
            None => vstd::pervasive::unreached(),
        }
    }

    fn place_mut<'g>(guard: &'g mut BorrowedSlice<'a, T>) -> (place: &'g mut Self) {
        proof {
            use_type_invariant(&*guard);
        }
        match guard.inner.place_mut() {
            Some(place) => place,
            None => vstd::pervasive::unreached(),
        }
    }

    fn target_ref<'g>(guard: &'g BorrowedSlice<'a, T>) -> (target: &'g [T]) {
        proof {
            use_type_invariant(guard);
        }
        match guard.inner.place_ref() {
            Some(place) => &**place,
            None => vstd::pervasive::unreached(),
        }
    }

    /// Handing out the slice leaves the borrow that is held tied to its
    /// storage.
    fn target_mut<'g>(guard: &'g mut BorrowedSlice<'a, T>) -> (target: &'g mut [T])
        ensures
            final(Self::held(final(guard)))@ == final(Self::held(old(guard)))@,
    {
        proof {
            use_type_invariant(&*guard);
        }
        match guard.inner.target_mut() {
            Some(target) => target,
            None => vstd::pervasive::unreached(),
        }
    }
}

/// A boxed slice that is held until it is given up.
pub struct BoxedSliceSlot<T: ZeroSafe> {
    slot: Option<Box<[T]>>,
}

impl<T: ZeroSafe> BoxedSliceSlot<T> {
    /// The box that is held, if any.
    pub closed spec fn held(&self) -> Option<Box<[T]>> {
        self.slot
    }

    /// Whether the box is still held.
    pub open spec fn armed(&self) -> bool {
        self.held() is Some
    }

    /// The box, for reading; `None` once it is gone.
    pub fn place_ref<'g>(&'g self) -> (place: Option<&'g Box<[T]>>)
        ensures
            place is Some <==> self.armed(),
            place is Some ==> *place.unwrap() == self.held().unwrap(),
    {
        match &self.slot {
            Some(place) => Some(place),
            None => None,
        }
    }

    /// The box, for writing; `None` once it is gone. What is handed out
    /// shows the box that is held, and what is left behind it is what the
    /// slot holds afterwards.
    pub fn place_mut<'g>(&'g mut self) -> (place: Option<&'g mut Box<[T]>>)
        ensures
            place is Some <==> old(self).armed(),
            final(self).armed() <==> old(self).armed(),
            place is Some ==> *place.unwrap() == old(self).held().unwrap(),
            place is Some ==> *final(place.unwrap()) == final(self).held().unwrap(),
        opens_invariants none
        no_unwind
    {
        match &mut self.slot {
            Some(place) => Some(place),
            None => None,
        }
    }

    /// The slice, for writing; `None` once the box is gone.
    pub fn target_mut<'g>(&'g mut self) -> (target: Option<&'g mut [T]>)
        ensures
            target is Some <==> old(self).armed(),
            final(self).armed() <==> old(self).armed(),
            target is Some ==> target.unwrap()@ == old(self).held().unwrap()@,
            target is Some ==> final(target.unwrap())@ == final(self).held().unwrap()@,
        opens_invariants none
        no_unwind
    {
        match &mut self.slot {
            Some(place) => Some(&mut **place),
            None => None,
        }
    }

    /// Gives up the box, after filling the slice with zeros if `exit` asks for
    /// it. An empty slot stays as it is and clears nothing.
    pub fn leave(&mut self, exit: Exit) -> (place: Option<Box<[T]>>)
        ensures
            !final(self).armed(),
            place is Some <==> old(self).armed(),
            fills(old(self).armed(), exit)
                ==> place.unwrap()@ == zeros::<T>(old(self).held().unwrap()@.len()),
            place is Some && !exit.clears() ==> place == old(self).held(),
        opens_invariants none
        no_unwind
    {
        let mut taken: Option<Box<[T]>> = None;
        core::mem::swap(&mut self.slot, &mut taken);
        match taken {
            Some(place) => {
                let mut place = place;
                if exit.is_clearing() {
                    zero_fill::<T>(&mut *place);
                }
                Some(place)
            },
            None => None,
        }
    }
}

impl<T: ZeroSafe> Drop for BoxedSliceSlot<T> {
    /// Clears the slice if the box is still held, and does nothing if it is
    /// not.
    fn drop(&mut self)
        ensures
            !final(self).armed(),
        opens_invariants none
        no_unwind
    {
        let _ = self.leave(Exit::ScopeExit);
    }
}

/// The guard of a `Box<[T]>`. It always holds its place.
pub struct BoxedSlice<T: ZeroSafe> {
    inner: BoxedSliceSlot<T>,
}

impl<T: ZeroSafe> BoxedSlice<T> {
    #[verifier::type_invariant]
    spec fn armed(&self) -> bool {
        self.inner.armed()
    }

    /// The place that the guard holds.
    pub closed spec fn place(&self) -> Box<[T]> {
        self.inner.held().unwrap()
    }
}

impl<T: ZeroSafe> Place for Box<[T]> {
    type Target = [T];

    type Content = Seq<T>;

    type Guard = BoxedSlice<T>;

    open spec fn target(&self) -> &[T] {
        &**self
    }

    open spec fn content(&self) -> Seq<T> {
        self@
    }

    open spec fn content_of(target: &[T]) -> Seq<T> {
        target@
    }

    open spec fn cleared(before: Seq<T>) -> Seq<T> {
        zeros::<T>(before.len())
    }

    open spec fn held(guard: &BoxedSlice<T>) -> Self {
        guard.place()
    }

    /// The guard holds the box that is given.
    fn arm(self) -> (guard: BoxedSlice<T>)
        ensures
            Self::held(&guard) == self,
    {
        BoxedSlice { inner: BoxedSliceSlot { slot: Some(self) } }
    }

    /// A box that is not cleared comes back as it was held.
    fn release(guard: BoxedSlice<T>, exit: Exit) -> (place: Self)
        ensures
            !exit.clears() ==> place == Self::held(&guard),
    {
        proof {
            use_type_invariant(&guard);
        }
        let mut inner = guard.inner;
        match inner.leave(exit) {
            Some(place) => place,
            None => vstd::pervasive::unreached(),
        }
    }

    fn place_ref<'g>(guard: &'g BoxedSlice<T>) -> (place: &'g Self) {
        proof {
            use_type_invariant(guard);
        }
        match guard.inner.place_ref() {
            Some(place) => place,
            None => vstd::pervasive::unreached(),
        }
    }

    fn place_mut<'g>(guard: &'g mut BoxedSlice<T>) -> (place: &'g mut Self) {
        proof {
            use_type_invariant(&*guard);
        }
        match guard.inner.place_mut() {
            Some(place) => place,
            None => vstd::pervasive::unreached(),
        }
    }

    fn target_ref<'g>(guard: &'g BoxedSlice<T>) -> (target: &'g [T]) {
        proof {
            use_type_invariant(guard);
        }
        match guard.inner.place_ref() {
            Some(place) => &**place,
            None => vstd::pervasive::unreached(),
        }
    }

    fn target_mut<'g>(guard: &'g mut BoxedSlice<T>) -> (target: &'g mut [T]) {
        proof {
            use_type_invariant(&*guard);
        }
        match guard.inner.target_mut() {
            Some(target) => target,
            None => vstd::pervasive::unreached(),
        }
    }
}

/// The slice that a vector dereferences to: the slice of its elements.
pub open spec fn contents<T>(buffer: &Vec<T>) -> &[T] {
    choose|region: &[T]| region@ == buffer@
}

/// The contents of a vector are the one slice that holds the vector's elements.
pub proof fn lemma_contents<T>(buffer: &Vec<T>, region: &[T])
    requires
        region@ == buffer@,
    ensures
        contents(buffer) == region,
{
    assert(contents(buffer)@ == buffer@);
    assert(contents(buffer) =~= region);
}

/// Trusted: `Vec::as_mut_slice`, the mutable slice of the whole vector. The
/// slice shows the vector's elements, what is written to it is written to the
/// vector, and the call never unwinds.
#[verifier::external_body]
pub(crate) fn contents_mut<T>(buffer: &mut Vec<T>) -> (region: &mut [T])
    ensures
        region@ == old(buffer)@,
        final(region)@ == final(buffer)@,
    opens_invariants none
    no_unwind
{
    buffer.as_mut_slice()
}

/// A vector that is held until it is given up.
pub struct VecSlot<T: ZeroSafe> {
    slot: Option<Vec<T>>,
}

impl<T: ZeroSafe> VecSlot<T> {
    /// The vector that is held, if any.
    pub closed spec fn held(&self) -> Option<Vec<T>> {
        self.slot
    }

    /// Whether the vector is still held.
    pub open spec fn armed(&self) -> bool {
        self.held() is Some
    }

    /// The vector, for reading; `None` once it is gone.
    pub fn place_ref<'g>(&'g self) -> (place: Option<&'g Vec<T>>)
        ensures
            place is Some <==> self.armed(),
            place is Some ==> *place.unwrap() == self.held().unwrap(),
    {
        match &self.slot {
            Some(place) => Some(place),
            None => None,
        }
    }

    /// The vector, for writing; `None` once it is gone. What is handed out
    /// shows the vector that is held, and what is left behind it is what the
    /// slot holds afterwards.
    pub fn place_mut<'g>(&'g mut self) -> (place: Option<&'g mut Vec<T>>)
        ensures
            place is Some <==> old(self).armed(),
            final(self).armed() <==> old(self).armed(),
            place is Some ==> *place.unwrap() == old(self).held().unwrap(),
            place is Some ==> *final(place.unwrap()) == final(self).held().unwrap(),
        opens_invariants none
        no_unwind
    {
        match &mut self.slot {
            Some(place) => Some(place),
            None => None,
        }
    }

    /// The elements, for writing; `None` once the vector is gone.
    pub fn target_mut<'g>(&'g mut self) -> (target: Option<&'g mut [T]>)
        ensures
            target is Some <==> old(self).armed(),
            final(self).armed() <==> old(self).armed(),
            target is Some ==> target.unwrap()@ == old(self).held().unwrap()@,
            target is Some ==> final(target.unwrap())@ == final(self).held().unwrap()@,
        opens_invariants none
        no_unwind
    {
        match &mut self.slot {
            Some(place) => Some(contents_mut(place)),
            None => None,
        }
    }

    /// Gives up the vector, after filling its elements with zeros if `exit`
    /// asks for it. An empty slot stays as it is and clears nothing.
    pub fn leave(&mut self, exit: Exit) -> (place: Option<Vec<T>>)
        ensures
            !final(self).armed(),
            place is Some <==> old(self).armed(),
            fills(old(self).armed(), exit)
                ==> place.unwrap()@ == zeros::<T>(old(self).held().unwrap()@.len()),
            place is Some && !exit.clears() ==> place == old(self).held(),
        opens_invariants none
        no_unwind
    {
        let mut taken: Option<Vec<T>> = None;
        core::mem::swap(&mut self.slot, &mut taken);
        match taken {
            Some(place) => {
                let mut place = place;
                if exit.is_clearing() {
                    zero_fill(contents_mut(&mut place));
                }
                Some(place)
            },
            None => None,
        }
    }
}

impl<T: ZeroSafe> Drop for VecSlot<T> {
    /// Clears the elements if the vector is still held, and does nothing if it
    /// is not.
    fn drop(&mut self)
        ensures
            !final(self).armed(),
        opens_invariants none
        no_unwind
    {
        let _ = self.leave(Exit::ScopeExit);
    }
}

/// The guard of a `Vec<T>`. It always holds its place.
pub struct Buffer<T: ZeroSafe> {
    inner: VecSlot<T>,
}

impl<T: ZeroSafe> Buffer<T> {
    #[verifier::type_invariant]
    spec fn armed(&self) -> bool {
        self.inner.armed()
    }

    /// The place that the guard holds.
    pub closed spec fn place(&self) -> Vec<T> {
        self.inner.held().unwrap()
    }
}

impl<T: ZeroSafe> Place for Vec<T> {
    type Target = [T];

    type Content = Seq<T>;

    type Guard = Buffer<T>;

    open spec fn target(&self) -> &[T] {
        contents(self)
    }

    open spec fn content(&self) -> Seq<T> {
        self@
    }

    open spec fn content_of(target: &[T]) -> Seq<T> {
        target@
    }

    open spec fn cleared(before: Seq<T>) -> Seq<T> {
        zeros::<T>(before.len())
    }

    open spec fn held(guard: &Buffer<T>) -> Self {
        guard.place()
    }

    /// The guard holds the vector that is given.
    fn arm(self) -> (guard: Buffer<T>)
        ensures
            Self::held(&guard) == self,
    {
        Buffer { inner: VecSlot { slot: Some(self) } }
    }

    /// A vector that is not cleared comes back as it was held.
    fn release(guard: Buffer<T>, exit: Exit) -> (place: Self)
        ensures
            !exit.clears() ==> place == Self::held(&guard),
    {
        proof {
            use_type_invariant(&guard);
        }
        let mut inner = guard.inner;
        match inner.leave(exit) {
            Some(place) => place,
            None => vstd::pervasive::unreached(),
        }
    }

    fn place_ref<'g>(guard: &'g Buffer<T>) -> (place: &'g Self) {
        proof {
            use_type_invariant(guard);
        }
        match guard.inner.place_ref() {
            Some(place) => place,
            None => vstd::pervasive::unreached(),
        }
    }

    fn place_mut<'g>(guard: &'g mut Buffer<T>) -> (place: &'g mut Self) {
        proof {
            use_type_invariant(&*guard);
        }
        match guard.inner.place_mut() {
            Some(place) => place,
            None => vstd::pervasive::unreached(),
        }
    }

    fn target_ref<'g>(guard: &'g Buffer<T>) -> (target: &'g [T]) {
        proof {
            use_type_invariant(guard);
        }
        match guard.inner.place_ref() {
            Some(place) => {
                let target = place.as_slice();
                proof {
                    lemma_contents(place, target);
                }
                target
            },
            None => vstd::pervasive::unreached(),
        }
    }

    fn target_mut<'g>(guard: &'g mut Buffer<T>) -> (target: &'g mut [T]) {
        proof {
            use_type_invariant(&*guard);
        }
        match guard.inner.target_mut() {
            Some(target) => target,
            None => vstd::pervasive::unreached(),
        }
    }
}

} // verus!
