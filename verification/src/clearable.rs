//! Clearing element by element, for types that are `Copy` and have a default.

use vstd::prelude::*;

use crate::barrier::hide_mem;

verus! {

/// Types that can safely be dropped after first being overwritten by their
/// default value.
///
/// There is an implementation for all `Copy + Default` types and for all
/// slices `[T]` where `T: Clearable`. `Copy` keeps containers that own memory,
/// such as `Box<T>`, from being `Clearable`.
pub trait Clearable {
    /// Whether `self` is what clearing leaves in a place that held `before`.
    spec fn cleared_from(&self, before: &Self) -> bool;

    /// Clears the value by overwriting it.
    fn clear(&mut self)
        ensures
            final(self).cleared_from(old(self)),
    ;
}

impl<T: Copy + Default> Clearable for T {
    /// The value is one that `T::default` returns.
    open spec fn cleared_from(&self, before: &Self) -> bool {
        T::default.ensures((), *self)
    }

    fn clear(&mut self) {
        *self = Default::default();
        hide_mem::<T>(self);
    }
}

impl<T: Clearable> Clearable for [T] {
    /// The slice has kept its length, and each element is what clearing leaves
    /// of the element that stood there.
    open spec fn cleared_from(&self, before: &Self) -> bool {
        &&& self@.len() == before@.len()
        &&& forall|i: int| 0 <= i < self@.len() ==> (#[trigger] self@[i]).cleared_from(&before@[i])
    }

    fn clear(&mut self) {
        let len: usize = self.len();
        let mut at: usize = 0;
        while at < len
            invariant
                at <= len,
                len == self@.len(),
                self@.len() == old(self)@.len(),
                forall|i: int| 0 <= i < at ==> (#[trigger] self@[i]).cleared_from(&old(self)@[i]),
                forall|i: int| at <= i < len ==> self@[i] == old(self)@[i],
            decreases len - at,
        {
            self[at].clear();
            at += 1;
        }
    }
}

} // verus!
