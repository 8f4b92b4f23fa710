//! Comparisons of wrappers, which compare the wrapped values.
//!
//! Two wrappers compare as the values do that their places lead to, whatever
//! kinds of places they are. What a comparison returns is stated over the
//! specifications that the values' own comparisons have.

use core::cmp::Ordering;

use vstd::prelude::*;
use vstd::std_specs::cmp::{OrdSpec, PartialEqSpec, PartialEqSpecImpl};
use vstd::std_specs::cmp::{PartialOrdSpec, PartialOrdSpecImpl};

use crate::clear_on_drop::ClearOnDrop;
use crate::place::Place;

verus! {

impl<P: Place, Q: Place> PartialEq<ClearOnDrop<Q>> for ClearOnDrop<P> where
    P::Target: PartialEq<Q::Target>,
 {
    /// Whether the wrapped values are equal.
    fn eq(&self, other: &ClearOnDrop<Q>) -> (equal: bool)
        ensures
            call_ensures(<P::Target>::eq, (self.target(), other.target()), equal),
    {
        PartialEq::eq(&**self, &**other)
    }

    /// Whether the wrapped values are unequal.
    fn ne(&self, other: &ClearOnDrop<Q>) -> (unequal: bool)
        ensures
            call_ensures(<P::Target>::ne, (self.target(), other.target()), unequal),
    {
        PartialEq::ne(&**self, &**other)
    }
}

impl<P: Place, Q: Place> PartialEqSpecImpl<ClearOnDrop<Q>> for ClearOnDrop<P> where
    P::Target: PartialEq<Q::Target>,
 {
    /// Equality of wrappers is specified where equality of the values is.
    open spec fn obeys_eq_spec() -> bool {
        <P::Target>::obeys_eq_spec()
    }

    /// Two wrappers are equal if the wrapped values are.
    open spec fn eq_spec(&self, other: &ClearOnDrop<Q>) -> bool {
        self.target().eq_spec(other.target())
    }
}

impl<P: Place, Q: Place> PartialOrd<ClearOnDrop<Q>> for ClearOnDrop<P> where
    P::Target: PartialOrd<Q::Target>,
 {
    /// The order of the wrapped values, where they have one.
    fn partial_cmp(&self, other: &ClearOnDrop<Q>) -> (order: Option<Ordering>)
        ensures
            call_ensures(<P::Target>::partial_cmp, (self.target(), other.target()), order),
    {
        PartialOrd::partial_cmp(&**self, &**other)
    }

    /// Whether the wrapped value is less than that of `other`.
    fn lt(&self, other: &ClearOnDrop<Q>) -> (less: bool)
        ensures
            call_ensures(<P::Target>::lt, (self.target(), other.target()), less),
    {
        PartialOrd::lt(&**self, &**other)
    }

    /// Whether the wrapped value is at most that of `other`.
    fn le(&self, other: &ClearOnDrop<Q>) -> (less: bool)
        ensures
            call_ensures(<P::Target>::le, (self.target(), other.target()), less),
    {
        PartialOrd::le(&**self, &**other)
    }

    /// Whether the wrapped value is greater than that of `other`.
    fn gt(&self, other: &ClearOnDrop<Q>) -> (greater: bool)
        ensures
            call_ensures(<P::Target>::gt, (self.target(), other.target()), greater),
    {
        PartialOrd::gt(&**self, &**other)
    }

    /// Whether the wrapped value is at least that of `other`.
    fn ge(&self, other: &ClearOnDrop<Q>) -> (greater: bool)
        ensures
            call_ensures(<P::Target>::ge, (self.target(), other.target()), greater),
    {
        PartialOrd::ge(&**self, &**other)
    }
}

impl<P: Place, Q: Place> PartialOrdSpecImpl<ClearOnDrop<Q>> for ClearOnDrop<P> where
    P::Target: PartialOrd<Q::Target>,
 {
    /// The order of wrappers is specified where the order of the values is.
    open spec fn obeys_partial_cmp_spec() -> bool {
        <P::Target>::obeys_partial_cmp_spec()
    }

    /// Two wrappers are ordered as the wrapped values are.
    open spec fn partial_cmp_spec(&self, other: &ClearOnDrop<Q>) -> Option<Ordering> {
        self.target().partial_cmp_spec(other.target())
    }
}

impl<P: Place> Eq for ClearOnDrop<P> where P::Target: Eq {
}

impl<P: Place> ClearOnDrop<P> {
    /// Compares the wrapped values in their total order.
    pub fn cmp(&self, other: &Self) -> (order: Ordering) where P::Target: Ord
        ensures
            call_ensures(<P::Target>::cmp, (self.target(), other.target()), order),
            <P::Target>::obeys_cmp_spec() ==> order == self.target().cmp_spec(other.target()),
    {
        Ord::cmp(&**self, &**other)
    }
}

} // verus!
