//! Places: the handles through which a value is reached and cleared.
//!
//! A place is either a mutable borrow of a value that lives elsewhere, or a
//! container that owns the value together with its storage. A place is held in
//! a guard. The guard clears the value when it is dropped, unless the place has
//! been taken out of it before. Taking the place out leaves the guard empty, and
//! an empty guard clears nothing: whatever way a guard goes, its value is
//! cleared at most once.

use vstd::prelude::*;

verus! {

/// The ways in which a guard gives up its place.
#[derive(Clone, Copy, Debug)]
pub enum Exit {
    /// The guard is dropped: the value is cleared and the place is released.
    ScopeExit,
    /// The value is cleared and the place is handed back.
    IntoPlace,
    /// The place is handed back as it is.
    IntoUnclearedPlace,
}

impl Exit {
    /// Whether a guard that gives up its place in this way clears the value.
    pub open spec fn clears(self) -> bool {
        !(self is IntoUnclearedPlace)
    }

    /// Whether a guard that gives up its place in this way clears the value.
    pub fn is_clearing(self) -> (clearing: bool)
        ensures
            clearing == self.clears(),
        opens_invariants none
        no_unwind
    {
        match self {
            Exit::ScopeExit => true,
            Exit::IntoPlace => true,
            Exit::IntoUnclearedPlace => false,
        }
    }
}

/// Whether a guard clears its value when it gives up its place by `exit`:
/// it does if it holds a place and the exit is a clearing one.
pub open spec fn fills(armed: bool, exit: Exit) -> bool {
    armed && exit.clears()
}

/// The number of times a guard clears its value while it goes through `exits`
/// one after the other. `armed` says whether the guard holds its place before
/// the first of them; after any of them it holds none.
pub open spec fn clearings(armed: bool, exits: Seq<Exit>) -> nat
    decreases exits.len(),
{
    if exits.len() == 0 {
        0
    } else if fills(armed, exits[0]) {
        1 + clearings(false, exits.drop_first())
    } else {
        clearings(false, exits.drop_first())
    }
}

/// A guard that holds no place clears nothing, however it goes.
pub proof fn lemma_empty_guard_clears_nothing(exits: Seq<Exit>)
    ensures
        clearings(false, exits) == 0,
    decreases exits.len(),
{
    if exits.len() > 0 {
        lemma_empty_guard_clears_nothing(exits.drop_first());
    }
}

/// Exactly-once clearing. Over any sequence of scope exits and consumptions a
/// guard clears its value at most once. It clears it exactly once if it holds
/// its place and the first exit is a clearing one, and never otherwise.
pub proof fn lemma_clears_at_most_once(armed: bool, exits: Seq<Exit>)
    ensures
        clearings(armed, exits) <= 1,
        clearings(armed, exits) == 1 <==> exits.len() > 0 && fills(armed, exits[0]),
{
    if exits.len() > 0 {
        lemma_empty_guard_clears_nothing(exits.drop_first());
    }
}

/// A handle to one value that can be cleared: a mutable borrow of the value,
/// or a container that owns it.
///
/// Only the first level of dereference is cleared: what the value itself
/// points to is not. The places are those that this library has a guard for.
///
/// The contracts below speak of what a place holds at the time. Each kind of
/// place adds to them what ties the place to its storage: a borrow that is
/// armed, written through or released goes on leading to the storage that it
/// was borrowed from, and a container comes back as the container it was.
pub trait Place: Sized {
    /// The value that the place leads to.
    type Target: ?Sized;

    /// What a value holds, as contracts see it: the value itself, or the
    /// sequence of its elements.
    type Content;

    /// The guard that holds a place of this kind.
    type Guard;

    /// The value that the place leads to.
    spec fn target(&self) -> &Self::Target;

    /// What the value holds that the place leads to.
    spec fn content(&self) -> Self::Content;

    /// What `target` holds.
    spec fn content_of(target: &Self::Target) -> Self::Content;

    /// What a value holds once it is cleared, if it held `before`.
    spec fn cleared(before: Self::Content) -> Self::Content;

    /// The place that `guard` holds.
    spec fn held(guard: &Self::Guard) -> Self;

    /// Puts the place into a guard, which from now on answers for its clearing.
    fn arm(self) -> (guard: Self::Guard)
        ensures
            Self::held(&guard).content() == self.content(),
            Self::held(&guard).target() == self.target(),
    ;

    /// Takes the place out of its guard. The value is cleared before, unless
    /// `exit` says otherwise; the guard that is left holds no place and is
    /// dropped without effect.
    fn release(guard: Self::Guard, exit: Exit) -> (place: Self)
        ensures
            exit.clears() ==> place.content() == Self::cleared(Self::held(&guard).content()),
            !exit.clears() ==> place.content() == Self::held(&guard).content(),
            !exit.clears() ==> place.target() == Self::held(&guard).target(),
    ;

    /// The place, for reading.
    fn place_ref<'g>(guard: &'g Self::Guard) -> (place: &'g Self)
        ensures
            *place == Self::held(guard),
    ;

    /// The place, for writing. What is handed out shows the place that the
    /// guard holds, and what is left behind it is what the guard holds
    /// afterwards.
    fn place_mut<'g>(guard: &'g mut Self::Guard) -> (place: &'g mut Self)
        ensures
            *place == Self::held(old(guard)),
            *final(place) == Self::held(final(guard)),
    ;

    /// The value, for reading.
    fn target_ref<'g>(guard: &'g Self::Guard) -> (target: &'g Self::Target)
        ensures
            target == Self::held(guard).target(),
            Self::content_of(target) == Self::held(guard).content(),
    ;

    /// The value, for writing.
    fn target_mut<'g>(guard: &'g mut Self::Guard) -> (target: &'g mut Self::Target)
        ensures
            Self::content_of(&*target) == Self::held(old(guard)).content(),
            Self::content_of(&*final(target)) == Self::held(final(guard)).content(),
    ;
}

} // verus!
