//! Traits to completely overwrite a value, without leaking data.
//!
//! A value is cleared by writing the initial value of its type over it and then
//! hiding the place from the optimizer, so that the write cannot be removed.
//! A type names its initial value by implementing [`InitializableFromZeroed`].
//! A type whose initial value is the all-zero bit pattern may also implement
//! [`ZeroSafe`]; slices and arrays of such a type are cleared by one zero fill
//! over the whole region.
//!
//! [`Clear`] is the operation itself. It is implemented here for every type
//! that the two traits above reach, and is not meant to be implemented by hand.

use vstd::prelude::*;

use crate::barrier::hide_mem_impl;

verus! {

/// Whether every byte of `bytes` is zero.
pub open spec fn is_zero(bytes: Seq<u8>) -> bool {
    forall|i: int| 0 <= i < bytes.len() ==> bytes[i] == 0
}

/// The `width` lowest base-256 digits of `bits`, least significant first.
///
/// These are the bytes of an integer of `width` bytes whose bit pattern, read
/// as an unsigned number, is `bits`. In memory they stand in the byte order of
/// the machine; nothing that is stated of them here depends on the order.
pub open spec fn digits(bits: nat, width: nat) -> Seq<u8>
    decreases width,
{
    if width == 0 {
        Seq::empty()
    } else {
        seq![(bits % 256) as u8] + digits(bits / 256, (width - 1) as nat)
    }
}

/// What is left of `bits` above its `width` lowest base-256 digits.
pub open spec fn beyond(bits: nat, width: nat) -> nat
    decreases width,
{
    if width == 0 {
        bits
    } else {
        beyond(bits / 256, (width - 1) as nat)
    }
}

/// The bit pattern of a signed integer in two's complement, read as an
/// unsigned number; `modulus` is two to the power of the integer's width.
pub open spec fn pattern(value: int, modulus: int) -> nat {
    if value < 0 {
        (value + modulus) as nat
    } else {
        value as nat
    }
}

/// `digits` yields as many bytes as it is asked for.
pub proof fn lemma_digits_len(bits: nat, width: nat)
    ensures
        digits(bits, width).len() == width,
    decreases width,
{
    if width > 0 {
        lemma_digits_len(bits / 256, (width - 1) as nat);
    }
}

/// The number zero has only zero digits.
pub proof fn lemma_digits_of_zero(width: nat)
    ensures
        is_zero(digits(0, width)),
    decreases width,
{
    if width > 0 {
        lemma_digits_of_zero((width - 1) as nat);
        lemma_digits_len(0, (width - 1) as nat);
        let rest = digits(0, (width - 1) as nat);
        assert forall|i: int| 0 <= i < digits(0, width).len() implies digits(0, width)[i] == 0 by {
            if i > 0 {
                assert(digits(0, width)[i] == rest[i - 1]);
            }
        }
    }
}

/// A number that fits in `width` digits, all of which are zero, is zero.
pub proof fn lemma_zero_digits(bits: nat, width: nat)
    requires
        is_zero(digits(bits, width)),
        beyond(bits, width) == 0,
    ensures
        bits == 0,
    decreases width,
{
    if width > 0 {
        let rest = digits(bits / 256, (width - 1) as nat);
        lemma_digits_len(bits / 256, (width - 1) as nat);
        assert(digits(bits, width)[0] == (bits % 256) as u8);
        assert forall|i: int| 0 <= i < rest.len() implies rest[i] == 0 by {
            assert(digits(bits, width)[i + 1] == rest[i]);
        }
        lemma_zero_digits(bits / 256, (width - 1) as nat);
    }
}

/// A type that can be initialized to a valid value, after being set to
/// all-bits-zero.
///
/// The type names that value as a constant. Clearing a place of the type leaves
/// the constant in it, whatever it held before.
pub trait InitializableFromZeroed: Sized {
    /// The valid value that a cleared place of this type holds.
    const INITIAL: Self;

    /// Initializes a place to its valid value. What the place held is dropped.
    ///
    /// As it is provided, this writes `INITIAL` over the place. A type for
    /// which that write would leave bytes of the old value untouched, such as
    /// an enum whose initial variant is smaller than the others, overwrites
    /// them here first.
    fn initialize(place: &mut Self)
        ensures
            *final(place) == Self::INITIAL,
        opens_invariants none
        no_unwind
    {
        *place = Self::INITIAL;
    }
}

/// Types for which all-bits-zero is a valid value, and is the initial one.
///
/// An implementation says which bytes make up a value and proves that the bytes
/// of the initial value are all zero, and that no other value has such bytes.
/// It is an assertion about the layout of the type: implement it for plain
/// scalars, not for anything that owns or shares memory.
pub trait ZeroSafe: InitializableFromZeroed {
    /// The bytes that the value occupies.
    spec fn bytes(&self) -> Seq<u8>;

    /// The initial value consists of zero bytes only.
    proof fn lemma_initial_is_zero()
        ensures
            is_zero(Self::INITIAL.bytes()),
    ;

    /// Only the initial value consists of zero bytes only.
    proof fn lemma_zero_is_initial(&self)
        requires
            is_zero(self.bytes()),
        ensures
            *self == Self::INITIAL,
    ;
}

/// The region of `len` elements that are all the initial value of their type:
/// what a region of that length holds once it is cleared.
pub open spec fn zeros<T: InitializableFromZeroed>(len: nat) -> Seq<T> {
    Seq::new(len, |i: int| T::INITIAL)
}

/// Whether no element of `region` has a byte other than zero.
pub open spec fn is_zeroed<T: ZeroSafe>(region: Seq<T>) -> bool {
    forall|i: int| 0 <= i < region.len() ==> is_zero(#[trigger] region[i].bytes())
}

/// A region of a zero-safe type holds zero bytes only exactly if each of its
/// elements is the initial value.
pub proof fn lemma_zeros_iff_zeroed<T: ZeroSafe>(region: Seq<T>)
    ensures
        region == zeros::<T>(region.len()) <==> is_zeroed(region),
{
    T::lemma_initial_is_zero();
    if is_zeroed(region) {
        assert forall|i: int| 0 <= i < region.len() implies region[i] == T::INITIAL by {
            assert(is_zero(region[i].bytes()));
            region[i].lemma_zero_is_initial();
        }
        assert(region =~= zeros::<T>(region.len()));
    }
}

/// Trusted: `<[T]>::len`, the number of elements of a slice. The contract
/// states the length over the slice's view, and that the call never unwinds.
#[verifier::external_body]
fn region_len<T>(region: &[T]) -> (len: usize)
    ensures
        len == region@.len(),
    opens_invariants none
    no_unwind
{
    region.len()
}

/// Overwrites the place with the initial value of its type and hides the place
/// from the optimizer.
pub fn reset<T: InitializableFromZeroed>(place: &mut T)
    ensures
        *final(place) == T::INITIAL,
    opens_invariants none
    no_unwind
{
    T::initialize(place);
    hide_mem_impl::<T>(place);
}

/// Fills the whole region with zeros and hides it from the optimizer. The
/// region keeps its length, and no byte of what it held is left in it.
pub fn zero_fill<T: ZeroSafe>(region: &mut [T])
    ensures
        final(region)@ == zeros::<T>(old(region)@.len()),
        is_zeroed(final(region)@),
    opens_invariants none
    no_unwind
{
    let len: usize = region_len(region);
    let mut at: usize = 0;
    while at < len
        invariant
            at <= len,
            len == region@.len(),
            forall|i: int| 0 <= i < at ==> region@[i] == T::INITIAL,
        decreases len - at,
    {
        region[at] = T::INITIAL;
        at += 1;
    }
    hide_mem_impl::<[T]>(region);
    proof {
        assert(region@ =~= zeros::<T>(region@.len()));
        lemma_zeros_iff_zeroed(region@);
    }
}

/// An operation to completely overwrite a value, without leaking data.
///
/// Do not implement this trait; implement `InitializableFromZeroed`
/// instead.
pub trait Clear {
    /// Whether `self` is what clearing leaves in a place that held `before`.
    spec fn cleared_from(&self, before: &Self) -> bool;

    /// Completely overwrites this value.
    fn clear(&mut self)
        ensures
            final(self).cleared_from(old(self)),
    ;
}

impl<T: InitializableFromZeroed> Clear for T {
    open spec fn cleared_from(&self, before: &Self) -> bool {
        *self == T::INITIAL
    }

    fn clear(&mut self) {
        reset(self);
    }
}

impl<T: ZeroSafe> Clear for [T] {
    open spec fn cleared_from(&self, before: &Self) -> bool {
        self@ == zeros::<T>(before@.len())
    }

    fn clear(&mut self)
        ensures
            is_zeroed(final(self)@),
    {
        zero_fill(self);
    }
}

impl<T: ZeroSafe, const N: usize> Clear for [T; N] {
    open spec fn cleared_from(&self, before: &Self) -> bool {
        self@ == zeros::<T>(N as nat)
    }

    fn clear(&mut self)
        ensures
            is_zeroed(final(self)@),
    {
        zero_fill(self);
    }
}

/// The zero fill of a slice is no more than a faster way to clear each of its
/// elements: it leaves in every element what `clear` leaves in a place of the
/// element's type.
pub proof fn lemma_fill_clears_each<T: ZeroSafe>(after: &[T], before: &[T])
    requires
        after.cleared_from(before),
    ensures
        after@.len() == before@.len(),
        forall|i: int| 0 <= i < after@.len() ==> (#[trigger] after@[i]).cleared_from(&before@[i]),
{
}

/// Clearing a value of a zero-safe type leaves zero bytes only.
pub proof fn lemma_cleared_is_zero<T: ZeroSafe>(after: T, before: T)
    requires
        after.cleared_from(&before),
    ensures
        is_zero(after.bytes()),
{
    T::lemma_initial_is_zero();
}

} // verus!
