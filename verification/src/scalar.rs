//! The scalar types that are safe to set to all-bits-zero: the integers.
//!
//! Each of them says here which bytes make up a value, and proves that zero is
//! the one value whose bytes are all zero.

use vstd::prelude::*;

use crate::clear::{beyond, digits, lemma_digits_of_zero, lemma_zero_digits, pattern};
use crate::clear::{InitializableFromZeroed, ZeroSafe};

verus! {

impl InitializableFromZeroed for isize {
    const INITIAL: isize = 0;
}

impl ZeroSafe for isize {
    open spec fn bytes(&self) -> Seq<u8> {
        digits(pattern(*self as int, 2 * (isize::MAX + 1)), (isize::BITS / 8) as nat)
    }

    proof fn lemma_initial_is_zero() {
        lemma_digits_of_zero((isize::BITS / 8) as nat);
    }

    proof fn lemma_zero_is_initial(&self) {
        reveal_with_fuel(beyond, 9);
        lemma_zero_digits(pattern(*self as int, 2 * (isize::MAX + 1)), (isize::BITS / 8) as nat);
    }
}

impl InitializableFromZeroed for usize {
    const INITIAL: usize = 0;
}

impl ZeroSafe for usize {
    open spec fn bytes(&self) -> Seq<u8> {
        digits(*self as nat, (usize::BITS / 8) as nat)
    }

    proof fn lemma_initial_is_zero() {
        lemma_digits_of_zero((usize::BITS / 8) as nat);
    }

    proof fn lemma_zero_is_initial(&self) {
        reveal_with_fuel(beyond, 9);
        lemma_zero_digits(*self as nat, (usize::BITS / 8) as nat);
    }
}

impl InitializableFromZeroed for i8 {
    const INITIAL: i8 = 0;
}

impl ZeroSafe for i8 {
    open spec fn bytes(&self) -> Seq<u8> {
        digits(pattern(*self as int, 0x100), 1)
    }

    proof fn lemma_initial_is_zero() {
        lemma_digits_of_zero(1);
    }

    proof fn lemma_zero_is_initial(&self) {
        reveal_with_fuel(beyond, 2);
        lemma_zero_digits(pattern(*self as int, 0x100), 1);
    }
}

impl InitializableFromZeroed for u8 {
    const INITIAL: u8 = 0;
}

impl ZeroSafe for u8 {
    open spec fn bytes(&self) -> Seq<u8> {
        digits(*self as nat, 1)
    }

    proof fn lemma_initial_is_zero() {
        lemma_digits_of_zero(1);
    }

    proof fn lemma_zero_is_initial(&self) {
        reveal_with_fuel(beyond, 2);
        lemma_zero_digits(*self as nat, 1);
    }
}

impl InitializableFromZeroed for i16 {
    const INITIAL: i16 = 0;
}

impl ZeroSafe for i16 {
    open spec fn bytes(&self) -> Seq<u8> {
        digits(pattern(*self as int, 0x1_0000), 2)
    }

    proof fn lemma_initial_is_zero() {
        lemma_digits_of_zero(2);
    }

    proof fn lemma_zero_is_initial(&self) {
        reveal_with_fuel(beyond, 3);
        lemma_zero_digits(pattern(*self as int, 0x1_0000), 2);
    }
}

impl InitializableFromZeroed for u16 {
    const INITIAL: u16 = 0;
}

impl ZeroSafe for u16 {
    open spec fn bytes(&self) -> Seq<u8> {
        digits(*self as nat, 2)
    }

    proof fn lemma_initial_is_zero() {
        lemma_digits_of_zero(2);
    }

    proof fn lemma_zero_is_initial(&self) {
        reveal_with_fuel(beyond, 3);
        lemma_zero_digits(*self as nat, 2);
    }
}

impl InitializableFromZeroed for i32 {
    const INITIAL: i32 = 0;
}

impl ZeroSafe for i32 {
    open spec fn bytes(&self) -> Seq<u8> {
        digits(pattern(*self as int, 0x1_0000_0000), 4)
    }

    proof fn lemma_initial_is_zero() {
        lemma_digits_of_zero(4);
    }

    proof fn lemma_zero_is_initial(&self) {
        reveal_with_fuel(beyond, 5);
        lemma_zero_digits(pattern(*self as int, 0x1_0000_0000), 4);
    }
}

impl InitializableFromZeroed for u32 {
    const INITIAL: u32 = 0;
}

impl ZeroSafe for u32 {
    open spec fn bytes(&self) -> Seq<u8> {
        digits(*self as nat, 4)
    }

    proof fn lemma_initial_is_zero() {
        lemma_digits_of_zero(4);
    }

    proof fn lemma_zero_is_initial(&self) {
        reveal_with_fuel(beyond, 5);
        lemma_zero_digits(*self as nat, 4);
    }
}

impl InitializableFromZeroed for i64 {
    const INITIAL: i64 = 0;
}

impl ZeroSafe for i64 {
    open spec fn bytes(&self) -> Seq<u8> {
        digits(pattern(*self as int, 0x1_0000_0000_0000_0000), 8)
    }

    proof fn lemma_initial_is_zero() {
        lemma_digits_of_zero(8);
    }

    proof fn lemma_zero_is_initial(&self) {
        reveal_with_fuel(beyond, 9);
        lemma_zero_digits(pattern(*self as int, 0x1_0000_0000_0000_0000), 8);
    }
}

impl InitializableFromZeroed for u64 {
    const INITIAL: u64 = 0;
}

impl ZeroSafe for u64 {
    open spec fn bytes(&self) -> Seq<u8> {
        digits(*self as nat, 8)
    }

    proof fn lemma_initial_is_zero() {
        lemma_digits_of_zero(8);
    }

    proof fn lemma_zero_is_initial(&self) {
        reveal_with_fuel(beyond, 9);
        lemma_zero_digits(*self as nat, 8);
    }
}

/// The initial value of every integer type is zero.
pub proof fn lemma_initial_integers()
    ensures
        isize::INITIAL == 0,
        usize::INITIAL == 0,
        i8::INITIAL == 0,
        u8::INITIAL == 0,
        i16::INITIAL == 0,
        u16::INITIAL == 0,
        i32::INITIAL == 0,
        u32::INITIAL == 0,
        i64::INITIAL == 0,
        u64::INITIAL == 0,
{
}

} // verus!
