use crate::const_assertions::{is_power_of_two, AssertLessEq, AssertPowerOfTwo};
use vstd::arithmetic::div_mod::{lemma_mod_mod, lemma_small_mod};
use vstd::arithmetic::power2::{
    lemma2_to64, lemma2_to64_rest, lemma_pow2_adds, lemma_pow2_pos, lemma_pow2_strictly_increases,
    pow2,
};
use vstd::bits::{
    lemma_u16_low_bits_mask_is_mod, lemma_u32_low_bits_mask_is_mod, lemma_u64_low_bits_mask_is_mod,
    lemma_u8_low_bits_mask_is_mod, low_bits_mask,
};
use vstd::prelude::*;

verus! {

/// The exponent of a power of two that fits in a `usize`.
pub proof fn lemma_power_of_two_exponent(b: usize) -> (k: nat)
    requires
        is_power_of_two(b as nat),
    ensures
        pow2(k) == b as nat,
        k < 64,
        b > 0,
        low_bits_mask(k) == (b - 1) as nat,
{
    let k = choose|k: nat| #[trigger] pow2(k) == b as nat;
    lemma_pow2_pos(k);
    if k >= 64 {
        lemma2_to64_rest();
        if k > 64 {
            lemma_pow2_strictly_increases(64, k);
        }
    }
    k
}

/// An exponent whose power lies below `pow2(w)` is below `w`.
proof fn lemma_exponent_below(k: nat, w: nat)
    requires
        pow2(k) < pow2(w),
    ensures
        k < w,
{
    if k > w {
        lemma_pow2_strictly_increases(w, k);
    }
}

/// An unsigned machine integer that a bounded number can hold.
pub trait UnsignedWord: Copy {
    /// The integer this word stands for.
    spec fn word_value(&self) -> nat;

    /// Reduces `self` modulo `bound` by masking its low bits.
    fn mask_below(self, bound: usize) -> (r: Self)
        requires
            is_power_of_two(bound as nat),
        ensures
            r.word_value() == self.word_value() % (bound as nat),
    ;
}

impl UnsignedWord for u8 {
    open spec fn word_value(&self) -> nat {
        *self as nat
    }

    fn mask_below(self, bound: usize) -> (r: u8) {
        let ghost k = lemma_power_of_two_exponent(bound);
        if bound > 0xff {
            proof {
                lemma_small_mod(self as nat, bound as nat);
            }
            self
        } else {
            proof {
                lemma2_to64();
                lemma_exponent_below(k, 8);
                lemma_u8_low_bits_mask_is_mod(self, k);
            }
            self & ((bound - 1) as u8)
        }
    }
}

impl UnsignedWord for u16 {
    open spec fn word_value(&self) -> nat {
        *self as nat
    }

    fn mask_below(self, bound: usize) -> (r: u16) {
        let ghost k = lemma_power_of_two_exponent(bound);
        if bound > 0xffff {
            proof {
                lemma_small_mod(self as nat, bound as nat);
            }
            self
        } else {
            proof {
                lemma2_to64();
                lemma_exponent_below(k, 16);
                lemma_u16_low_bits_mask_is_mod(self, k);
            }
            self & ((bound - 1) as u16)
        }
    }
}

impl UnsignedWord for u32 {
    open spec fn word_value(&self) -> nat {
        *self as nat
    }

    fn mask_below(self, bound: usize) -> (r: u32) {
        let ghost k = lemma_power_of_two_exponent(bound);
        if bound as u64 > 0xffff_ffff {
            proof {
                lemma_small_mod(self as nat, bound as nat);
            }
            self
        } else {
            proof {
                lemma2_to64();
                lemma_exponent_below(k, 32);
                lemma_u32_low_bits_mask_is_mod(self, k);
            }
            self & ((bound - 1) as u32)
        }
    }
}

impl UnsignedWord for u64 {
    open spec fn word_value(&self) -> nat {
        *self as nat
    }

    fn mask_below(self, bound: usize) -> (r: u64) {
        proof {
            let k = lemma_power_of_two_exponent(bound);
            lemma_u64_low_bits_mask_is_mod(self, k);
        }
        self & ((bound - 1) as u64)
    }
}

impl UnsignedWord for usize {
    open spec fn word_value(&self) -> nat {
        *self as nat
    }

    fn mask_below(self, bound: usize) -> (r: usize) {
        proof {
            let k = lemma_power_of_two_exponent(bound);
            lemma_u64_low_bits_mask_is_mod(self as u64, k);
        }
        ((self as u64) & ((bound - 1) as u64)) as usize
    }
}

impl UnsignedWord for u128 {
    open spec fn word_value(&self) -> nat {
        *self as nat
    }

    fn mask_below(self, bound: usize) -> (r: u128) {
        // the bound fits in 64 bits, so the mask never reaches the high half
        let low = (self % 0x1_0000_0000_0000_0000) as u64;
        proof {
            let k = lemma_power_of_two_exponent(bound);
            lemma_u64_low_bits_mask_is_mod(low, k);
            lemma_pow2_pos(k);
            lemma_pow2_pos((64 - k) as nat);
            lemma_pow2_adds(k, (64 - k) as nat);
            lemma2_to64_rest();
            lemma_mod_mod(self as int, pow2(k) as int, pow2((64 - k) as nat) as int);
        }
        (low & ((bound - 1) as u64)) as u128
    }
}

/// A `T` that is always below `UPPER_BOUND`.
#[derive(Copy, Debug, PartialEq, Eq, PartialOrd, Ord)]
pub struct BoundedNumber<T: UnsignedWord, const UPPER_BOUND: usize>(T);

pub type BoundedU8<const UPPER_BOUND: usize> = BoundedNumber<u8, UPPER_BOUND>;

pub type BoundedU16<const UPPER_BOUND: usize> = BoundedNumber<u16, UPPER_BOUND>;

pub type BoundedU32<const UPPER_BOUND: usize> = BoundedNumber<u32, UPPER_BOUND>;

pub type BoundedU64<const UPPER_BOUND: usize> = BoundedNumber<u64, UPPER_BOUND>;

pub type BoundedU128<const UPPER_BOUND: usize> = BoundedNumber<u128, UPPER_BOUND>;

pub type BoundedUsize<const UPPER_BOUND: usize> = BoundedNumber<usize, UPPER_BOUND>;

impl<T: UnsignedWord, const UPPER_BOUND: usize> BoundedNumber<T, UPPER_BOUND> {
    /// The raw value held.
    pub closed spec fn raw(&self) -> T {
        self.0
    }

    /// The integer held.
    pub open spec fn value(&self) -> nat {
        self.raw().word_value()
    }

    #[verifier::type_invariant]
    closed spec fn below_bound(&self) -> bool {
        self.0.word_value() < UPPER_BOUND
    }

    /// Wraps `value`, which the caller has shown to be below the bound.
    pub fn new_unchecked(value: T) -> (r: Self)
        requires
            value.word_value() < UPPER_BOUND,
        ensures
            r.raw() == value,
    {
        BoundedNumber(value)
    }

    /// Reduces `value` modulo the bound, which must be a power of two.
    pub fn wrapping_masked(value: T) -> (r: Self)
        requires
            AssertPowerOfTwo::<UPPER_BOUND>::holds(),
        ensures
            r.value() == value.word_value() % (UPPER_BOUND as nat),
    {
        let masked = value.mask_below(UPPER_BOUND);
        proof {
            lemma_power_of_two_exponent(UPPER_BOUND);
            vstd::arithmetic::div_mod::lemma_mod_bound(value.word_value() as int, UPPER_BOUND as int);
        }
        BoundedNumber(masked)
    }

    /// The same value under a bound at least as large.
    pub fn into_relaxed<const NEW_UPPER_BOUND: usize>(self) -> (r: BoundedNumber<T, NEW_UPPER_BOUND>)
        requires
            AssertLessEq::<UPPER_BOUND, NEW_UPPER_BOUND>::holds(),
        ensures
            r.raw() == self.raw(),
    {
        proof {
            use_type_invariant(&self);
        }
        BoundedNumber(self.0)
    }

    /// The raw value held.
    pub fn into_inner(self) -> (r: T)
        ensures
            r == self.raw(),
            r.word_value() < UPPER_BOUND,
    {
        proof {
            use_type_invariant(&self);
        }
        self.0
    }
}

impl<T: UnsignedWord, const UPPER_BOUND: usize> Clone for BoundedNumber<T, UPPER_BOUND> {
    fn clone(&self) -> (r: Self)
        ensures
            r == *self,
    {
        proof {
            use_type_invariant(self);
        }
        BoundedNumber(self.0)
    }
}

/// Widening does not change the number: unwrapping after `into_relaxed`
/// gives what unwrapping gave before.
pub proof fn lemma_relaxed_inner_unchanged<T: UnsignedWord, const UPPER_BOUND: usize, const NEW_UPPER_BOUND: usize>(
    x: BoundedNumber<T, UPPER_BOUND>,
    widened: BoundedNumber<T, NEW_UPPER_BOUND>,
    inner_before: T,
    inner_after: T,
)
    requires
        AssertLessEq::<UPPER_BOUND, NEW_UPPER_BOUND>::holds(),
        call_ensures(BoundedNumber::<T, UPPER_BOUND>::into_relaxed::<NEW_UPPER_BOUND>, (x,), widened),
        call_ensures(BoundedNumber::<T, UPPER_BOUND>::into_inner, (x,), inner_before),
        call_ensures(BoundedNumber::<T, NEW_UPPER_BOUND>::into_inner, (widened,), inner_after),
    ensures
        inner_after == inner_before,
{
}

} // verus!
