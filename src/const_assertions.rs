use vstd::arithmetic::power2::pow2;
use vstd::prelude::*;

verus! {

/// `n` is `2^k` for some `k`.
pub open spec fn is_power_of_two(n: nat) -> bool {
    exists|k: nat| #[trigger] pow2(k) == n
}

/// Witness that `N` is a power of two.
pub struct AssertPowerOfTwo<const N: usize>;

/// Witness that `N <= M`.
pub struct AssertLessEq<const N: usize, const M: usize>;

/// Witness that `N <= M + 1`.
pub struct AssertLessEqPlusOne<const N: usize, const M: usize>;

impl<const N: usize> AssertPowerOfTwo<N> {
    pub open spec fn holds() -> bool {
        is_power_of_two(N as nat)
    }
}

impl<const N: usize, const M: usize> AssertLessEq<N, M> {
    pub open spec fn holds() -> bool {
        N <= M
    }
}

impl<const N: usize, const M: usize> AssertLessEqPlusOne<N, M> {
    pub open spec fn holds() -> bool {
        N <= M + 1
    }
}

} // verus!
