//! Numeric element abstraction for the grid types.
//!
//! Grids are generic over the scalar they store.  The `Numeric` trait
//! captures the arithmetic the elementwise grid operators need (add,
//! subtract, multiply, divide, and a zero value); every operation is
//! total, and each executable operation is pinned to a spec-level twin
//! so that grid contracts can state results exactly.

use vstd::prelude::*;

verus! {

/// The arithmetic a grid element must support.
///
/// Each executable operation returns exactly its spec-level twin, so a
/// caller's contract can name the result of every elementwise update.
/// All operations are total: an implementation chooses its own meaning
/// for edge cases (for example division by zero) rather than panicking.
///
/// The `u64` implementation below is verified.  An implementation in
/// another crate is not: the grid and solver contracts then describe
/// their results relative to whatever that implementation's
/// operations actually compute.
pub trait Numeric: Sized + Copy {
    /// The value freshly allocated grids hold.
    spec fn zero_spec() -> Self;

    spec fn add_spec(self, rhs: Self) -> Self;

    spec fn sub_spec(self, rhs: Self) -> Self;

    spec fn mul_spec(self, rhs: Self) -> Self;

    spec fn div_spec(self, rhs: Self) -> Self;

    fn zero() -> (r: Self)
        ensures
            r == Self::zero_spec(),
    ;

    fn add(self, rhs: Self) -> (r: Self)
        ensures
            r == self.add_spec(rhs),
    ;

    fn sub(self, rhs: Self) -> (r: Self)
        ensures
            r == self.sub_spec(rhs),
    ;

    fn mul(self, rhs: Self) -> (r: Self)
        ensures
            r == self.mul_spec(rhs),
    ;

    fn div(self, rhs: Self) -> (r: Self)
        ensures
            r == self.div_spec(rhs),
    ;
}

/// The extra scalar operations the relaxation solver needs beyond
/// elementwise arithmetic: ordering, a square root, and conversion
/// from cell counts.
pub trait SolverNumeric: Numeric {
    /// The scalar standing for the count `n`.
    spec fn from_usize_spec(n: usize) -> Self;

    spec fn sqrt_spec(self) -> Self;

    spec fn lt_spec(self, rhs: Self) -> bool;

    fn from_usize(n: usize) -> (r: Self)
        ensures
            r == Self::from_usize_spec(n),
    ;

    fn sqrt(self) -> (r: Self)
        ensures
            r == self.sqrt_spec(),
    ;

    fn lt(self, rhs: Self) -> (r: bool)
        ensures
            r == self.lt_spec(rhs),
    ;
}

/// The integer square root: the largest `r` with `r * r <= n`.
pub open spec fn isqrt_rec(n: nat) -> nat
    decreases n,
{
    if n == 0 {
        0
    } else {
        let r = isqrt_rec((n - 1) as nat);
        if (r + 1) * (r + 1) <= n {
            r + 1
        } else {
            r
        }
    }
}

/// `isqrt_rec(n)` brackets `n` between consecutive squares.
pub proof fn lemma_isqrt_bracket(n: nat)
    ensures
        isqrt_rec(n) * isqrt_rec(n) <= n,
        n < (isqrt_rec(n) + 1) * (isqrt_rec(n) + 1),
    decreases n,
{
    if n == 0 {
        assert(isqrt_rec(0) == 0);
        assert((isqrt_rec(n) + 1) * (isqrt_rec(n) + 1) == 1) by (nonlinear_arith)
            requires
                isqrt_rec(n) == 0,
        {
        }
    } else {
        lemma_isqrt_bracket((n - 1) as nat);
        let r = isqrt_rec((n - 1) as nat);
        if (r + 1) * (r + 1) <= n {
            assert(isqrt_rec(n) == r + 1);
            assert(n - 1 < (r + 1) * (r + 1));
            assert(n < (r + 2) * (r + 2)) by (nonlinear_arith)
                requires
                    n <= (r + 1) * (r + 1),
            {
            }
            assert(n < (isqrt_rec(n) + 1) * (isqrt_rec(n) + 1)) by (nonlinear_arith)
                requires
                    isqrt_rec(n) == r + 1,
                    n < (r + 2) * (r + 2),
            {
            }
        } else {
            assert(isqrt_rec(n) == r);
            assert(n < (isqrt_rec(n) + 1) * (isqrt_rec(n) + 1)) by (nonlinear_arith)
                requires
                    isqrt_rec(n) == r,
                    n < (r + 1) * (r + 1),
            {
            }
        }
    }
}

/// Any value bracketed between consecutive squares is the integer
/// square root.
pub proof fn lemma_isqrt_unique(n: nat, r: nat)
    requires
        r * r <= n,
        n < (r + 1) * (r + 1),
    ensures
        isqrt_rec(n) == r,
{
    lemma_isqrt_bracket(n);
    let s = isqrt_rec(n);
    assert(s == r) by (nonlinear_arith)
        requires
            r * r <= n,
            n < (r + 1) * (r + 1),
            s * s <= n,
            n < (s + 1) * (s + 1),
            0 <= r,
            0 <= s,
    {
    }
}

/// `u64` elements use wrapping arithmetic, and division by zero yields
/// zero, so that every operation is total.
impl Numeric for u64 {
    open spec fn zero_spec() -> u64 {
        0u64
    }

    open spec fn add_spec(self, rhs: u64) -> u64 {
        vstd::wrapping::u64_specs::wrapping_add(self, rhs)
    }

    open spec fn sub_spec(self, rhs: u64) -> u64 {
        vstd::wrapping::u64_specs::wrapping_sub(self, rhs)
    }

    open spec fn mul_spec(self, rhs: u64) -> u64 {
        vstd::wrapping::u64_specs::wrapping_mul(self, rhs)
    }

    open spec fn div_spec(self, rhs: u64) -> u64 {
        if rhs == 0 {
            0u64
        } else {
            self / rhs
        }
    }

    fn zero() -> (r: u64)
        ensures
            r == Self::zero_spec(),
    {
        0u64
    }

    fn add(self, rhs: u64) -> (r: u64)
        ensures
            r == self.add_spec(rhs),
    {
        self.wrapping_add(rhs)
    }

    fn sub(self, rhs: u64) -> (r: u64)
        ensures
            r == self.sub_spec(rhs),
    {
        self.wrapping_sub(rhs)
    }

    fn mul(self, rhs: u64) -> (r: u64)
        ensures
            r == self.mul_spec(rhs),
    {
        self.wrapping_mul(rhs)
    }

    fn div(self, rhs: u64) -> (r: u64)
        ensures
            r == self.div_spec(rhs),
    {
        if rhs == 0 {
            0u64
        } else {
            self / rhs
        }
    }
}

/// `u64` solver scalars order as integers and use the integer square
/// root; counts convert by truncation (exact on 64-bit targets).
impl SolverNumeric for u64 {
    open spec fn from_usize_spec(n: usize) -> u64 {
        n as u64
    }

    open spec fn sqrt_spec(self) -> u64 {
        isqrt_rec(self as nat) as u64
    }

    open spec fn lt_spec(self, rhs: u64) -> bool {
        self < rhs
    }

    fn from_usize(n: usize) -> (r: u64)
        ensures
            r == Self::from_usize_spec(n),
    {
        n as u64
    }

    fn sqrt(self) -> (r: u64)
        ensures
            r == self.sqrt_spec(),
    {
        let n = self;
        let mut lo: u64 = 0;
        let mut hi: u64 = 0xFFFF_FFFF;
        while lo < hi
            invariant
                lo <= hi <= 0xFFFF_FFFF,
                lo * lo <= n,
                n < (hi + 1) * (hi + 1),
            decreases hi - lo,
        {
            let mid = lo + (hi - lo + 1) / 2;
            proof {
                assert((mid as int) * (mid as int) <= 0xFFFF_FFFF * 0xFFFF_FFFF)
                    by (nonlinear_arith)
                    requires
                        0 <= mid <= 0xFFFF_FFFF,
                {
                }
            }
            if (mid as u128) * (mid as u128) <= (n as u128) {
                lo = mid;
            } else {
                hi = mid - 1;
            }
        }
        proof {
            lemma_isqrt_unique(n as nat, lo as nat);
        }
        lo
    }

    fn lt(self, rhs: u64) -> (r: bool)
        ensures
            r == self.lt_spec(rhs),
    {
        self < rhs
    }
}

} // verus!
