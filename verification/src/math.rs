//! Small arithmetic helpers: addition, multiplication and integer
//! exponentiation, each proved free of overflow under its precondition.

use vstd::prelude::*;
use vstd::arithmetic::power::{
    pow, lemma_pow0, lemma0_pow, lemma1_pow, lemma_pow_positive, lemma_pow_strictly_increases,
};

verus! {

/// Sum of two machine integers; defined exactly when the sum fits.
pub fn add(a: i32, b: i32) -> (r: i32)
    requires
        i32::MIN <= a + b <= i32::MAX,
    ensures
        r == a + b,
{
    a + b
}

/// Product of two machine integers; defined exactly when the product fits.
pub fn multiply(a: i32, b: i32) -> (r: i32)
    requires
        i32::MIN <= a * b <= i32::MAX,
    ensures
        r == a * b,
{
    a * b
}

/// Absolute value of `pow(b, e)` equals `pow(|b|, e)`: exponentiation
/// commutes with taking the absolute value of the base.
proof fn lemma_pow_abs(b: int, e: nat)
    ensures
        vstd::math::abs(pow(b, e)) == pow(vstd::math::abs(b) as int, e),
    decreases e,
{
    if e == 0 {
        lemma_pow0(b);
        lemma_pow0(vstd::math::abs(b) as int);
    } else {
        lemma_pow_abs(b, (e - 1) as nat);
        reveal(pow);
        assert(pow(b, e) == b * pow(b, (e - 1) as nat));
        assert(pow(vstd::math::abs(b) as int, e) == vstd::math::abs(b) * pow(
            vstd::math::abs(b) as int,
            (e - 1) as nat,
        ));
        assert(vstd::math::abs(b * pow(b, (e - 1) as nat)) == vstd::math::abs(b)
            * vstd::math::abs(pow(b, (e - 1) as nat))) by (nonlinear_arith);
    }
}

/// If the final power `pow(b, e)` fits in the machine type, so does every
/// partial power along the way: for a base of magnitude at least 2 the
/// magnitudes grow strictly, and for a smaller base they never exceed 1.
proof fn lemma_partial_pow_fits(b: int, i: nat, e: nat)
    requires
        i <= e,
        i32::MIN <= pow(b, e) <= i32::MAX,
    ensures
        i32::MIN <= pow(b, i) <= i32::MAX,
{
    if i < e {
        lemma_pow_abs(b, i);
        lemma_pow_abs(b, e);
        let m: int = vstd::math::abs(b) as int;
        if m == 0 {
            if i == 0 {
                lemma_pow0(0);
            } else {
                lemma0_pow(i);
            }
        } else if m == 1 {
            lemma1_pow(i);
        } else {
            lemma_pow_strictly_increases(m as nat, i, e);
            lemma_pow_positive(m, i);
            lemma_pow_positive(m, e);
        }
    }
}

/// `base` raised to `exp`; defined exactly when the mathematical result
/// fits in the machine type.
pub fn power(base: i32, exp: u32) -> (r: i32)
    requires
        i32::MIN <= pow(base as int, exp as nat) <= i32::MAX,
    ensures
        r == pow(base as int, exp as nat),
{
    let mut r: i32 = 1;
    let mut i: u32 = 0;
    proof {
        lemma_pow0(base as int);
    }
    while i < exp
        invariant
            i <= exp,
            r == pow(base as int, i as nat),
            i32::MIN <= pow(base as int, exp as nat) <= i32::MAX,
        decreases exp - i,
    {
        proof {
            lemma_partial_pow_fits(base as int, (i + 1) as nat, exp as nat);
            reveal(pow);
            assert(pow(base as int, (i + 1) as nat) == base * pow(base as int, i as nat));
        }
        r = r * base;
        i = i + 1;
    }
    r
}

} // verus!
