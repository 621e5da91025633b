//! Modular multiplication and exponentiation over `u64` values.

use vstd::prelude::*;
use vstd::arithmetic::power::{
    pow,
    lemma_pow0,
    lemma_pow1,
    lemma_pow_adds,
    lemma_pow_multiplies,
    lemma_pow_mod_noop,
    lemma_square_is_pow2,
};
use vstd::arithmetic::div_mod::{
    lemma_mul_mod_noop_left,
    lemma_mul_mod_noop_right,
    lemma_small_mod,
};
use vstd::arithmetic::mul::{
    lemma_mul_is_associative,
    lemma_mul_is_commutative,
    lemma_mul_upper_bound,
};

verus! {

/// In modular arithmetic, gets the product of number a and b,
/// for a specific modulus.
pub fn multiplication(a: u64, b: u64, modulus: u64) -> (r: u64)
    requires
        modulus >= 1,
    ensures
        r == (a as int * b as int) % (modulus as int),
        r < modulus,
{
    proof {
        lemma_mul_upper_bound(a as int, u64::MAX as int, b as int, u64::MAX as int);
    }
    let product: u128 = (a as u128) * (b as u128);
    (product % (modulus as u128)) as u64
}

/// In modular arithmetic, elevate n to the specified exponent,
/// for a specific modulus.
pub fn power(n: u64, exponent: u64, modulus: u64) -> (r: u64)
    requires
        modulus >= 1,
    ensures
        r == pow(n as int, exponent as nat) % (modulus as int),
{
    if modulus == 1 {
        return 0;
    }
    let mut result: u64 = 1;
    let mut a = n;
    let mut b = exponent;

    while b > 0
        invariant
            modulus >= 2,
            result < modulus,
            (result as int * pow(a as int, b as nat)) % (modulus as int) == pow(
                n as int,
                exponent as nat,
            ) % (modulus as int),
        decreases b,
    {
        let ghost m = modulus as int;
        let ghost r0 = result as int;
        let ghost a0 = a as int;
        let ghost b0 = b as nat;
        let odd = b % 2 == 1;
        if odd {
            result = multiplication(result, a, modulus);
        }
        b = b / 2;
        a = multiplication(a, a, modulus);
        proof {
            let r1 = result as int;
            let a1 = a as int;
            let b1 = b as nat;
            let squares = pow(a0, (2 * b1) as nat);
            lemma_square_is_pow2(a0);
            lemma_pow_multiplies(a0, 2, b1);
            lemma_pow_mod_noop(a0 * a0, b1, m);
            assert(pow(a1, b1) % m == squares % m);
            lemma_mul_mod_noop_right(r1, pow(a1, b1), m);
            lemma_mul_mod_noop_right(r1, squares, m);
            assert((r1 * pow(a1, b1)) % m == (r1 * squares) % m);
            if odd {
                lemma_mul_mod_noop_left(r0 * a0, squares, m);
                lemma_mul_is_associative(r0, a0, squares);
                lemma_pow_adds(a0, (2 * b1) as nat, 1);
                lemma_pow1(a0);
                lemma_mul_is_commutative(a0, squares);
                assert(b0 == 2 * b1 + 1);
                assert((r1 * squares) % m == (r0 * (a0 * squares)) % m);
                assert(a0 * squares == pow(a0, b0));
            } else {
                assert(b0 == 2 * b1);
            }
            assert((r1 * pow(a1, b1)) % m == (r0 * pow(a0, b0)) % m);
        }
    }
    proof {
        lemma_pow0(a as int);
        lemma_small_mod(result as nat, modulus as nat);
    }
    result
}

} // verus!
