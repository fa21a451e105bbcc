//! Congruences modulo a positive integer, the facts that the word-level
//! arithmetic is proved from.
use vstd::prelude::*;
use vstd::arithmetic::div_mod::*;
use vstd::arithmetic::mul::lemma_mul_is_commutative;

verus! {

/// `a` and `b` leave the same remainder modulo `m`.
pub open spec fn congruent(a: int, b: int, m: int) -> bool {
    a % m == b % m
}

/// `a` has a multiplicative inverse modulo `m`.
pub open spec fn invertible_mod(a: int, m: int) -> bool {
    exists|w: int| #[trigger] ((a * w) % m) == 1int % m
}

pub proof fn lemma_congruent_mul(a: int, ea: int, b: int, eb: int, m: int)
    requires
        m > 0,
        congruent(a, ea, m),
        congruent(b, eb, m),
    ensures
        congruent(a * b, ea * eb, m),
{
    lemma_mul_mod_noop(a, b, m);
    lemma_mul_mod_noop(ea, eb, m);
}

pub proof fn lemma_congruent_add(a: int, ea: int, b: int, eb: int, m: int)
    requires
        m > 0,
        congruent(a, ea, m),
        congruent(b, eb, m),
    ensures
        congruent(a + b, ea + eb, m),
{
    lemma_add_mod_noop(a, b, m);
    lemma_add_mod_noop(ea, eb, m);
}

pub proof fn lemma_congruent_sub(a: int, ea: int, b: int, eb: int, m: int)
    requires
        m > 0,
        congruent(a, ea, m),
        congruent(b, eb, m),
    ensures
        congruent(a - b, ea - eb, m),
{
    lemma_sub_mod_noop(a, b, m);
    lemma_sub_mod_noop(ea, eb, m);
}

/// `p` is prime: greater than one, with no divisor strictly between one and
/// itself.
pub open spec fn is_prime(p: int) -> bool {
    &&& p > 1
    &&& forall|d: int| 1 < d < p ==> #[trigger] (p % d) != 0
}

/// Extended Euclid: `(x, y, g)` with `a * x + b * y == g`, `g` the greatest
/// common divisor of `a` and `b`.
pub open spec fn ext_gcd(a: int, b: int) -> (int, int, int)
    decreases b,
{
    if b <= 0 || a < 0 {
        (1, 0, a)
    } else {
        let (x, y, g) = ext_gcd(b, a % b);
        (y, x - (a / b) * y, g)
    }
}

/// Bezout's identity for `ext_gcd`, and that its `g` divides both arguments.
pub proof fn lemma_ext_gcd(a: int, b: int)
    requires
        a > 0,
        b >= 0,
    ensures
        ({
            let (x, y, g) = ext_gcd(a, b);
            &&& a * x + b * y == g
            &&& g > 0
            &&& a % g == 0
            &&& b % g == 0
        }),
    decreases b,
{
    if b == 0 {
        lemma_mod_self_0(a);
    } else {
        lemma_fundamental_div_mod(a, b);
        lemma_mod_pos_bound(a, b);
        let r = a % b;
        let q = a / b;
        lemma_ext_gcd(b, r);
        let (x, y, g) = ext_gcd(b, r);
        assert(a * y + b * (x - q * y) == b * x + r * y) by (nonlinear_arith)
            requires
                a == b * q + r,
        ;
        // g divides b and r, so it divides a = b * q + r
        lemma_fundamental_div_mod(b, g);
        lemma_fundamental_div_mod(r, g);
        let kb = b / g;
        let kr = r / g;
        assert(a == g * (kb * q + kr)) by (nonlinear_arith)
            requires
                a == b * q + r,
                b == g * kb,
                r == g * kr,
        ;
        lemma_mod_multiples_basic(kb * q + kr, g);
        lemma_mul_is_commutative(g, kb * q + kr);
    }
}

/// Modulo a prime, every value that is not a multiple of the prime has an
/// inverse.
pub proof fn lemma_invertible_mod_prime(a: int, p: int)
    requires
        is_prime(p),
        a % p != 0,
    ensures
        invertible_mod(a, p),
{
    let a0 = a % p;
    lemma_mod_bound(a, p);
    lemma_ext_gcd(a0, p);
    let (x, y, g) = ext_gcd(a0, p);
    // g divides p and a0 with 0 < a0 < p, so g is 1
    if g > 1 {
        if g < p {
            assert(p % g != 0);
        } else {
            lemma_small_mod(a0 as nat, g as nat);
        }
    }
    assert(g == 1);
    // a * x = 1 - p * y + (a - a0) * x, a multiple of p away from 1
    lemma_fundamental_div_mod(a, p);
    let q = a / p;
    assert(a * x == 1 + p * (q * x - y)) by (nonlinear_arith)
        requires
            a0 * x + p * y == 1,
            a == p * q + a0,
    ;
    lemma_mod_multiples_vanish(q * x - y, 1, p);
    assert((a * x) % p == 1int % p);
}

} // verus!
