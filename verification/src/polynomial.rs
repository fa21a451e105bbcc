//! Monomials in up to seven integer variables, evaluated at a point. A
//! product of two terms `c1 * m1` and `c2 * m2` is the term `(c1 * c2) * m`
//! whose exponents are the sums of theirs; with this and distributivity a
//! polynomial identity reduces to linear arithmetic over the monomials.
use vstd::prelude::*;
use vstd::arithmetic::power::{pow, lemma_pow_adds, lemma_pow0, lemma_pow1};

verus! {

/// A point: the values of the seven variables.
pub struct Pt {
    pub v0: int,
    pub v1: int,
    pub v2: int,
    pub v3: int,
    pub v4: int,
    pub v5: int,
    pub v6: int,
}

/// The monomial `v0^e0 * v1^e1 * ... * v6^e6` at the point `p`.
pub open spec fn mn(p: Pt, e0: nat, e1: nat, e2: nat, e3: nat, e4: nat, e5: nat, e6: nat) -> int {
    pow(p.v0, e0) * pow(p.v1, e1) * pow(p.v2, e2) * pow(p.v3, e3) * pow(p.v4, e4) * pow(p.v5, e5)
        * pow(p.v6, e6)
}

proof fn lemma_mul4(w: int, x: int, y: int, z: int)
    ensures
        (w * x) * (y * z) == (w * y) * (x * z),
{
    assert((w * x) * (y * z) == (w * y) * (x * z)) by (nonlinear_arith);
}

/// The product of two terms is the term with the product coefficient and the
/// summed exponents.
pub proof fn lemma_tm(
    p: Pt,
    c1: int, a0: nat, a1: nat, a2: nat, a3: nat, a4: nat, a5: nat, a6: nat,
    c2: int, b0: nat, b1: nat, b2: nat, b3: nat, b4: nat, b5: nat, b6: nat,
)
    ensures
        (c1 * mn(p, a0, a1, a2, a3, a4, a5, a6)) * (c2 * mn(p, b0, b1, b2, b3, b4, b5, b6))
            == (c1 * c2) * mn(p, a0 + b0, a1 + b1, a2 + b2, a3 + b3, a4 + b4, a5 + b5, a6 + b6),
{
    lemma_pow_adds(p.v0, a0, b0);
    lemma_pow_adds(p.v1, a1, b1);
    lemma_pow_adds(p.v2, a2, b2);
    lemma_pow_adds(p.v3, a3, b3);
    lemma_pow_adds(p.v4, a4, b4);
    lemma_pow_adds(p.v5, a5, b5);
    lemma_pow_adds(p.v6, a6, b6);
    let x0 = pow(p.v0, a0);
    let x1 = pow(p.v1, a1);
    let x2 = pow(p.v2, a2);
    let x3 = pow(p.v3, a3);
    let x4 = pow(p.v4, a4);
    let x5 = pow(p.v5, a5);
    let x6 = pow(p.v6, a6);
    let y0 = pow(p.v0, b0);
    let y1 = pow(p.v1, b1);
    let y2 = pow(p.v2, b2);
    let y3 = pow(p.v3, b3);
    let y4 = pow(p.v4, b4);
    let y5 = pow(p.v5, b5);
    let y6 = pow(p.v6, b6);
    lemma_mul4(x0, x1, y0, y1);
    lemma_mul4(x0 * x1, x2, y0 * y1, y2);
    lemma_mul4(x0 * x1 * x2, x3, y0 * y1 * y2, y3);
    lemma_mul4(x0 * x1 * x2 * x3, x4, y0 * y1 * y2 * y3, y4);
    lemma_mul4(x0 * x1 * x2 * x3 * x4, x5, y0 * y1 * y2 * y3 * y4, y5);
    lemma_mul4(x0 * x1 * x2 * x3 * x4 * x5, x6, y0 * y1 * y2 * y3 * y4 * y5, y6);
    lemma_mul4(c1, mn(p, a0, a1, a2, a3, a4, a5, a6), c2, mn(p, b0, b1, b2, b3, b4, b5, b6));
}

/// Each variable is the monomial with exponent one in it, and the constant
/// monomial is one.
pub proof fn lemma_vars(p: Pt)
    ensures
        p.v0 == mn(p, 1, 0, 0, 0, 0, 0, 0),
        p.v1 == mn(p, 0, 1, 0, 0, 0, 0, 0),
        p.v2 == mn(p, 0, 0, 1, 0, 0, 0, 0),
        p.v3 == mn(p, 0, 0, 0, 1, 0, 0, 0),
        p.v4 == mn(p, 0, 0, 0, 0, 1, 0, 0),
        p.v5 == mn(p, 0, 0, 0, 0, 0, 1, 0),
        p.v6 == mn(p, 0, 0, 0, 0, 0, 0, 1),
{
    lemma_pow0(p.v0);
    lemma_pow0(p.v1);
    lemma_pow0(p.v2);
    lemma_pow0(p.v3);
    lemma_pow0(p.v4);
    lemma_pow0(p.v5);
    lemma_pow0(p.v6);
    lemma_pow1(p.v0);
    lemma_pow1(p.v1);
    lemma_pow1(p.v2);
    lemma_pow1(p.v3);
    lemma_pow1(p.v4);
    lemma_pow1(p.v5);
    lemma_pow1(p.v6);
    assert(pow(p.v0, 1nat) * pow(p.v1, 0nat) * pow(p.v2, 0nat) * pow(p.v3, 0nat) * pow(p.v4, 0nat) * pow(p.v5, 0nat) * pow(p.v6, 0nat) == p.v0) by (nonlinear_arith)
        requires pow(p.v1, 0nat) == 1, pow(p.v2, 0nat) == 1, pow(p.v3, 0nat) == 1, pow(p.v4, 0nat) == 1, pow(p.v5, 0nat) == 1, pow(p.v6, 0nat) == 1, pow(p.v0, 1nat) == p.v0;
    assert(pow(p.v0, 0nat) * pow(p.v1, 1nat) * pow(p.v2, 0nat) * pow(p.v3, 0nat) * pow(p.v4, 0nat) * pow(p.v5, 0nat) * pow(p.v6, 0nat) == p.v1) by (nonlinear_arith)
        requires pow(p.v0, 0nat) == 1, pow(p.v2, 0nat) == 1, pow(p.v3, 0nat) == 1, pow(p.v4, 0nat) == 1, pow(p.v5, 0nat) == 1, pow(p.v6, 0nat) == 1, pow(p.v1, 1nat) == p.v1;
    assert(pow(p.v0, 0nat) * pow(p.v1, 0nat) * pow(p.v2, 1nat) * pow(p.v3, 0nat) * pow(p.v4, 0nat) * pow(p.v5, 0nat) * pow(p.v6, 0nat) == p.v2) by (nonlinear_arith)
        requires pow(p.v0, 0nat) == 1, pow(p.v1, 0nat) == 1, pow(p.v3, 0nat) == 1, pow(p.v4, 0nat) == 1, pow(p.v5, 0nat) == 1, pow(p.v6, 0nat) == 1, pow(p.v2, 1nat) == p.v2;
    assert(pow(p.v0, 0nat) * pow(p.v1, 0nat) * pow(p.v2, 0nat) * pow(p.v3, 1nat) * pow(p.v4, 0nat) * pow(p.v5, 0nat) * pow(p.v6, 0nat) == p.v3) by (nonlinear_arith)
        requires pow(p.v0, 0nat) == 1, pow(p.v1, 0nat) == 1, pow(p.v2, 0nat) == 1, pow(p.v4, 0nat) == 1, pow(p.v5, 0nat) == 1, pow(p.v6, 0nat) == 1, pow(p.v3, 1nat) == p.v3;
    assert(pow(p.v0, 0nat) * pow(p.v1, 0nat) * pow(p.v2, 0nat) * pow(p.v3, 0nat) * pow(p.v4, 1nat) * pow(p.v5, 0nat) * pow(p.v6, 0nat) == p.v4) by (nonlinear_arith)
        requires pow(p.v0, 0nat) == 1, pow(p.v1, 0nat) == 1, pow(p.v2, 0nat) == 1, pow(p.v3, 0nat) == 1, pow(p.v5, 0nat) == 1, pow(p.v6, 0nat) == 1, pow(p.v4, 1nat) == p.v4;
    assert(pow(p.v0, 0nat) * pow(p.v1, 0nat) * pow(p.v2, 0nat) * pow(p.v3, 0nat) * pow(p.v4, 0nat) * pow(p.v5, 1nat) * pow(p.v6, 0nat) == p.v5) by (nonlinear_arith)
        requires pow(p.v0, 0nat) == 1, pow(p.v1, 0nat) == 1, pow(p.v2, 0nat) == 1, pow(p.v3, 0nat) == 1, pow(p.v4, 0nat) == 1, pow(p.v6, 0nat) == 1, pow(p.v5, 1nat) == p.v5;
    assert(pow(p.v0, 0nat) * pow(p.v1, 0nat) * pow(p.v2, 0nat) * pow(p.v3, 0nat) * pow(p.v4, 0nat) * pow(p.v5, 0nat) * pow(p.v6, 1nat) == p.v6) by (nonlinear_arith)
        requires pow(p.v0, 0nat) == 1, pow(p.v1, 0nat) == 1, pow(p.v2, 0nat) == 1, pow(p.v3, 0nat) == 1, pow(p.v4, 0nat) == 1, pow(p.v5, 0nat) == 1, pow(p.v6, 1nat) == p.v6;
}

} // verus!
