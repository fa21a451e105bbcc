//! Polynomial certificates for the group law of the complete formulas: each
//! lemma shows that a polynomial in the coordinates is a combination of the
//! curve equations of the inputs, expanding every product monomial by
//! monomial.
use vstd::prelude::*;
use vstd::arithmetic::mul::{lemma_mul_is_distributive_add, lemma_mul_is_distributive_add_other_way};
use crate::polynomial::{Pt, mn, lemma_tm, lemma_vars};
use crate::projective::rcb_add;
use crate::group_law::{curve_poly, chord_add};

verus! {

pub(crate) open spec fn am1_cof0(p: Pt) -> int {
    (-3) * mn(p, 2, 1, 0, 1, 1, 4, 0) + (-9) * mn(p, 2, 0, 1, 2, 0, 4, 0) + (6) * mn(p, 2, 0, 1, 1, 2, 3, 0) + (9) * mn(p, 2, 0, 1, 1, 0, 5, 1) + (-9) * mn(p, 2, 0, 1, 0, 0, 6, 0) + (-3) * mn(p, 1, 2, 0, 2, 0, 4, 0) + (3) * mn(p, 1, 2, 0, 0, 0, 6, 0) + (6) * mn(p, 1, 1, 1, 2, 1, 3, 0) + (27) * mn(p, 1, 0, 2, 3, 0, 3, 0) + (-9) * mn(p, 1, 0, 2, 2, 2, 2, 0) + (-18) * mn(p, 1, 0, 2, 2, 0, 4, 1) + (-9) * mn(p, 1, 0, 2, 1, 0, 5, 0) + (-12) * mn(p, 1, 0, 2, 0, 2, 4, 0) + (9) * mn(p, 1, 0, 2, 0, 0, 6, 1) + (-1) * mn(p, 0, 3, 0, 0, 1, 5, 0) + (6) * mn(p, 0, 2, 1, 1, 0, 5, 0) + (2) * mn(p, 0, 2, 1, 0, 2, 4, 0) + (-3) * mn(p, 0, 2, 1, 0, 0, 6, 1) + (-9) * mn(p, 0, 1, 2, 1, 1, 4, 0) + (2) * mn(p, 0, 1, 2, 0, 3, 3, 0) + (3) * mn(p, 0, 1, 2, 0, 1, 5, 1) + (-27) * mn(p, 0, 0, 3, 4, 0, 2, 0) + (45) * mn(p, 0, 0, 3, 2, 0, 4, 0) + (30) * mn(p, 0, 0, 3, 1, 2, 3, 0) + (9) * mn(p, 0, 0, 3, 1, 0, 5, 1) + (6) * mn(p, 0, 0, 3, 0, 2, 4, 1) + (-9) * mn(p, 0, 0, 3, 0, 0, 6, 2)
}

pub(crate) open spec fn am1_cof1(p: Pt) -> int {
    (9) * mn(p, 2, 2, 2, 1, 0, 2, 0) + (-6) * mn(p, 2, 1, 3, 1, 1, 1, 0) + (9) * mn(p, 2, 0, 4, 2, 0, 1, 0) + (3) * mn(p, 2, 0, 4, 1, 2, 0, 0) + (18) * mn(p, 2, 0, 4, 1, 0, 2, 1) + (36) * mn(p, 2, 0, 4, 0, 0, 3, 0) + (-6) * mn(p, 1, 2, 3, 2, 0, 1, 0) + (-3) * mn(p, 1, 2, 3, 0, 0, 3, 0) + (3) * mn(p, 1, 1, 4, 2, 1, 0, 0) + (9) * mn(p, 1, 1, 4, 0, 1, 2, 0) + (-9) * mn(p, 1, 0, 5, 2, 0, 1, 1) + (-72) * mn(p, 1, 0, 5, 1, 0, 2, 0) + (-6) * mn(p, 1, 0, 5, 0, 2, 1, 0) + (-36) * mn(p, 1, 0, 5, 0, 0, 3, 1) + (-2) * mn(p, 0, 3, 3, 0, 1, 2, 0) + (-15) * mn(p, 0, 2, 4, 1, 0, 2, 0) + (-2) * mn(p, 0, 2, 4, 0, 2, 1, 0) + (-6) * mn(p, 0, 2, 4, 0, 0, 3, 1) + (1) * mn(p, 0, 1, 5, 0, 3, 0, 0) + (-3) * mn(p, 0, 1, 5, 0, 1, 2, 1) + (9) * mn(p, 0, 0, 6, 2, 0, 1, 0) + (-3) * mn(p, 0, 0, 6, 1, 2, 0, 0) + (18) * mn(p, 0, 0, 6, 1, 0, 2, 1) + (3) * mn(p, 0, 0, 6, 0, 2, 1, 1) + (9) * mn(p, 0, 0, 6, 0, 0, 3, 2)
}

#[verifier::rlimit(100)]
proof fn am1_prod0(p: Pt)
    ensures
        ((1) * mn(p, 1, 0, 0, 0, 0, 0, 0)) * ((1) * mn(p, 0, 0, 0, 1, 0, 0, 0)) == (1) * mn(p, 1, 0, 0, 1, 0, 0, 0),
{
    let t0 = (1) * mn(p, 1, 0, 0, 0, 0, 0, 0);
    let s0 = (1) * mn(p, 0, 0, 0, 1, 0, 0, 0);
    let pp0 = t0;
    let qq0 = s0;
    let q = qq0;
    lemma_tm(p, 1, 1, 0, 0, 0, 0, 0, 0, 1, 0, 0, 0, 1, 0, 0, 0);
    assert(t0 * s0 == (1) * mn(p, 1, 0, 0, 1, 0, 0, 0));
    assert(t0 * q == (1) * mn(p, 1, 0, 0, 1, 0, 0, 0));
    assert(pp0 * q == (1) * mn(p, 1, 0, 0, 1, 0, 0, 0));
}

#[verifier::rlimit(100)]
proof fn am1_prod1(p: Pt)
    ensures
        ((1) * mn(p, 0, 1, 0, 0, 0, 0, 0)) * ((1) * mn(p, 0, 0, 0, 0, 1, 0, 0)) == (1) * mn(p, 0, 1, 0, 0, 1, 0, 0),
{
    let t0 = (1) * mn(p, 0, 1, 0, 0, 0, 0, 0);
    let s0 = (1) * mn(p, 0, 0, 0, 0, 1, 0, 0);
    let pp0 = t0;
    let qq0 = s0;
    let q = qq0;
    lemma_tm(p, 1, 0, 1, 0, 0, 0, 0, 0, 1, 0, 0, 0, 0, 1, 0, 0);
    assert(t0 * s0 == (1) * mn(p, 0, 1, 0, 0, 1, 0, 0));
    assert(t0 * q == (1) * mn(p, 0, 1, 0, 0, 1, 0, 0));
    assert(pp0 * q == (1) * mn(p, 0, 1, 0, 0, 1, 0, 0));
}

#[verifier::rlimit(100)]
proof fn am1_prod2(p: Pt)
    ensures
        ((1) * mn(p, 0, 0, 1, 0, 0, 0, 0)) * ((1) * mn(p, 0, 0, 0, 0, 0, 1, 0)) == (1) * mn(p, 0, 0, 1, 0, 0, 1, 0),
{
    let t0 = (1) * mn(p, 0, 0, 1, 0, 0, 0, 0);
    let s0 = (1) * mn(p, 0, 0, 0, 0, 0, 1, 0);
    let pp0 = t0;
    let qq0 = s0;
    let q = qq0;
    lemma_tm(p, 1, 0, 0, 1, 0, 0, 0, 0, 1, 0, 0, 0, 0, 0, 1, 0);
    assert(t0 * s0 == (1) * mn(p, 0, 0, 1, 0, 0, 1, 0));
    assert(t0 * q == (1) * mn(p, 0, 0, 1, 0, 0, 1, 0));
    assert(pp0 * q == (1) * mn(p, 0, 0, 1, 0, 0, 1, 0));
}

#[verifier::rlimit(100)]
proof fn am1_prod3(p: Pt)
    ensures
        ((1) * mn(p, 1, 0, 0, 0, 0, 0, 0) + (1) * mn(p, 0, 1, 0, 0, 0, 0, 0)) * ((1) * mn(p, 0, 0, 0, 1, 0, 0, 0) + (1) * mn(p, 0, 0, 0, 0, 1, 0, 0)) == (1) * mn(p, 1, 0, 0, 1, 0, 0, 0) + (1) * mn(p, 1, 0, 0, 0, 1, 0, 0) + (1) * mn(p, 0, 1, 0, 1, 0, 0, 0) + (1) * mn(p, 0, 1, 0, 0, 1, 0, 0),
{
    let t0 = (1) * mn(p, 1, 0, 0, 0, 0, 0, 0);
    let t1 = (1) * mn(p, 0, 1, 0, 0, 0, 0, 0);
    let s0 = (1) * mn(p, 0, 0, 0, 1, 0, 0, 0);
    let s1 = (1) * mn(p, 0, 0, 0, 0, 1, 0, 0);
    let pp0 = t0;
    let pp1 = pp0 + t1;
    let qq0 = s0;
    let qq1 = qq0 + s1;
    let q = qq1;
    lemma_mul_is_distributive_add_other_way(q, pp0, t1);
    lemma_mul_is_distributive_add(t0, qq0, s1);
    lemma_mul_is_distributive_add(t1, qq0, s1);
    lemma_tm(p, 1, 1, 0, 0, 0, 0, 0, 0, 1, 0, 0, 0, 1, 0, 0, 0);
    assert(t0 * s0 == (1) * mn(p, 1, 0, 0, 1, 0, 0, 0));
    lemma_tm(p, 1, 1, 0, 0, 0, 0, 0, 0, 1, 0, 0, 0, 0, 1, 0, 0);
    assert(t0 * s1 == (1) * mn(p, 1, 0, 0, 0, 1, 0, 0));
    assert(t0 * q == (1) * mn(p, 1, 0, 0, 1, 0, 0, 0) + (1) * mn(p, 1, 0, 0, 0, 1, 0, 0));
    lemma_tm(p, 1, 0, 1, 0, 0, 0, 0, 0, 1, 0, 0, 0, 1, 0, 0, 0);
    assert(t1 * s0 == (1) * mn(p, 0, 1, 0, 1, 0, 0, 0));
    lemma_tm(p, 1, 0, 1, 0, 0, 0, 0, 0, 1, 0, 0, 0, 0, 1, 0, 0);
    assert(t1 * s1 == (1) * mn(p, 0, 1, 0, 0, 1, 0, 0));
    assert(t1 * q == (1) * mn(p, 0, 1, 0, 1, 0, 0, 0) + (1) * mn(p, 0, 1, 0, 0, 1, 0, 0));
    assert(pp1 * q == (1) * mn(p, 1, 0, 0, 1, 0, 0, 0) + (1) * mn(p, 1, 0, 0, 0, 1, 0, 0) + (1) * mn(p, 0, 1, 0, 1, 0, 0, 0) + (1) * mn(p, 0, 1, 0, 0, 1, 0, 0));
}

#[verifier::rlimit(100)]
proof fn am1_prod4(p: Pt)
    ensures
        ((1) * mn(p, 0, 1, 0, 0, 0, 0, 0) + (1) * mn(p, 0, 0, 1, 0, 0, 0, 0)) * ((1) * mn(p, 0, 0, 0, 0, 1, 0, 0) + (1) * mn(p, 0, 0, 0, 0, 0, 1, 0)) == (1) * mn(p, 0, 1, 0, 0, 1, 0, 0) + (1) * mn(p, 0, 1, 0, 0, 0, 1, 0) + (1) * mn(p, 0, 0, 1, 0, 1, 0, 0) + (1) * mn(p, 0, 0, 1, 0, 0, 1, 0),
{
    let t0 = (1) * mn(p, 0, 1, 0, 0, 0, 0, 0);
    let t1 = (1) * mn(p, 0, 0, 1, 0, 0, 0, 0);
    let s0 = (1) * mn(p, 0, 0, 0, 0, 1, 0, 0);
    let s1 = (1) * mn(p, 0, 0, 0, 0, 0, 1, 0);
    let pp0 = t0;
    let pp1 = pp0 + t1;
    let qq0 = s0;
    let qq1 = qq0 + s1;
    let q = qq1;
    lemma_mul_is_distributive_add_other_way(q, pp0, t1);
    lemma_mul_is_distributive_add(t0, qq0, s1);
    lemma_mul_is_distributive_add(t1, qq0, s1);
    lemma_tm(p, 1, 0, 1, 0, 0, 0, 0, 0, 1, 0, 0, 0, 0, 1, 0, 0);
    assert(t0 * s0 == (1) * mn(p, 0, 1, 0, 0, 1, 0, 0));
    lemma_tm(p, 1, 0, 1, 0, 0, 0, 0, 0, 1, 0, 0, 0, 0, 0, 1, 0);
    assert(t0 * s1 == (1) * mn(p, 0, 1, 0, 0, 0, 1, 0));
    assert(t0 * q == (1) * mn(p, 0, 1, 0, 0, 1, 0, 0) + (1) * mn(p, 0, 1, 0, 0, 0, 1, 0));
    lemma_tm(p, 1, 0, 0, 1, 0, 0, 0, 0, 1, 0, 0, 0, 0, 1, 0, 0);
    assert(t1 * s0 == (1) * mn(p, 0, 0, 1, 0, 1, 0, 0));
    lemma_tm(p, 1, 0, 0, 1, 0, 0, 0, 0, 1, 0, 0, 0, 0, 0, 1, 0);
    assert(t1 * s1 == (1) * mn(p, 0, 0, 1, 0, 0, 1, 0));
    assert(t1 * q == (1) * mn(p, 0, 0, 1, 0, 1, 0, 0) + (1) * mn(p, 0, 0, 1, 0, 0, 1, 0));
    assert(pp1 * q == (1) * mn(p, 0, 1, 0, 0, 1, 0, 0) + (1) * mn(p, 0, 1, 0, 0, 0, 1, 0) + (1) * mn(p, 0, 0, 1, 0, 1, 0, 0) + (1) * mn(p, 0, 0, 1, 0, 0, 1, 0));
}

#[verifier::rlimit(100)]
proof fn am1_prod5(p: Pt)
    ensures
        ((1) * mn(p, 1, 0, 0, 0, 0, 0, 0) + (1) * mn(p, 0, 0, 1, 0, 0, 0, 0)) * ((1) * mn(p, 0, 0, 0, 1, 0, 0, 0) + (1) * mn(p, 0, 0, 0, 0, 0, 1, 0)) == (1) * mn(p, 1, 0, 0, 1, 0, 0, 0) + (1) * mn(p, 1, 0, 0, 0, 0, 1, 0) + (1) * mn(p, 0, 0, 1, 1, 0, 0, 0) + (1) * mn(p, 0, 0, 1, 0, 0, 1, 0),
{
    let t0 = (1) * mn(p, 1, 0, 0, 0, 0, 0, 0);
    let t1 = (1) * mn(p, 0, 0, 1, 0, 0, 0, 0);
    let s0 = (1) * mn(p, 0, 0, 0, 1, 0, 0, 0);
    let s1 = (1) * mn(p, 0, 0, 0, 0, 0, 1, 0);
    let pp0 = t0;
    let pp1 = pp0 + t1;
    let qq0 = s0;
    let qq1 = qq0 + s1;
    let q = qq1;
    lemma_mul_is_distributive_add_other_way(q, pp0, t1);
    lemma_mul_is_distributive_add(t0, qq0, s1);
    lemma_mul_is_distributive_add(t1, qq0, s1);
    lemma_tm(p, 1, 1, 0, 0, 0, 0, 0, 0, 1, 0, 0, 0, 1, 0, 0, 0);
    assert(t0 * s0 == (1) * mn(p, 1, 0, 0, 1, 0, 0, 0));
    lemma_tm(p, 1, 1, 0, 0, 0, 0, 0, 0, 1, 0, 0, 0, 0, 0, 1, 0);
    assert(t0 * s1 == (1) * mn(p, 1, 0, 0, 0, 0, 1, 0));
    assert(t0 * q == (1) * mn(p, 1, 0, 0, 1, 0, 0, 0) + (1) * mn(p, 1, 0, 0, 0, 0, 1, 0));
    lemma_tm(p, 1, 0, 0, 1, 0, 0, 0, 0, 1, 0, 0, 0, 1, 0, 0, 0);
    assert(t1 * s0 == (1) * mn(p, 0, 0, 1, 1, 0, 0, 0));
    lemma_tm(p, 1, 0, 0, 1, 0, 0, 0, 0, 1, 0, 0, 0, 0, 0, 1, 0);
    assert(t1 * s1 == (1) * mn(p, 0, 0, 1, 0, 0, 1, 0));
    assert(t1 * q == (1) * mn(p, 0, 0, 1, 1, 0, 0, 0) + (1) * mn(p, 0, 0, 1, 0, 0, 1, 0));
    assert(pp1 * q == (1) * mn(p, 1, 0, 0, 1, 0, 0, 0) + (1) * mn(p, 1, 0, 0, 0, 0, 1, 0) + (1) * mn(p, 0, 0, 1, 1, 0, 0, 0) + (1) * mn(p, 0, 0, 1, 0, 0, 1, 0));
}

#[verifier::rlimit(100)]
proof fn am1_prod6(p: Pt)
    ensures
        ((1) * mn(p, 0, 0, 0, 0, 0, 0, 1)) * ((1) * mn(p, 0, 0, 1, 0, 0, 1, 0)) == (1) * mn(p, 0, 0, 1, 0, 0, 1, 1),
{
    let t0 = (1) * mn(p, 0, 0, 0, 0, 0, 0, 1);
    let s0 = (1) * mn(p, 0, 0, 1, 0, 0, 1, 0);
    let pp0 = t0;
    let qq0 = s0;
    let q = qq0;
    lemma_tm(p, 1, 0, 0, 0, 0, 0, 0, 1, 1, 0, 0, 1, 0, 0, 1, 0);
    assert(t0 * s0 == (1) * mn(p, 0, 0, 1, 0, 0, 1, 1));
    assert(t0 * q == (1) * mn(p, 0, 0, 1, 0, 0, 1, 1));
    assert(pp0 * q == (1) * mn(p, 0, 0, 1, 0, 0, 1, 1));
}

#[verifier::rlimit(100)]
proof fn am1_prod7(p: Pt)
    ensures
        ((1) * mn(p, 0, 0, 0, 0, 0, 0, 1)) * ((1) * mn(p, 1, 0, 0, 0, 0, 1, 0) + (1) * mn(p, 0, 0, 1, 1, 0, 0, 0)) == (1) * mn(p, 1, 0, 0, 0, 0, 1, 1) + (1) * mn(p, 0, 0, 1, 1, 0, 0, 1),
{
    let t0 = (1) * mn(p, 0, 0, 0, 0, 0, 0, 1);
    let s0 = (1) * mn(p, 1, 0, 0, 0, 0, 1, 0);
    let s1 = (1) * mn(p, 0, 0, 1, 1, 0, 0, 0);
    let pp0 = t0;
    let qq0 = s0;
    let qq1 = qq0 + s1;
    let q = qq1;
    lemma_mul_is_distributive_add(t0, qq0, s1);
    lemma_tm(p, 1, 0, 0, 0, 0, 0, 0, 1, 1, 1, 0, 0, 0, 0, 1, 0);
    assert(t0 * s0 == (1) * mn(p, 1, 0, 0, 0, 0, 1, 1));
    lemma_tm(p, 1, 0, 0, 0, 0, 0, 0, 1, 1, 0, 0, 1, 1, 0, 0, 0);
    assert(t0 * s1 == (1) * mn(p, 0, 0, 1, 1, 0, 0, 1));
    assert(t0 * q == (1) * mn(p, 1, 0, 0, 0, 0, 1, 1) + (1) * mn(p, 0, 0, 1, 1, 0, 0, 1));
    assert(pp0 * q == (1) * mn(p, 1, 0, 0, 0, 0, 1, 1) + (1) * mn(p, 0, 0, 1, 1, 0, 0, 1));
}

#[verifier::rlimit(100)]
proof fn am1_prod8(p: Pt)
    ensures
        ((3) * mn(p, 1, 0, 0, 0, 0, 1, 0) + (1) * mn(p, 0, 1, 0, 0, 1, 0, 0) + (3) * mn(p, 0, 0, 1, 1, 0, 0, 0) + (-3) * mn(p, 0, 0, 1, 0, 0, 1, 1)) * ((1) * mn(p, 1, 0, 0, 0, 1, 0, 0) + (1) * mn(p, 0, 1, 0, 1, 0, 0, 0)) == (3) * mn(p, 2, 0, 0, 0, 1, 1, 0) + (3) * mn(p, 1, 1, 0, 1, 0, 1, 0) + (1) * mn(p, 1, 1, 0, 0, 2, 0, 0) + (3) * mn(p, 1, 0, 1, 1, 1, 0, 0) + (-3) * mn(p, 1, 0, 1, 0, 1, 1, 1) + (1) * mn(p, 0, 2, 0, 1, 1, 0, 0) + (3) * mn(p, 0, 1, 1, 2, 0, 0, 0) + (-3) * mn(p, 0, 1, 1, 1, 0, 1, 1),
{
    let t0 = (3) * mn(p, 1, 0, 0, 0, 0, 1, 0);
    let t1 = (1) * mn(p, 0, 1, 0, 0, 1, 0, 0);
    let t2 = (3) * mn(p, 0, 0, 1, 1, 0, 0, 0);
    let t3 = (-3) * mn(p, 0, 0, 1, 0, 0, 1, 1);
    let s0 = (1) * mn(p, 1, 0, 0, 0, 1, 0, 0);
    let s1 = (1) * mn(p, 0, 1, 0, 1, 0, 0, 0);
    let pp0 = t0;
    let pp1 = pp0 + t1;
    let pp2 = pp1 + t2;
    let pp3 = pp2 + t3;
    let qq0 = s0;
    let qq1 = qq0 + s1;
    let q = qq1;
    lemma_mul_is_distributive_add_other_way(q, pp0, t1);
    lemma_mul_is_distributive_add_other_way(q, pp1, t2);
    lemma_mul_is_distributive_add_other_way(q, pp2, t3);
    lemma_mul_is_distributive_add(t0, qq0, s1);
    lemma_mul_is_distributive_add(t1, qq0, s1);
    lemma_mul_is_distributive_add(t2, qq0, s1);
    lemma_mul_is_distributive_add(t3, qq0, s1);
    lemma_tm(p, 3, 1, 0, 0, 0, 0, 1, 0, 1, 1, 0, 0, 0, 1, 0, 0);
    assert(t0 * s0 == (3) * mn(p, 2, 0, 0, 0, 1, 1, 0));
    lemma_tm(p, 3, 1, 0, 0, 0, 0, 1, 0, 1, 0, 1, 0, 1, 0, 0, 0);
    assert(t0 * s1 == (3) * mn(p, 1, 1, 0, 1, 0, 1, 0));
    assert(t0 * q == (3) * mn(p, 2, 0, 0, 0, 1, 1, 0) + (3) * mn(p, 1, 1, 0, 1, 0, 1, 0));
    lemma_tm(p, 1, 0, 1, 0, 0, 1, 0, 0, 1, 1, 0, 0, 0, 1, 0, 0);
    assert(t1 * s0 == (1) * mn(p, 1, 1, 0, 0, 2, 0, 0));
    lemma_tm(p, 1, 0, 1, 0, 0, 1, 0, 0, 1, 0, 1, 0, 1, 0, 0, 0);
    assert(t1 * s1 == (1) * mn(p, 0, 2, 0, 1, 1, 0, 0));
    assert(t1 * q == (1) * mn(p, 1, 1, 0, 0, 2, 0, 0) + (1) * mn(p, 0, 2, 0, 1, 1, 0, 0));
    lemma_tm(p, 3, 0, 0, 1, 1, 0, 0, 0, 1, 1, 0, 0, 0, 1, 0, 0);
    assert(t2 * s0 == (3) * mn(p, 1, 0, 1, 1, 1, 0, 0));
    lemma_tm(p, 3, 0, 0, 1, 1, 0, 0, 0, 1, 0, 1, 0, 1, 0, 0, 0);
    assert(t2 * s1 == (3) * mn(p, 0, 1, 1, 2, 0, 0, 0));
    assert(t2 * q == (3) * mn(p, 1, 0, 1, 1, 1, 0, 0) + (3) * mn(p, 0, 1, 1, 2, 0, 0, 0));
    lemma_tm(p, -3, 0, 0, 1, 0, 0, 1, 1, 1, 1, 0, 0, 0, 1, 0, 0);
    assert(t3 * s0 == (-3) * mn(p, 1, 0, 1, 0, 1, 1, 1));
    lemma_tm(p, -3, 0, 0, 1, 0, 0, 1, 1, 1, 0, 1, 0, 1, 0, 0, 0);
    assert(t3 * s1 == (-3) * mn(p, 0, 1, 1, 1, 0, 1, 1));
    assert(t3 * q == (-3) * mn(p, 1, 0, 1, 0, 1, 1, 1) + (-3) * mn(p, 0, 1, 1, 1, 0, 1, 1));
    assert(pp3 * q == (3) * mn(p, 2, 0, 0, 0, 1, 1, 0) + (3) * mn(p, 1, 1, 0, 1, 0, 1, 0) + (1) * mn(p, 1, 1, 0, 0, 2, 0, 0) + (3) * mn(p, 1, 0, 1, 1, 1, 0, 0) + (-3) * mn(p, 1, 0, 1, 0, 1, 1, 1) + (1) * mn(p, 0, 2, 0, 1, 1, 0, 0) + (3) * mn(p, 0, 1, 1, 2, 0, 0, 0) + (-3) * mn(p, 0, 1, 1, 1, 0, 1, 1));
}

#[verifier::rlimit(100)]
proof fn am1_prod9(p: Pt)
    ensures
        ((1) * mn(p, 0, 1, 0, 0, 0, 1, 0) + (1) * mn(p, 0, 0, 1, 0, 1, 0, 0)) * ((-3) * mn(p, 1, 0, 0, 1, 0, 0, 0) + (3) * mn(p, 1, 0, 0, 0, 0, 1, 1) + (3) * mn(p, 0, 0, 1, 1, 0, 0, 1) + (-9) * mn(p, 0, 0, 1, 0, 0, 1, 0)) == (-3) * mn(p, 1, 1, 0, 1, 0, 1, 0) + (3) * mn(p, 1, 1, 0, 0, 0, 2, 1) + (-3) * mn(p, 1, 0, 1, 1, 1, 0, 0) + (3) * mn(p, 1, 0, 1, 0, 1, 1, 1) + (3) * mn(p, 0, 1, 1, 1, 0, 1, 1) + (-9) * mn(p, 0, 1, 1, 0, 0, 2, 0) + (3) * mn(p, 0, 0, 2, 1, 1, 0, 1) + (-9) * mn(p, 0, 0, 2, 0, 1, 1, 0),
{
    let t0 = (1) * mn(p, 0, 1, 0, 0, 0, 1, 0);
    let t1 = (1) * mn(p, 0, 0, 1, 0, 1, 0, 0);
    let s0 = (-3) * mn(p, 1, 0, 0, 1, 0, 0, 0);
    let s1 = (3) * mn(p, 1, 0, 0, 0, 0, 1, 1);
    let s2 = (3) * mn(p, 0, 0, 1, 1, 0, 0, 1);
    let s3 = (-9) * mn(p, 0, 0, 1, 0, 0, 1, 0);
    let pp0 = t0;
    let pp1 = pp0 + t1;
    let qq0 = s0;
    let qq1 = qq0 + s1;
    let qq2 = qq1 + s2;
    let qq3 = qq2 + s3;
    let q = qq3;
    lemma_mul_is_distributive_add_other_way(q, pp0, t1);
    lemma_mul_is_distributive_add(t0, qq0, s1);
    lemma_mul_is_distributive_add(t0, qq1, s2);
    lemma_mul_is_distributive_add(t0, qq2, s3);
    lemma_mul_is_distributive_add(t1, qq0, s1);
    lemma_mul_is_distributive_add(t1, qq1, s2);
    lemma_mul_is_distributive_add(t1, qq2, s3);
    lemma_tm(p, 1, 0, 1, 0, 0, 0, 1, 0, -3, 1, 0, 0, 1, 0, 0, 0);
    assert(t0 * s0 == (-3) * mn(p, 1, 1, 0, 1, 0, 1, 0));
    lemma_tm(p, 1, 0, 1, 0, 0, 0, 1, 0, 3, 1, 0, 0, 0, 0, 1, 1);
    assert(t0 * s1 == (3) * mn(p, 1, 1, 0, 0, 0, 2, 1));
    lemma_tm(p, 1, 0, 1, 0, 0, 0, 1, 0, 3, 0, 0, 1, 1, 0, 0, 1);
    assert(t0 * s2 == (3) * mn(p, 0, 1, 1, 1, 0, 1, 1));
    lemma_tm(p, 1, 0, 1, 0, 0, 0, 1, 0, -9, 0, 0, 1, 0, 0, 1, 0);
    assert(t0 * s3 == (-9) * mn(p, 0, 1, 1, 0, 0, 2, 0));
    assert(t0 * q == (-3) * mn(p, 1, 1, 0, 1, 0, 1, 0) + (3) * mn(p, 1, 1, 0, 0, 0, 2, 1) + (3) * mn(p, 0, 1, 1, 1, 0, 1, 1) + (-9) * mn(p, 0, 1, 1, 0, 0, 2, 0));
    lemma_tm(p, 1, 0, 0, 1, 0, 1, 0, 0, -3, 1, 0, 0, 1, 0, 0, 0);
    assert(t1 * s0 == (-3) * mn(p, 1, 0, 1, 1, 1, 0, 0));
    lemma_tm(p, 1, 0, 0, 1, 0, 1, 0, 0, 3, 1, 0, 0, 0, 0, 1, 1);
    assert(t1 * s1 == (3) * mn(p, 1, 0, 1, 0, 1, 1, 1));
    lemma_tm(p, 1, 0, 0, 1, 0, 1, 0, 0, 3, 0, 0, 1, 1, 0, 0, 1);
    assert(t1 * s2 == (3) * mn(p, 0, 0, 2, 1, 1, 0, 1));
    lemma_tm(p, 1, 0, 0, 1, 0, 1, 0, 0, -9, 0, 0, 1, 0, 0, 1, 0);
    assert(t1 * s3 == (-9) * mn(p, 0, 0, 2, 0, 1, 1, 0));
    assert(t1 * q == (-3) * mn(p, 1, 0, 1, 1, 1, 0, 0) + (3) * mn(p, 1, 0, 1, 0, 1, 1, 1) + (3) * mn(p, 0, 0, 2, 1, 1, 0, 1) + (-9) * mn(p, 0, 0, 2, 0, 1, 1, 0));
    assert(pp1 * q == (-3) * mn(p, 1, 1, 0, 1, 0, 1, 0) + (3) * mn(p, 1, 1, 0, 0, 0, 2, 1) + (-3) * mn(p, 1, 0, 1, 1, 1, 0, 0) + (3) * mn(p, 1, 0, 1, 0, 1, 1, 1) + (3) * mn(p, 0, 1, 1, 1, 0, 1, 1) + (-9) * mn(p, 0, 1, 1, 0, 0, 2, 0) + (3) * mn(p, 0, 0, 2, 1, 1, 0, 1) + (-9) * mn(p, 0, 0, 2, 0, 1, 1, 0));
}

#[verifier::rlimit(100)]
proof fn am1_prod10(p: Pt)
    ensures
        ((3) * mn(p, 1, 0, 0, 0, 0, 1, 0) + (1) * mn(p, 0, 1, 0, 0, 1, 0, 0) + (3) * mn(p, 0, 0, 1, 1, 0, 0, 0) + (-3) * mn(p, 0, 0, 1, 0, 0, 1, 1)) * ((-3) * mn(p, 1, 0, 0, 0, 0, 1, 0) + (1) * mn(p, 0, 1, 0, 0, 1, 0, 0) + (-3) * mn(p, 0, 0, 1, 1, 0, 0, 0) + (3) * mn(p, 0, 0, 1, 0, 0, 1, 1)) == (-9) * mn(p, 2, 0, 0, 0, 0, 2, 0) + (-18) * mn(p, 1, 0, 1, 1, 0, 1, 0) + (18) * mn(p, 1, 0, 1, 0, 0, 2, 1) + (1) * mn(p, 0, 2, 0, 0, 2, 0, 0) + (-9) * mn(p, 0, 0, 2, 2, 0, 0, 0) + (18) * mn(p, 0, 0, 2, 1, 0, 1, 1) + (-9) * mn(p, 0, 0, 2, 0, 0, 2, 2),
{
    let t0 = (3) * mn(p, 1, 0, 0, 0, 0, 1, 0);
    let t1 = (1) * mn(p, 0, 1, 0, 0, 1, 0, 0);
    let t2 = (3) * mn(p, 0, 0, 1, 1, 0, 0, 0);
    let t3 = (-3) * mn(p, 0, 0, 1, 0, 0, 1, 1);
    let s0 = (-3) * mn(p, 1, 0, 0, 0, 0, 1, 0);
    let s1 = (1) * mn(p, 0, 1, 0, 0, 1, 0, 0);
    let s2 = (-3) * mn(p, 0, 0, 1, 1, 0, 0, 0);
    let s3 = (3) * mn(p, 0, 0, 1, 0, 0, 1, 1);
    let pp0 = t0;
    let pp1 = pp0 + t1;
    let pp2 = pp1 + t2;
    let pp3 = pp2 + t3;
    let qq0 = s0;
    let qq1 = qq0 + s1;
    let qq2 = qq1 + s2;
    let qq3 = qq2 + s3;
    let q = qq3;
    lemma_mul_is_distributive_add_other_way(q, pp0, t1);
    lemma_mul_is_distributive_add_other_way(q, pp1, t2);
    lemma_mul_is_distributive_add_other_way(q, pp2, t3);
    lemma_mul_is_distributive_add(t0, qq0, s1);
    lemma_mul_is_distributive_add(t0, qq1, s2);
    lemma_mul_is_distributive_add(t0, qq2, s3);
    lemma_mul_is_distributive_add(t1, qq0, s1);
    lemma_mul_is_distributive_add(t1, qq1, s2);
    lemma_mul_is_distributive_add(t1, qq2, s3);
    lemma_mul_is_distributive_add(t2, qq0, s1);
    lemma_mul_is_distributive_add(t2, qq1, s2);
    lemma_mul_is_distributive_add(t2, qq2, s3);
    lemma_mul_is_distributive_add(t3, qq0, s1);
    lemma_mul_is_distributive_add(t3, qq1, s2);
    lemma_mul_is_distributive_add(t3, qq2, s3);
    lemma_tm(p, 3, 1, 0, 0, 0, 0, 1, 0, -3, 1, 0, 0, 0, 0, 1, 0);
    assert(t0 * s0 == (-9) * mn(p, 2, 0, 0, 0, 0, 2, 0));
    lemma_tm(p, 3, 1, 0, 0, 0, 0, 1, 0, 1, 0, 1, 0, 0, 1, 0, 0);
    assert(t0 * s1 == (3) * mn(p, 1, 1, 0, 0, 1, 1, 0));
    lemma_tm(p, 3, 1, 0, 0, 0, 0, 1, 0, -3, 0, 0, 1, 1, 0, 0, 0);
    assert(t0 * s2 == (-9) * mn(p, 1, 0, 1, 1, 0, 1, 0));
    lemma_tm(p, 3, 1, 0, 0, 0, 0, 1, 0, 3, 0, 0, 1, 0, 0, 1, 1);
    assert(t0 * s3 == (9) * mn(p, 1, 0, 1, 0, 0, 2, 1));
    assert(t0 * q == (-9) * mn(p, 2, 0, 0, 0, 0, 2, 0) + (3) * mn(p, 1, 1, 0, 0, 1, 1, 0) + (-9) * mn(p, 1, 0, 1, 1, 0, 1, 0) + (9) * mn(p, 1, 0, 1, 0, 0, 2, 1));
    lemma_tm(p, 1, 0, 1, 0, 0, 1, 0, 0, -3, 1, 0, 0, 0, 0, 1, 0);
    assert(t1 * s0 == (-3) * mn(p, 1, 1, 0, 0, 1, 1, 0));
    lemma_tm(p, 1, 0, 1, 0, 0, 1, 0, 0, 1, 0, 1, 0, 0, 1, 0, 0);
    assert(t1 * s1 == (1) * mn(p, 0, 2, 0, 0, 2, 0, 0));
    lemma_tm(p, 1, 0, 1, 0, 0, 1, 0, 0, -3, 0, 0, 1, 1, 0, 0, 0);
    assert(t1 * s2 == (-3) * mn(p, 0, 1, 1, 1, 1, 0, 0));
    lemma_tm(p, 1, 0, 1, 0, 0, 1, 0, 0, 3, 0, 0, 1, 0, 0, 1, 1);
    assert(t1 * s3 == (3) * mn(p, 0, 1, 1, 0, 1, 1, 1));
    assert(t1 * q == (-3) * mn(p, 1, 1, 0, 0, 1, 1, 0) + (1) * mn(p, 0, 2, 0, 0, 2, 0, 0) + (-3) * mn(p, 0, 1, 1, 1, 1, 0, 0) + (3) * mn(p, 0, 1, 1, 0, 1, 1, 1));
    lemma_tm(p, 3, 0, 0, 1, 1, 0, 0, 0, -3, 1, 0, 0, 0, 0, 1, 0);
    assert(t2 * s0 == (-9) * mn(p, 1, 0, 1, 1, 0, 1, 0));
    lemma_tm(p, 3, 0, 0, 1, 1, 0, 0, 0, 1, 0, 1, 0, 0, 1, 0, 0);
    assert(t2 * s1 == (3) * mn(p, 0, 1, 1, 1, 1, 0, 0));
    lemma_tm(p, 3, 0, 0, 1, 1, 0, 0, 0, -3, 0, 0, 1, 1, 0, 0, 0);
    assert(t2 * s2 == (-9) * mn(p, 0, 0, 2, 2, 0, 0, 0));
    lemma_tm(p, 3, 0, 0, 1, 1, 0, 0, 0, 3, 0, 0, 1, 0, 0, 1, 1);
    assert(t2 * s3 == (9) * mn(p, 0, 0, 2, 1, 0, 1, 1));
    assert(t2 * q == (-9) * mn(p, 1, 0, 1, 1, 0, 1, 0) + (3) * mn(p, 0, 1, 1, 1, 1, 0, 0) + (-9) * mn(p, 0, 0, 2, 2, 0, 0, 0) + (9) * mn(p, 0, 0, 2, 1, 0, 1, 1));
    lemma_tm(p, -3, 0, 0, 1, 0, 0, 1, 1, -3, 1, 0, 0, 0, 0, 1, 0);
    assert(t3 * s0 == (9) * mn(p, 1, 0, 1, 0, 0, 2, 1));
    lemma_tm(p, -3, 0, 0, 1, 0, 0, 1, 1, 1, 0, 1, 0, 0, 1, 0, 0);
    assert(t3 * s1 == (-3) * mn(p, 0, 1, 1, 0, 1, 1, 1));
    lemma_tm(p, -3, 0, 0, 1, 0, 0, 1, 1, -3, 0, 0, 1, 1, 0, 0, 0);
    assert(t3 * s2 == (9) * mn(p, 0, 0, 2, 1, 0, 1, 1));
    lemma_tm(p, -3, 0, 0, 1, 0, 0, 1, 1, 3, 0, 0, 1, 0, 0, 1, 1);
    assert(t3 * s3 == (-9) * mn(p, 0, 0, 2, 0, 0, 2, 2));
    assert(t3 * q == (9) * mn(p, 1, 0, 1, 0, 0, 2, 1) + (-3) * mn(p, 0, 1, 1, 0, 1, 1, 1) + (9) * mn(p, 0, 0, 2, 1, 0, 1, 1) + (-9) * mn(p, 0, 0, 2, 0, 0, 2, 2));
    assert(pp3 * q == (-9) * mn(p, 2, 0, 0, 0, 0, 2, 0) + (-18) * mn(p, 1, 0, 1, 1, 0, 1, 0) + (18) * mn(p, 1, 0, 1, 0, 0, 2, 1) + (1) * mn(p, 0, 2, 0, 0, 2, 0, 0) + (-9) * mn(p, 0, 0, 2, 2, 0, 0, 0) + (18) * mn(p, 0, 0, 2, 1, 0, 1, 1) + (-9) * mn(p, 0, 0, 2, 0, 0, 2, 2));
}

#[verifier::rlimit(100)]
proof fn am1_prod11(p: Pt)
    ensures
        ((3) * mn(p, 1, 0, 0, 1, 0, 0, 0) + (-3) * mn(p, 0, 0, 1, 0, 0, 1, 0)) * ((-3) * mn(p, 1, 0, 0, 1, 0, 0, 0) + (3) * mn(p, 1, 0, 0, 0, 0, 1, 1) + (3) * mn(p, 0, 0, 1, 1, 0, 0, 1) + (-9) * mn(p, 0, 0, 1, 0, 0, 1, 0)) == (-9) * mn(p, 2, 0, 0, 2, 0, 0, 0) + (9) * mn(p, 2, 0, 0, 1, 0, 1, 1) + (9) * mn(p, 1, 0, 1, 2, 0, 0, 1) + (-18) * mn(p, 1, 0, 1, 1, 0, 1, 0) + (-9) * mn(p, 1, 0, 1, 0, 0, 2, 1) + (-9) * mn(p, 0, 0, 2, 1, 0, 1, 1) + (27) * mn(p, 0, 0, 2, 0, 0, 2, 0),
{
    let t0 = (3) * mn(p, 1, 0, 0, 1, 0, 0, 0);
    let t1 = (-3) * mn(p, 0, 0, 1, 0, 0, 1, 0);
    let s0 = (-3) * mn(p, 1, 0, 0, 1, 0, 0, 0);
    let s1 = (3) * mn(p, 1, 0, 0, 0, 0, 1, 1);
    let s2 = (3) * mn(p, 0, 0, 1, 1, 0, 0, 1);
    let s3 = (-9) * mn(p, 0, 0, 1, 0, 0, 1, 0);
    let pp0 = t0;
    let pp1 = pp0 + t1;
    let qq0 = s0;
    let qq1 = qq0 + s1;
    let qq2 = qq1 + s2;
    let qq3 = qq2 + s3;
    let q = qq3;
    lemma_mul_is_distributive_add_other_way(q, pp0, t1);
    lemma_mul_is_distributive_add(t0, qq0, s1);
    lemma_mul_is_distributive_add(t0, qq1, s2);
    lemma_mul_is_distributive_add(t0, qq2, s3);
    lemma_mul_is_distributive_add(t1, qq0, s1);
    lemma_mul_is_distributive_add(t1, qq1, s2);
    lemma_mul_is_distributive_add(t1, qq2, s3);
    lemma_tm(p, 3, 1, 0, 0, 1, 0, 0, 0, -3, 1, 0, 0, 1, 0, 0, 0);
    assert(t0 * s0 == (-9) * mn(p, 2, 0, 0, 2, 0, 0, 0));
    lemma_tm(p, 3, 1, 0, 0, 1, 0, 0, 0, 3, 1, 0, 0, 0, 0, 1, 1);
    assert(t0 * s1 == (9) * mn(p, 2, 0, 0, 1, 0, 1, 1));
    lemma_tm(p, 3, 1, 0, 0, 1, 0, 0, 0, 3, 0, 0, 1, 1, 0, 0, 1);
    assert(t0 * s2 == (9) * mn(p, 1, 0, 1, 2, 0, 0, 1));
    lemma_tm(p, 3, 1, 0, 0, 1, 0, 0, 0, -9, 0, 0, 1, 0, 0, 1, 0);
    assert(t0 * s3 == (-27) * mn(p, 1, 0, 1, 1, 0, 1, 0));
    assert(t0 * q == (-9) * mn(p, 2, 0, 0, 2, 0, 0, 0) + (9) * mn(p, 2, 0, 0, 1, 0, 1, 1) + (9) * mn(p, 1, 0, 1, 2, 0, 0, 1) + (-27) * mn(p, 1, 0, 1, 1, 0, 1, 0));
    lemma_tm(p, -3, 0, 0, 1, 0, 0, 1, 0, -3, 1, 0, 0, 1, 0, 0, 0);
    assert(t1 * s0 == (9) * mn(p, 1, 0, 1, 1, 0, 1, 0));
    lemma_tm(p, -3, 0, 0, 1, 0, 0, 1, 0, 3, 1, 0, 0, 0, 0, 1, 1);
    assert(t1 * s1 == (-9) * mn(p, 1, 0, 1, 0, 0, 2, 1));
    lemma_tm(p, -3, 0, 0, 1, 0, 0, 1, 0, 3, 0, 0, 1, 1, 0, 0, 1);
    assert(t1 * s2 == (-9) * mn(p, 0, 0, 2, 1, 0, 1, 1));
    lemma_tm(p, -3, 0, 0, 1, 0, 0, 1, 0, -9, 0, 0, 1, 0, 0, 1, 0);
    assert(t1 * s3 == (27) * mn(p, 0, 0, 2, 0, 0, 2, 0));
    assert(t1 * q == (9) * mn(p, 1, 0, 1, 1, 0, 1, 0) + (-9) * mn(p, 1, 0, 1, 0, 0, 2, 1) + (-9) * mn(p, 0, 0, 2, 1, 0, 1, 1) + (27) * mn(p, 0, 0, 2, 0, 0, 2, 0));
    assert(pp1 * q == (-9) * mn(p, 2, 0, 0, 2, 0, 0, 0) + (9) * mn(p, 2, 0, 0, 1, 0, 1, 1) + (9) * mn(p, 1, 0, 1, 2, 0, 0, 1) + (-18) * mn(p, 1, 0, 1, 1, 0, 1, 0) + (-9) * mn(p, 1, 0, 1, 0, 0, 2, 1) + (-9) * mn(p, 0, 0, 2, 1, 0, 1, 1) + (27) * mn(p, 0, 0, 2, 0, 0, 2, 0));
}

#[verifier::rlimit(100)]
proof fn am1_prod12(p: Pt)
    ensures
        ((-3) * mn(p, 1, 0, 0, 0, 0, 1, 0) + (1) * mn(p, 0, 1, 0, 0, 1, 0, 0) + (-3) * mn(p, 0, 0, 1, 1, 0, 0, 0) + (3) * mn(p, 0, 0, 1, 0, 0, 1, 1)) * ((1) * mn(p, 0, 1, 0, 0, 0, 1, 0) + (1) * mn(p, 0, 0, 1, 0, 1, 0, 0)) == (-3) * mn(p, 1, 1, 0, 0, 0, 2, 0) + (-3) * mn(p, 1, 0, 1, 0, 1, 1, 0) + (1) * mn(p, 0, 2, 0, 0, 1, 1, 0) + (-3) * mn(p, 0, 1, 1, 1, 0, 1, 0) + (1) * mn(p, 0, 1, 1, 0, 2, 0, 0) + (3) * mn(p, 0, 1, 1, 0, 0, 2, 1) + (-3) * mn(p, 0, 0, 2, 1, 1, 0, 0) + (3) * mn(p, 0, 0, 2, 0, 1, 1, 1),
{
    let t0 = (-3) * mn(p, 1, 0, 0, 0, 0, 1, 0);
    let t1 = (1) * mn(p, 0, 1, 0, 0, 1, 0, 0);
    let t2 = (-3) * mn(p, 0, 0, 1, 1, 0, 0, 0);
    let t3 = (3) * mn(p, 0, 0, 1, 0, 0, 1, 1);
    let s0 = (1) * mn(p, 0, 1, 0, 0, 0, 1, 0);
    let s1 = (1) * mn(p, 0, 0, 1, 0, 1, 0, 0);
    let pp0 = t0;
    let pp1 = pp0 + t1;
    let pp2 = pp1 + t2;
    let pp3 = pp2 + t3;
    let qq0 = s0;
    let qq1 = qq0 + s1;
    let q = qq1;
    lemma_mul_is_distributive_add_other_way(q, pp0, t1);
    lemma_mul_is_distributive_add_other_way(q, pp1, t2);
    lemma_mul_is_distributive_add_other_way(q, pp2, t3);
    lemma_mul_is_distributive_add(t0, qq0, s1);
    lemma_mul_is_distributive_add(t1, qq0, s1);
    lemma_mul_is_distributive_add(t2, qq0, s1);
    lemma_mul_is_distributive_add(t3, qq0, s1);
    lemma_tm(p, -3, 1, 0, 0, 0, 0, 1, 0, 1, 0, 1, 0, 0, 0, 1, 0);
    assert(t0 * s0 == (-3) * mn(p, 1, 1, 0, 0, 0, 2, 0));
    lemma_tm(p, -3, 1, 0, 0, 0, 0, 1, 0, 1, 0, 0, 1, 0, 1, 0, 0);
    assert(t0 * s1 == (-3) * mn(p, 1, 0, 1, 0, 1, 1, 0));
    assert(t0 * q == (-3) * mn(p, 1, 1, 0, 0, 0, 2, 0) + (-3) * mn(p, 1, 0, 1, 0, 1, 1, 0));
    lemma_tm(p, 1, 0, 1, 0, 0, 1, 0, 0, 1, 0, 1, 0, 0, 0, 1, 0);
    assert(t1 * s0 == (1) * mn(p, 0, 2, 0, 0, 1, 1, 0));
    lemma_tm(p, 1, 0, 1, 0, 0, 1, 0, 0, 1, 0, 0, 1, 0, 1, 0, 0);
    assert(t1 * s1 == (1) * mn(p, 0, 1, 1, 0, 2, 0, 0));
    assert(t1 * q == (1) * mn(p, 0, 2, 0, 0, 1, 1, 0) + (1) * mn(p, 0, 1, 1, 0, 2, 0, 0));
    lemma_tm(p, -3, 0, 0, 1, 1, 0, 0, 0, 1, 0, 1, 0, 0, 0, 1, 0);
    assert(t2 * s0 == (-3) * mn(p, 0, 1, 1, 1, 0, 1, 0));
    lemma_tm(p, -3, 0, 0, 1, 1, 0, 0, 0, 1, 0, 0, 1, 0, 1, 0, 0);
    assert(t2 * s1 == (-3) * mn(p, 0, 0, 2, 1, 1, 0, 0));
    assert(t2 * q == (-3) * mn(p, 0, 1, 1, 1, 0, 1, 0) + (-3) * mn(p, 0, 0, 2, 1, 1, 0, 0));
    lemma_tm(p, 3, 0, 0, 1, 0, 0, 1, 1, 1, 0, 1, 0, 0, 0, 1, 0);
    assert(t3 * s0 == (3) * mn(p, 0, 1, 1, 0, 0, 2, 1));
    lemma_tm(p, 3, 0, 0, 1, 0, 0, 1, 1, 1, 0, 0, 1, 0, 1, 0, 0);
    assert(t3 * s1 == (3) * mn(p, 0, 0, 2, 0, 1, 1, 1));
    assert(t3 * q == (3) * mn(p, 0, 1, 1, 0, 0, 2, 1) + (3) * mn(p, 0, 0, 2, 0, 1, 1, 1));
    assert(pp3 * q == (-3) * mn(p, 1, 1, 0, 0, 0, 2, 0) + (-3) * mn(p, 1, 0, 1, 0, 1, 1, 0) + (1) * mn(p, 0, 2, 0, 0, 1, 1, 0) + (-3) * mn(p, 0, 1, 1, 1, 0, 1, 0) + (1) * mn(p, 0, 1, 1, 0, 2, 0, 0) + (3) * mn(p, 0, 1, 1, 0, 0, 2, 1) + (-3) * mn(p, 0, 0, 2, 1, 1, 0, 0) + (3) * mn(p, 0, 0, 2, 0, 1, 1, 1));
}

#[verifier::rlimit(100)]
proof fn am1_prod13(p: Pt)
    ensures
        ((1) * mn(p, 1, 0, 0, 0, 1, 0, 0) + (1) * mn(p, 0, 1, 0, 1, 0, 0, 0)) * ((3) * mn(p, 1, 0, 0, 1, 0, 0, 0) + (-3) * mn(p, 0, 0, 1, 0, 0, 1, 0)) == (3) * mn(p, 2, 0, 0, 1, 1, 0, 0) + (3) * mn(p, 1, 1, 0, 2, 0, 0, 0) + (-3) * mn(p, 1, 0, 1, 0, 1, 1, 0) + (-3) * mn(p, 0, 1, 1, 1, 0, 1, 0),
{
    let t0 = (1) * mn(p, 1, 0, 0, 0, 1, 0, 0);
    let t1 = (1) * mn(p, 0, 1, 0, 1, 0, 0, 0);
    let s0 = (3) * mn(p, 1, 0, 0, 1, 0, 0, 0);
    let s1 = (-3) * mn(p, 0, 0, 1, 0, 0, 1, 0);
    let pp0 = t0;
    let pp1 = pp0 + t1;
    let qq0 = s0;
    let qq1 = qq0 + s1;
    let q = qq1;
    lemma_mul_is_distributive_add_other_way(q, pp0, t1);
    lemma_mul_is_distributive_add(t0, qq0, s1);
    lemma_mul_is_distributive_add(t1, qq0, s1);
    lemma_tm(p, 1, 1, 0, 0, 0, 1, 0, 0, 3, 1, 0, 0, 1, 0, 0, 0);
    assert(t0 * s0 == (3) * mn(p, 2, 0, 0, 1, 1, 0, 0));
    lemma_tm(p, 1, 1, 0, 0, 0, 1, 0, 0, -3, 0, 0, 1, 0, 0, 1, 0);
    assert(t0 * s1 == (-3) * mn(p, 1, 0, 1, 0, 1, 1, 0));
    assert(t0 * q == (3) * mn(p, 2, 0, 0, 1, 1, 0, 0) + (-3) * mn(p, 1, 0, 1, 0, 1, 1, 0));
    lemma_tm(p, 1, 0, 1, 0, 1, 0, 0, 0, 3, 1, 0, 0, 1, 0, 0, 0);
    assert(t1 * s0 == (3) * mn(p, 1, 1, 0, 2, 0, 0, 0));
    lemma_tm(p, 1, 0, 1, 0, 1, 0, 0, 0, -3, 0, 0, 1, 0, 0, 1, 0);
    assert(t1 * s1 == (-3) * mn(p, 0, 1, 1, 1, 0, 1, 0));
    assert(t1 * q == (3) * mn(p, 1, 1, 0, 2, 0, 0, 0) + (-3) * mn(p, 0, 1, 1, 1, 0, 1, 0));
    assert(pp1 * q == (3) * mn(p, 2, 0, 0, 1, 1, 0, 0) + (3) * mn(p, 1, 1, 0, 2, 0, 0, 0) + (-3) * mn(p, 1, 0, 1, 0, 1, 1, 0) + (-3) * mn(p, 0, 1, 1, 1, 0, 1, 0));
}

#[verifier::rlimit(100)]
proof fn am1_prod14(p: Pt)
    ensures
        ((1) * mn(p, 0, 0, 0, 0, 1, 0, 0)) * ((1) * mn(p, 0, 0, 1, 0, 0, 0, 0)) == (1) * mn(p, 0, 0, 1, 0, 1, 0, 0),
{
    let t0 = (1) * mn(p, 0, 0, 0, 0, 1, 0, 0);
    let s0 = (1) * mn(p, 0, 0, 1, 0, 0, 0, 0);
    let pp0 = t0;
    let qq0 = s0;
    let q = qq0;
    lemma_tm(p, 1, 0, 0, 0, 0, 1, 0, 0, 1, 0, 0, 1, 0, 0, 0, 0);
    assert(t0 * s0 == (1) * mn(p, 0, 0, 1, 0, 1, 0, 0));
    assert(t0 * q == (1) * mn(p, 0, 0, 1, 0, 1, 0, 0));
    assert(pp0 * q == (1) * mn(p, 0, 0, 1, 0, 1, 0, 0));
}

#[verifier::rlimit(100)]
proof fn am1_prod15(p: Pt)
    ensures
        ((1) * mn(p, 0, 1, 0, 0, 0, 0, 0)) * ((1) * mn(p, 0, 0, 0, 0, 0, 1, 0)) == (1) * mn(p, 0, 1, 0, 0, 0, 1, 0),
{
    let t0 = (1) * mn(p, 0, 1, 0, 0, 0, 0, 0);
    let s0 = (1) * mn(p, 0, 0, 0, 0, 0, 1, 0);
    let pp0 = t0;
    let qq0 = s0;
    let q = qq0;
    lemma_tm(p, 1, 0, 1, 0, 0, 0, 0, 0, 1, 0, 0, 0, 0, 0, 1, 0);
    assert(t0 * s0 == (1) * mn(p, 0, 1, 0, 0, 0, 1, 0));
    assert(t0 * q == (1) * mn(p, 0, 1, 0, 0, 0, 1, 0));
    assert(pp0 * q == (1) * mn(p, 0, 1, 0, 0, 0, 1, 0));
}

#[verifier::rlimit(100)]
proof fn am1_prod16(p: Pt)
    ensures
        ((1) * mn(p, 0, 0, 0, 1, 0, 0, 0)) * ((1) * mn(p, 0, 0, 1, 0, 0, 0, 0)) == (1) * mn(p, 0, 0, 1, 1, 0, 0, 0),
{
    let t0 = (1) * mn(p, 0, 0, 0, 1, 0, 0, 0);
    let s0 = (1) * mn(p, 0, 0, 1, 0, 0, 0, 0);
    let pp0 = t0;
    let qq0 = s0;
    let q = qq0;
    lemma_tm(p, 1, 0, 0, 0, 1, 0, 0, 0, 1, 0, 0, 1, 0, 0, 0, 0);
    assert(t0 * s0 == (1) * mn(p, 0, 0, 1, 1, 0, 0, 0));
    assert(t0 * q == (1) * mn(p, 0, 0, 1, 1, 0, 0, 0));
    assert(pp0 * q == (1) * mn(p, 0, 0, 1, 1, 0, 0, 0));
}

#[verifier::rlimit(100)]
proof fn am1_prod17(p: Pt)
    ensures
        ((1) * mn(p, 1, 0, 0, 0, 0, 0, 0)) * ((1) * mn(p, 0, 0, 0, 0, 0, 1, 0)) == (1) * mn(p, 1, 0, 0, 0, 0, 1, 0),
{
    let t0 = (1) * mn(p, 1, 0, 0, 0, 0, 0, 0);
    let s0 = (1) * mn(p, 0, 0, 0, 0, 0, 1, 0);
    let pp0 = t0;
    let qq0 = s0;
    let q = qq0;
    lemma_tm(p, 1, 1, 0, 0, 0, 0, 0, 0, 1, 0, 0, 0, 0, 0, 1, 0);
    assert(t0 * s0 == (1) * mn(p, 1, 0, 0, 0, 0, 1, 0));
    assert(t0 * q == (1) * mn(p, 1, 0, 0, 0, 0, 1, 0));
    assert(pp0 * q == (1) * mn(p, 1, 0, 0, 0, 0, 1, 0));
}

#[verifier::rlimit(100)]
proof fn am1_prod18(p: Pt)
    ensures
        ((-1) * mn(p, 0, 1, 0, 0, 0, 1, 0) + (1) * mn(p, 0, 0, 1, 0, 1, 0, 0)) * ((-1) * mn(p, 0, 1, 0, 0, 0, 1, 0) + (1) * mn(p, 0, 0, 1, 0, 1, 0, 0)) == (1) * mn(p, 0, 2, 0, 0, 0, 2, 0) + (-2) * mn(p, 0, 1, 1, 0, 1, 1, 0) + (1) * mn(p, 0, 0, 2, 0, 2, 0, 0),
{
    let t0 = (-1) * mn(p, 0, 1, 0, 0, 0, 1, 0);
    let t1 = (1) * mn(p, 0, 0, 1, 0, 1, 0, 0);
    let s0 = (-1) * mn(p, 0, 1, 0, 0, 0, 1, 0);
    let s1 = (1) * mn(p, 0, 0, 1, 0, 1, 0, 0);
    let pp0 = t0;
    let pp1 = pp0 + t1;
    let qq0 = s0;
    let qq1 = qq0 + s1;
    let q = qq1;
    lemma_mul_is_distributive_add_other_way(q, pp0, t1);
    lemma_mul_is_distributive_add(t0, qq0, s1);
    lemma_mul_is_distributive_add(t1, qq0, s1);
    lemma_tm(p, -1, 0, 1, 0, 0, 0, 1, 0, -1, 0, 1, 0, 0, 0, 1, 0);
    assert(t0 * s0 == (1) * mn(p, 0, 2, 0, 0, 0, 2, 0));
    lemma_tm(p, -1, 0, 1, 0, 0, 0, 1, 0, 1, 0, 0, 1, 0, 1, 0, 0);
    assert(t0 * s1 == (-1) * mn(p, 0, 1, 1, 0, 1, 1, 0));
    assert(t0 * q == (1) * mn(p, 0, 2, 0, 0, 0, 2, 0) + (-1) * mn(p, 0, 1, 1, 0, 1, 1, 0));
    lemma_tm(p, 1, 0, 0, 1, 0, 1, 0, 0, -1, 0, 1, 0, 0, 0, 1, 0);
    assert(t1 * s0 == (-1) * mn(p, 0, 1, 1, 0, 1, 1, 0));
    lemma_tm(p, 1, 0, 0, 1, 0, 1, 0, 0, 1, 0, 0, 1, 0, 1, 0, 0);
    assert(t1 * s1 == (1) * mn(p, 0, 0, 2, 0, 2, 0, 0));
    assert(t1 * q == (-1) * mn(p, 0, 1, 1, 0, 1, 1, 0) + (1) * mn(p, 0, 0, 2, 0, 2, 0, 0));
    assert(pp1 * q == (1) * mn(p, 0, 2, 0, 0, 0, 2, 0) + (-2) * mn(p, 0, 1, 1, 0, 1, 1, 0) + (1) * mn(p, 0, 0, 2, 0, 2, 0, 0));
}

#[verifier::rlimit(100)]
proof fn am1_prod19(p: Pt)
    ensures
        ((1) * mn(p, 0, 2, 0, 0, 0, 2, 0) + (-2) * mn(p, 0, 1, 1, 0, 1, 1, 0) + (1) * mn(p, 0, 0, 2, 0, 2, 0, 0)) * ((1) * mn(p, 0, 0, 1, 0, 0, 0, 0)) == (1) * mn(p, 0, 2, 1, 0, 0, 2, 0) + (-2) * mn(p, 0, 1, 2, 0, 1, 1, 0) + (1) * mn(p, 0, 0, 3, 0, 2, 0, 0),
{
    let t0 = (1) * mn(p, 0, 2, 0, 0, 0, 2, 0);
    let t1 = (-2) * mn(p, 0, 1, 1, 0, 1, 1, 0);
    let t2 = (1) * mn(p, 0, 0, 2, 0, 2, 0, 0);
    let s0 = (1) * mn(p, 0, 0, 1, 0, 0, 0, 0);
    let pp0 = t0;
    let pp1 = pp0 + t1;
    let pp2 = pp1 + t2;
    let qq0 = s0;
    let q = qq0;
    lemma_mul_is_distributive_add_other_way(q, pp0, t1);
    lemma_mul_is_distributive_add_other_way(q, pp1, t2);
    lemma_tm(p, 1, 0, 2, 0, 0, 0, 2, 0, 1, 0, 0, 1, 0, 0, 0, 0);
    assert(t0 * s0 == (1) * mn(p, 0, 2, 1, 0, 0, 2, 0));
    assert(t0 * q == (1) * mn(p, 0, 2, 1, 0, 0, 2, 0));
    lemma_tm(p, -2, 0, 1, 1, 0, 1, 1, 0, 1, 0, 0, 1, 0, 0, 0, 0);
    assert(t1 * s0 == (-2) * mn(p, 0, 1, 2, 0, 1, 1, 0));
    assert(t1 * q == (-2) * mn(p, 0, 1, 2, 0, 1, 1, 0));
    lemma_tm(p, 1, 0, 0, 2, 0, 2, 0, 0, 1, 0, 0, 1, 0, 0, 0, 0);
    assert(t2 * s0 == (1) * mn(p, 0, 0, 3, 0, 2, 0, 0));
    assert(t2 * q == (1) * mn(p, 0, 0, 3, 0, 2, 0, 0));
    assert(pp2 * q == (1) * mn(p, 0, 2, 1, 0, 0, 2, 0) + (-2) * mn(p, 0, 1, 2, 0, 1, 1, 0) + (1) * mn(p, 0, 0, 3, 0, 2, 0, 0));
}

#[verifier::rlimit(100)]
proof fn am1_prod20(p: Pt)
    ensures
        ((1) * mn(p, 0, 2, 1, 0, 0, 2, 0) + (-2) * mn(p, 0, 1, 2, 0, 1, 1, 0) + (1) * mn(p, 0, 0, 3, 0, 2, 0, 0)) * ((1) * mn(p, 0, 0, 0, 0, 0, 1, 0)) == (1) * mn(p, 0, 2, 1, 0, 0, 3, 0) + (-2) * mn(p, 0, 1, 2, 0, 1, 2, 0) + (1) * mn(p, 0, 0, 3, 0, 2, 1, 0),
{
    let t0 = (1) * mn(p, 0, 2, 1, 0, 0, 2, 0);
    let t1 = (-2) * mn(p, 0, 1, 2, 0, 1, 1, 0);
    let t2 = (1) * mn(p, 0, 0, 3, 0, 2, 0, 0);
    let s0 = (1) * mn(p, 0, 0, 0, 0, 0, 1, 0);
    let pp0 = t0;
    let pp1 = pp0 + t1;
    let pp2 = pp1 + t2;
    let qq0 = s0;
    let q = qq0;
    lemma_mul_is_distributive_add_other_way(q, pp0, t1);
    lemma_mul_is_distributive_add_other_way(q, pp1, t2);
    lemma_tm(p, 1, 0, 2, 1, 0, 0, 2, 0, 1, 0, 0, 0, 0, 0, 1, 0);
    assert(t0 * s0 == (1) * mn(p, 0, 2, 1, 0, 0, 3, 0));
    assert(t0 * q == (1) * mn(p, 0, 2, 1, 0, 0, 3, 0));
    lemma_tm(p, -2, 0, 1, 2, 0, 1, 1, 0, 1, 0, 0, 0, 0, 0, 1, 0);
    assert(t1 * s0 == (-2) * mn(p, 0, 1, 2, 0, 1, 2, 0));
    assert(t1 * q == (-2) * mn(p, 0, 1, 2, 0, 1, 2, 0));
    lemma_tm(p, 1, 0, 0, 3, 0, 2, 0, 0, 1, 0, 0, 0, 0, 0, 1, 0);
    assert(t2 * s0 == (1) * mn(p, 0, 0, 3, 0, 2, 1, 0));
    assert(t2 * q == (1) * mn(p, 0, 0, 3, 0, 2, 1, 0));
    assert(pp2 * q == (1) * mn(p, 0, 2, 1, 0, 0, 3, 0) + (-2) * mn(p, 0, 1, 2, 0, 1, 2, 0) + (1) * mn(p, 0, 0, 3, 0, 2, 1, 0));
}

#[verifier::rlimit(100)]
proof fn am1_prod21(p: Pt)
    ensures
        ((-1) * mn(p, 1, 0, 0, 0, 0, 1, 0) + (1) * mn(p, 0, 0, 1, 1, 0, 0, 0)) * ((-1) * mn(p, 1, 0, 0, 0, 0, 1, 0) + (1) * mn(p, 0, 0, 1, 1, 0, 0, 0)) == (1) * mn(p, 2, 0, 0, 0, 0, 2, 0) + (-2) * mn(p, 1, 0, 1, 1, 0, 1, 0) + (1) * mn(p, 0, 0, 2, 2, 0, 0, 0),
{
    let t0 = (-1) * mn(p, 1, 0, 0, 0, 0, 1, 0);
    let t1 = (1) * mn(p, 0, 0, 1, 1, 0, 0, 0);
    let s0 = (-1) * mn(p, 1, 0, 0, 0, 0, 1, 0);
    let s1 = (1) * mn(p, 0, 0, 1, 1, 0, 0, 0);
    let pp0 = t0;
    let pp1 = pp0 + t1;
    let qq0 = s0;
    let qq1 = qq0 + s1;
    let q = qq1;
    lemma_mul_is_distributive_add_other_way(q, pp0, t1);
    lemma_mul_is_distributive_add(t0, qq0, s1);
    lemma_mul_is_distributive_add(t1, qq0, s1);
    lemma_tm(p, -1, 1, 0, 0, 0, 0, 1, 0, -1, 1, 0, 0, 0, 0, 1, 0);
    assert(t0 * s0 == (1) * mn(p, 2, 0, 0, 0, 0, 2, 0));
    lemma_tm(p, -1, 1, 0, 0, 0, 0, 1, 0, 1, 0, 0, 1, 1, 0, 0, 0);
    assert(t0 * s1 == (-1) * mn(p, 1, 0, 1, 1, 0, 1, 0));
    assert(t0 * q == (1) * mn(p, 2, 0, 0, 0, 0, 2, 0) + (-1) * mn(p, 1, 0, 1, 1, 0, 1, 0));
    lemma_tm(p, 1, 0, 0, 1, 1, 0, 0, 0, -1, 1, 0, 0, 0, 0, 1, 0);
    assert(t1 * s0 == (-1) * mn(p, 1, 0, 1, 1, 0, 1, 0));
    lemma_tm(p, 1, 0, 0, 1, 1, 0, 0, 0, 1, 0, 0, 1, 1, 0, 0, 0);
    assert(t1 * s1 == (1) * mn(p, 0, 0, 2, 2, 0, 0, 0));
    assert(t1 * q == (-1) * mn(p, 1, 0, 1, 1, 0, 1, 0) + (1) * mn(p, 0, 0, 2, 2, 0, 0, 0));
    assert(pp1 * q == (1) * mn(p, 2, 0, 0, 0, 0, 2, 0) + (-2) * mn(p, 1, 0, 1, 1, 0, 1, 0) + (1) * mn(p, 0, 0, 2, 2, 0, 0, 0));
}

#[verifier::rlimit(100)]
proof fn am1_prod22(p: Pt)
    ensures
        ((1) * mn(p, 2, 0, 0, 0, 0, 2, 0) + (-2) * mn(p, 1, 0, 1, 1, 0, 1, 0) + (1) * mn(p, 0, 0, 2, 2, 0, 0, 0)) * ((1) * mn(p, 1, 0, 0, 0, 0, 1, 0) + (1) * mn(p, 0, 0, 1, 1, 0, 0, 0)) == (1) * mn(p, 3, 0, 0, 0, 0, 3, 0) + (-1) * mn(p, 2, 0, 1, 1, 0, 2, 0) + (-1) * mn(p, 1, 0, 2, 2, 0, 1, 0) + (1) * mn(p, 0, 0, 3, 3, 0, 0, 0),
{
    let t0 = (1) * mn(p, 2, 0, 0, 0, 0, 2, 0);
    let t1 = (-2) * mn(p, 1, 0, 1, 1, 0, 1, 0);
    let t2 = (1) * mn(p, 0, 0, 2, 2, 0, 0, 0);
    let s0 = (1) * mn(p, 1, 0, 0, 0, 0, 1, 0);
    let s1 = (1) * mn(p, 0, 0, 1, 1, 0, 0, 0);
    let pp0 = t0;
    let pp1 = pp0 + t1;
    let pp2 = pp1 + t2;
    let qq0 = s0;
    let qq1 = qq0 + s1;
    let q = qq1;
    lemma_mul_is_distributive_add_other_way(q, pp0, t1);
    lemma_mul_is_distributive_add_other_way(q, pp1, t2);
    lemma_mul_is_distributive_add(t0, qq0, s1);
    lemma_mul_is_distributive_add(t1, qq0, s1);
    lemma_mul_is_distributive_add(t2, qq0, s1);
    lemma_tm(p, 1, 2, 0, 0, 0, 0, 2, 0, 1, 1, 0, 0, 0, 0, 1, 0);
    assert(t0 * s0 == (1) * mn(p, 3, 0, 0, 0, 0, 3, 0));
    lemma_tm(p, 1, 2, 0, 0, 0, 0, 2, 0, 1, 0, 0, 1, 1, 0, 0, 0);
    assert(t0 * s1 == (1) * mn(p, 2, 0, 1, 1, 0, 2, 0));
    assert(t0 * q == (1) * mn(p, 3, 0, 0, 0, 0, 3, 0) + (1) * mn(p, 2, 0, 1, 1, 0, 2, 0));
    lemma_tm(p, -2, 1, 0, 1, 1, 0, 1, 0, 1, 1, 0, 0, 0, 0, 1, 0);
    assert(t1 * s0 == (-2) * mn(p, 2, 0, 1, 1, 0, 2, 0));
    lemma_tm(p, -2, 1, 0, 1, 1, 0, 1, 0, 1, 0, 0, 1, 1, 0, 0, 0);
    assert(t1 * s1 == (-2) * mn(p, 1, 0, 2, 2, 0, 1, 0));
    assert(t1 * q == (-2) * mn(p, 2, 0, 1, 1, 0, 2, 0) + (-2) * mn(p, 1, 0, 2, 2, 0, 1, 0));
    lemma_tm(p, 1, 0, 0, 2, 2, 0, 0, 0, 1, 1, 0, 0, 0, 0, 1, 0);
    assert(t2 * s0 == (1) * mn(p, 1, 0, 2, 2, 0, 1, 0));
    lemma_tm(p, 1, 0, 0, 2, 2, 0, 0, 0, 1, 0, 0, 1, 1, 0, 0, 0);
    assert(t2 * s1 == (1) * mn(p, 0, 0, 3, 3, 0, 0, 0));
    assert(t2 * q == (1) * mn(p, 1, 0, 2, 2, 0, 1, 0) + (1) * mn(p, 0, 0, 3, 3, 0, 0, 0));
    assert(pp2 * q == (1) * mn(p, 3, 0, 0, 0, 0, 3, 0) + (-1) * mn(p, 2, 0, 1, 1, 0, 2, 0) + (-1) * mn(p, 1, 0, 2, 2, 0, 1, 0) + (1) * mn(p, 0, 0, 3, 3, 0, 0, 0));
}

#[verifier::rlimit(100)]
proof fn am1_prod23(p: Pt)
    ensures
        ((-1) * mn(p, 1, 0, 0, 0, 0, 1, 0) + (1) * mn(p, 0, 0, 1, 1, 0, 0, 0)) * ((-1) * mn(p, 3, 0, 0, 0, 0, 3, 0) + (1) * mn(p, 2, 0, 1, 1, 0, 2, 0) + (1) * mn(p, 1, 0, 2, 2, 0, 1, 0) + (1) * mn(p, 0, 2, 1, 0, 0, 3, 0) + (-2) * mn(p, 0, 1, 2, 0, 1, 2, 0) + (-1) * mn(p, 0, 0, 3, 3, 0, 0, 0) + (1) * mn(p, 0, 0, 3, 0, 2, 1, 0)) == (1) * mn(p, 4, 0, 0, 0, 0, 4, 0) + (-2) * mn(p, 3, 0, 1, 1, 0, 3, 0) + (-1) * mn(p, 1, 2, 1, 0, 0, 4, 0) + (2) * mn(p, 1, 1, 2, 0, 1, 3, 0) + (2) * mn(p, 1, 0, 3, 3, 0, 1, 0) + (-1) * mn(p, 1, 0, 3, 0, 2, 2, 0) + (1) * mn(p, 0, 2, 2, 1, 0, 3, 0) + (-2) * mn(p, 0, 1, 3, 1, 1, 2, 0) + (-1) * mn(p, 0, 0, 4, 4, 0, 0, 0) + (1) * mn(p, 0, 0, 4, 1, 2, 1, 0),
{
    let t0 = (-1) * mn(p, 1, 0, 0, 0, 0, 1, 0);
    let t1 = (1) * mn(p, 0, 0, 1, 1, 0, 0, 0);
    let s0 = (-1) * mn(p, 3, 0, 0, 0, 0, 3, 0);
    let s1 = (1) * mn(p, 2, 0, 1, 1, 0, 2, 0);
    let s2 = (1) * mn(p, 1, 0, 2, 2, 0, 1, 0);
    let s3 = (1) * mn(p, 0, 2, 1, 0, 0, 3, 0);
    let s4 = (-2) * mn(p, 0, 1, 2, 0, 1, 2, 0);
    let s5 = (-1) * mn(p, 0, 0, 3, 3, 0, 0, 0);
    let s6 = (1) * mn(p, 0, 0, 3, 0, 2, 1, 0);
    let pp0 = t0;
    let pp1 = pp0 + t1;
    let qq0 = s0;
    let qq1 = qq0 + s1;
    let qq2 = qq1 + s2;
    let qq3 = qq2 + s3;
    let qq4 = qq3 + s4;
    let qq5 = qq4 + s5;
    let qq6 = qq5 + s6;
    let q = qq6;
    lemma_mul_is_distributive_add_other_way(q, pp0, t1);
    lemma_mul_is_distributive_add(t0, qq0, s1);
    lemma_mul_is_distributive_add(t0, qq1, s2);
    lemma_mul_is_distributive_add(t0, qq2, s3);
    lemma_mul_is_distributive_add(t0, qq3, s4);
    lemma_mul_is_distributive_add(t0, qq4, s5);
    lemma_mul_is_distributive_add(t0, qq5, s6);
    lemma_mul_is_distributive_add(t1, qq0, s1);
    lemma_mul_is_distributive_add(t1, qq1, s2);
    lemma_mul_is_distributive_add(t1, qq2, s3);
    lemma_mul_is_distributive_add(t1, qq3, s4);
    lemma_mul_is_distributive_add(t1, qq4, s5);
    lemma_mul_is_distributive_add(t1, qq5, s6);
    lemma_tm(p, -1, 1, 0, 0, 0, 0, 1, 0, -1, 3, 0, 0, 0, 0, 3, 0);
    assert(t0 * s0 == (1) * mn(p, 4, 0, 0, 0, 0, 4, 0));
    lemma_tm(p, -1, 1, 0, 0, 0, 0, 1, 0, 1, 2, 0, 1, 1, 0, 2, 0);
    assert(t0 * s1 == (-1) * mn(p, 3, 0, 1, 1, 0, 3, 0));
    lemma_tm(p, -1, 1, 0, 0, 0, 0, 1, 0, 1, 1, 0, 2, 2, 0, 1, 0);
    assert(t0 * s2 == (-1) * mn(p, 2, 0, 2, 2, 0, 2, 0));
    lemma_tm(p, -1, 1, 0, 0, 0, 0, 1, 0, 1, 0, 2, 1, 0, 0, 3, 0);
    assert(t0 * s3 == (-1) * mn(p, 1, 2, 1, 0, 0, 4, 0));
    lemma_tm(p, -1, 1, 0, 0, 0, 0, 1, 0, -2, 0, 1, 2, 0, 1, 2, 0);
    assert(t0 * s4 == (2) * mn(p, 1, 1, 2, 0, 1, 3, 0));
    lemma_tm(p, -1, 1, 0, 0, 0, 0, 1, 0, -1, 0, 0, 3, 3, 0, 0, 0);
    assert(t0 * s5 == (1) * mn(p, 1, 0, 3, 3, 0, 1, 0));
    lemma_tm(p, -1, 1, 0, 0, 0, 0, 1, 0, 1, 0, 0, 3, 0, 2, 1, 0);
    assert(t0 * s6 == (-1) * mn(p, 1, 0, 3, 0, 2, 2, 0));
    assert(t0 * q == (1) * mn(p, 4, 0, 0, 0, 0, 4, 0) + (-1) * mn(p, 3, 0, 1, 1, 0, 3, 0) + (-1) * mn(p, 2, 0, 2, 2, 0, 2, 0) + (-1) * mn(p, 1, 2, 1, 0, 0, 4, 0) + (2) * mn(p, 1, 1, 2, 0, 1, 3, 0) + (1) * mn(p, 1, 0, 3, 3, 0, 1, 0) + (-1) * mn(p, 1, 0, 3, 0, 2, 2, 0));
    lemma_tm(p, 1, 0, 0, 1, 1, 0, 0, 0, -1, 3, 0, 0, 0, 0, 3, 0);
    assert(t1 * s0 == (-1) * mn(p, 3, 0, 1, 1, 0, 3, 0));
    lemma_tm(p, 1, 0, 0, 1, 1, 0, 0, 0, 1, 2, 0, 1, 1, 0, 2, 0);
    assert(t1 * s1 == (1) * mn(p, 2, 0, 2, 2, 0, 2, 0));
    lemma_tm(p, 1, 0, 0, 1, 1, 0, 0, 0, 1, 1, 0, 2, 2, 0, 1, 0);
    assert(t1 * s2 == (1) * mn(p, 1, 0, 3, 3, 0, 1, 0));
    lemma_tm(p, 1, 0, 0, 1, 1, 0, 0, 0, 1, 0, 2, 1, 0, 0, 3, 0);
    assert(t1 * s3 == (1) * mn(p, 0, 2, 2, 1, 0, 3, 0));
    lemma_tm(p, 1, 0, 0, 1, 1, 0, 0, 0, -2, 0, 1, 2, 0, 1, 2, 0);
    assert(t1 * s4 == (-2) * mn(p, 0, 1, 3, 1, 1, 2, 0));
    lemma_tm(p, 1, 0, 0, 1, 1, 0, 0, 0, -1, 0, 0, 3, 3, 0, 0, 0);
    assert(t1 * s5 == (-1) * mn(p, 0, 0, 4, 4, 0, 0, 0));
    lemma_tm(p, 1, 0, 0, 1, 1, 0, 0, 0, 1, 0, 0, 3, 0, 2, 1, 0);
    assert(t1 * s6 == (1) * mn(p, 0, 0, 4, 1, 2, 1, 0));
    assert(t1 * q == (-1) * mn(p, 3, 0, 1, 1, 0, 3, 0) + (1) * mn(p, 2, 0, 2, 2, 0, 2, 0) + (1) * mn(p, 1, 0, 3, 3, 0, 1, 0) + (1) * mn(p, 0, 2, 2, 1, 0, 3, 0) + (-2) * mn(p, 0, 1, 3, 1, 1, 2, 0) + (-1) * mn(p, 0, 0, 4, 4, 0, 0, 0) + (1) * mn(p, 0, 0, 4, 1, 2, 1, 0));
    assert(pp1 * q == (1) * mn(p, 4, 0, 0, 0, 0, 4, 0) + (-2) * mn(p, 3, 0, 1, 1, 0, 3, 0) + (-1) * mn(p, 1, 2, 1, 0, 0, 4, 0) + (2) * mn(p, 1, 1, 2, 0, 1, 3, 0) + (2) * mn(p, 1, 0, 3, 3, 0, 1, 0) + (-1) * mn(p, 1, 0, 3, 0, 2, 2, 0) + (1) * mn(p, 0, 2, 2, 1, 0, 3, 0) + (-2) * mn(p, 0, 1, 3, 1, 1, 2, 0) + (-1) * mn(p, 0, 0, 4, 4, 0, 0, 0) + (1) * mn(p, 0, 0, 4, 1, 2, 1, 0));
}

#[verifier::rlimit(100)]
proof fn am1_prod24(p: Pt)
    ensures
        ((1) * mn(p, 2, 0, 0, 0, 0, 2, 0) + (-2) * mn(p, 1, 0, 1, 1, 0, 1, 0) + (1) * mn(p, 0, 0, 2, 2, 0, 0, 0)) * ((1) * mn(p, 1, 0, 0, 0, 0, 0, 0)) == (1) * mn(p, 3, 0, 0, 0, 0, 2, 0) + (-2) * mn(p, 2, 0, 1, 1, 0, 1, 0) + (1) * mn(p, 1, 0, 2, 2, 0, 0, 0),
{
    let t0 = (1) * mn(p, 2, 0, 0, 0, 0, 2, 0);
    let t1 = (-2) * mn(p, 1, 0, 1, 1, 0, 1, 0);
    let t2 = (1) * mn(p, 0, 0, 2, 2, 0, 0, 0);
    let s0 = (1) * mn(p, 1, 0, 0, 0, 0, 0, 0);
    let pp0 = t0;
    let pp1 = pp0 + t1;
    let pp2 = pp1 + t2;
    let qq0 = s0;
    let q = qq0;
    lemma_mul_is_distributive_add_other_way(q, pp0, t1);
    lemma_mul_is_distributive_add_other_way(q, pp1, t2);
    lemma_tm(p, 1, 2, 0, 0, 0, 0, 2, 0, 1, 1, 0, 0, 0, 0, 0, 0);
    assert(t0 * s0 == (1) * mn(p, 3, 0, 0, 0, 0, 2, 0));
    assert(t0 * q == (1) * mn(p, 3, 0, 0, 0, 0, 2, 0));
    lemma_tm(p, -2, 1, 0, 1, 1, 0, 1, 0, 1, 1, 0, 0, 0, 0, 0, 0);
    assert(t1 * s0 == (-2) * mn(p, 2, 0, 1, 1, 0, 1, 0));
    assert(t1 * q == (-2) * mn(p, 2, 0, 1, 1, 0, 1, 0));
    lemma_tm(p, 1, 0, 0, 2, 2, 0, 0, 0, 1, 1, 0, 0, 0, 0, 0, 0);
    assert(t2 * s0 == (1) * mn(p, 1, 0, 2, 2, 0, 0, 0));
    assert(t2 * q == (1) * mn(p, 1, 0, 2, 2, 0, 0, 0));
    assert(pp2 * q == (1) * mn(p, 3, 0, 0, 0, 0, 2, 0) + (-2) * mn(p, 2, 0, 1, 1, 0, 1, 0) + (1) * mn(p, 1, 0, 2, 2, 0, 0, 0));
}

#[verifier::rlimit(100)]
proof fn am1_prod25(p: Pt)
    ensures
        ((1) * mn(p, 3, 0, 0, 0, 0, 2, 0) + (-2) * mn(p, 2, 0, 1, 1, 0, 1, 0) + (1) * mn(p, 1, 0, 2, 2, 0, 0, 0)) * ((1) * mn(p, 0, 0, 0, 0, 0, 1, 0)) == (1) * mn(p, 3, 0, 0, 0, 0, 3, 0) + (-2) * mn(p, 2, 0, 1, 1, 0, 2, 0) + (1) * mn(p, 1, 0, 2, 2, 0, 1, 0),
{
    let t0 = (1) * mn(p, 3, 0, 0, 0, 0, 2, 0);
    let t1 = (-2) * mn(p, 2, 0, 1, 1, 0, 1, 0);
    let t2 = (1) * mn(p, 1, 0, 2, 2, 0, 0, 0);
    let s0 = (1) * mn(p, 0, 0, 0, 0, 0, 1, 0);
    let pp0 = t0;
    let pp1 = pp0 + t1;
    let pp2 = pp1 + t2;
    let qq0 = s0;
    let q = qq0;
    lemma_mul_is_distributive_add_other_way(q, pp0, t1);
    lemma_mul_is_distributive_add_other_way(q, pp1, t2);
    lemma_tm(p, 1, 3, 0, 0, 0, 0, 2, 0, 1, 0, 0, 0, 0, 0, 1, 0);
    assert(t0 * s0 == (1) * mn(p, 3, 0, 0, 0, 0, 3, 0));
    assert(t0 * q == (1) * mn(p, 3, 0, 0, 0, 0, 3, 0));
    lemma_tm(p, -2, 2, 0, 1, 1, 0, 1, 0, 1, 0, 0, 0, 0, 0, 1, 0);
    assert(t1 * s0 == (-2) * mn(p, 2, 0, 1, 1, 0, 2, 0));
    assert(t1 * q == (-2) * mn(p, 2, 0, 1, 1, 0, 2, 0));
    lemma_tm(p, 1, 1, 0, 2, 2, 0, 0, 0, 1, 0, 0, 0, 0, 0, 1, 0);
    assert(t2 * s0 == (1) * mn(p, 1, 0, 2, 2, 0, 1, 0));
    assert(t2 * q == (1) * mn(p, 1, 0, 2, 2, 0, 1, 0));
    assert(pp2 * q == (1) * mn(p, 3, 0, 0, 0, 0, 3, 0) + (-2) * mn(p, 2, 0, 1, 1, 0, 2, 0) + (1) * mn(p, 1, 0, 2, 2, 0, 1, 0));
}

#[verifier::rlimit(100)]
proof fn am1_prod26(p: Pt)
    ensures
        ((-1) * mn(p, 0, 1, 0, 0, 0, 1, 0) + (1) * mn(p, 0, 0, 1, 0, 1, 0, 0)) * ((2) * mn(p, 3, 0, 0, 0, 0, 3, 0) + (-3) * mn(p, 2, 0, 1, 1, 0, 2, 0) + (-1) * mn(p, 0, 2, 1, 0, 0, 3, 0) + (2) * mn(p, 0, 1, 2, 0, 1, 2, 0) + (1) * mn(p, 0, 0, 3, 3, 0, 0, 0) + (-1) * mn(p, 0, 0, 3, 0, 2, 1, 0)) == (-2) * mn(p, 3, 1, 0, 0, 0, 4, 0) + (2) * mn(p, 3, 0, 1, 0, 1, 3, 0) + (3) * mn(p, 2, 1, 1, 1, 0, 3, 0) + (-3) * mn(p, 2, 0, 2, 1, 1, 2, 0) + (1) * mn(p, 0, 3, 1, 0, 0, 4, 0) + (-3) * mn(p, 0, 2, 2, 0, 1, 3, 0) + (-1) * mn(p, 0, 1, 3, 3, 0, 1, 0) + (3) * mn(p, 0, 1, 3, 0, 2, 2, 0) + (1) * mn(p, 0, 0, 4, 3, 1, 0, 0) + (-1) * mn(p, 0, 0, 4, 0, 3, 1, 0),
{
    let t0 = (-1) * mn(p, 0, 1, 0, 0, 0, 1, 0);
    let t1 = (1) * mn(p, 0, 0, 1, 0, 1, 0, 0);
    let s0 = (2) * mn(p, 3, 0, 0, 0, 0, 3, 0);
    let s1 = (-3) * mn(p, 2, 0, 1, 1, 0, 2, 0);
    let s2 = (-1) * mn(p, 0, 2, 1, 0, 0, 3, 0);
    let s3 = (2) * mn(p, 0, 1, 2, 0, 1, 2, 0);
    let s4 = (1) * mn(p, 0, 0, 3, 3, 0, 0, 0);
    let s5 = (-1) * mn(p, 0, 0, 3, 0, 2, 1, 0);
    let pp0 = t0;
    let pp1 = pp0 + t1;
    let qq0 = s0;
    let qq1 = qq0 + s1;
    let qq2 = qq1 + s2;
    let qq3 = qq2 + s3;
    let qq4 = qq3 + s4;
    let qq5 = qq4 + s5;
    let q = qq5;
    lemma_mul_is_distributive_add_other_way(q, pp0, t1);
    lemma_mul_is_distributive_add(t0, qq0, s1);
    lemma_mul_is_distributive_add(t0, qq1, s2);
    lemma_mul_is_distributive_add(t0, qq2, s3);
    lemma_mul_is_distributive_add(t0, qq3, s4);
    lemma_mul_is_distributive_add(t0, qq4, s5);
    lemma_mul_is_distributive_add(t1, qq0, s1);
    lemma_mul_is_distributive_add(t1, qq1, s2);
    lemma_mul_is_distributive_add(t1, qq2, s3);
    lemma_mul_is_distributive_add(t1, qq3, s4);
    lemma_mul_is_distributive_add(t1, qq4, s5);
    lemma_tm(p, -1, 0, 1, 0, 0, 0, 1, 0, 2, 3, 0, 0, 0, 0, 3, 0);
    assert(t0 * s0 == (-2) * mn(p, 3, 1, 0, 0, 0, 4, 0));
    lemma_tm(p, -1, 0, 1, 0, 0, 0, 1, 0, -3, 2, 0, 1, 1, 0, 2, 0);
    assert(t0 * s1 == (3) * mn(p, 2, 1, 1, 1, 0, 3, 0));
    lemma_tm(p, -1, 0, 1, 0, 0, 0, 1, 0, -1, 0, 2, 1, 0, 0, 3, 0);
    assert(t0 * s2 == (1) * mn(p, 0, 3, 1, 0, 0, 4, 0));
    lemma_tm(p, -1, 0, 1, 0, 0, 0, 1, 0, 2, 0, 1, 2, 0, 1, 2, 0);
    assert(t0 * s3 == (-2) * mn(p, 0, 2, 2, 0, 1, 3, 0));
    lemma_tm(p, -1, 0, 1, 0, 0, 0, 1, 0, 1, 0, 0, 3, 3, 0, 0, 0);
    assert(t0 * s4 == (-1) * mn(p, 0, 1, 3, 3, 0, 1, 0));
    lemma_tm(p, -1, 0, 1, 0, 0, 0, 1, 0, -1, 0, 0, 3, 0, 2, 1, 0);
    assert(t0 * s5 == (1) * mn(p, 0, 1, 3, 0, 2, 2, 0));
    assert(t0 * q == (-2) * mn(p, 3, 1, 0, 0, 0, 4, 0) + (3) * mn(p, 2, 1, 1, 1, 0, 3, 0) + (1) * mn(p, 0, 3, 1, 0, 0, 4, 0) + (-2) * mn(p, 0, 2, 2, 0, 1, 3, 0) + (-1) * mn(p, 0, 1, 3, 3, 0, 1, 0) + (1) * mn(p, 0, 1, 3, 0, 2, 2, 0));
    lemma_tm(p, 1, 0, 0, 1, 0, 1, 0, 0, 2, 3, 0, 0, 0, 0, 3, 0);
    assert(t1 * s0 == (2) * mn(p, 3, 0, 1, 0, 1, 3, 0));
    lemma_tm(p, 1, 0, 0, 1, 0, 1, 0, 0, -3, 2, 0, 1, 1, 0, 2, 0);
    assert(t1 * s1 == (-3) * mn(p, 2, 0, 2, 1, 1, 2, 0));
    lemma_tm(p, 1, 0, 0, 1, 0, 1, 0, 0, -1, 0, 2, 1, 0, 0, 3, 0);
    assert(t1 * s2 == (-1) * mn(p, 0, 2, 2, 0, 1, 3, 0));
    lemma_tm(p, 1, 0, 0, 1, 0, 1, 0, 0, 2, 0, 1, 2, 0, 1, 2, 0);
    assert(t1 * s3 == (2) * mn(p, 0, 1, 3, 0, 2, 2, 0));
    lemma_tm(p, 1, 0, 0, 1, 0, 1, 0, 0, 1, 0, 0, 3, 3, 0, 0, 0);
    assert(t1 * s4 == (1) * mn(p, 0, 0, 4, 3, 1, 0, 0));
    lemma_tm(p, 1, 0, 0, 1, 0, 1, 0, 0, -1, 0, 0, 3, 0, 2, 1, 0);
    assert(t1 * s5 == (-1) * mn(p, 0, 0, 4, 0, 3, 1, 0));
    assert(t1 * q == (2) * mn(p, 3, 0, 1, 0, 1, 3, 0) + (-3) * mn(p, 2, 0, 2, 1, 1, 2, 0) + (-1) * mn(p, 0, 2, 2, 0, 1, 3, 0) + (2) * mn(p, 0, 1, 3, 0, 2, 2, 0) + (1) * mn(p, 0, 0, 4, 3, 1, 0, 0) + (-1) * mn(p, 0, 0, 4, 0, 3, 1, 0));
    assert(pp1 * q == (-2) * mn(p, 3, 1, 0, 0, 0, 4, 0) + (2) * mn(p, 3, 0, 1, 0, 1, 3, 0) + (3) * mn(p, 2, 1, 1, 1, 0, 3, 0) + (-3) * mn(p, 2, 0, 2, 1, 1, 2, 0) + (1) * mn(p, 0, 3, 1, 0, 0, 4, 0) + (-3) * mn(p, 0, 2, 2, 0, 1, 3, 0) + (-1) * mn(p, 0, 1, 3, 3, 0, 1, 0) + (3) * mn(p, 0, 1, 3, 0, 2, 2, 0) + (1) * mn(p, 0, 0, 4, 3, 1, 0, 0) + (-1) * mn(p, 0, 0, 4, 0, 3, 1, 0));
}

#[verifier::rlimit(100)]
proof fn am1_prod27(p: Pt)
    ensures
        ((1) * mn(p, 0, 1, 0, 0, 0, 0, 0)) * ((-1) * mn(p, 1, 0, 0, 0, 0, 1, 0) + (1) * mn(p, 0, 0, 1, 1, 0, 0, 0)) == (-1) * mn(p, 1, 1, 0, 0, 0, 1, 0) + (1) * mn(p, 0, 1, 1, 1, 0, 0, 0),
{
    let t0 = (1) * mn(p, 0, 1, 0, 0, 0, 0, 0);
    let s0 = (-1) * mn(p, 1, 0, 0, 0, 0, 1, 0);
    let s1 = (1) * mn(p, 0, 0, 1, 1, 0, 0, 0);
    let pp0 = t0;
    let qq0 = s0;
    let qq1 = qq0 + s1;
    let q = qq1;
    lemma_mul_is_distributive_add(t0, qq0, s1);
    lemma_tm(p, 1, 0, 1, 0, 0, 0, 0, 0, -1, 1, 0, 0, 0, 0, 1, 0);
    assert(t0 * s0 == (-1) * mn(p, 1, 1, 0, 0, 0, 1, 0));
    lemma_tm(p, 1, 0, 1, 0, 0, 0, 0, 0, 1, 0, 0, 1, 1, 0, 0, 0);
    assert(t0 * s1 == (1) * mn(p, 0, 1, 1, 1, 0, 0, 0));
    assert(t0 * q == (-1) * mn(p, 1, 1, 0, 0, 0, 1, 0) + (1) * mn(p, 0, 1, 1, 1, 0, 0, 0));
    assert(pp0 * q == (-1) * mn(p, 1, 1, 0, 0, 0, 1, 0) + (1) * mn(p, 0, 1, 1, 1, 0, 0, 0));
}

#[verifier::rlimit(100)]
proof fn am1_prod28(p: Pt)
    ensures
        ((-1) * mn(p, 1, 1, 0, 0, 0, 1, 0) + (1) * mn(p, 0, 1, 1, 1, 0, 0, 0)) * ((-1) * mn(p, 1, 0, 0, 0, 0, 1, 0) + (1) * mn(p, 0, 0, 1, 1, 0, 0, 0)) == (1) * mn(p, 2, 1, 0, 0, 0, 2, 0) + (-2) * mn(p, 1, 1, 1, 1, 0, 1, 0) + (1) * mn(p, 0, 1, 2, 2, 0, 0, 0),
{
    let t0 = (-1) * mn(p, 1, 1, 0, 0, 0, 1, 0);
    let t1 = (1) * mn(p, 0, 1, 1, 1, 0, 0, 0);
    let s0 = (-1) * mn(p, 1, 0, 0, 0, 0, 1, 0);
    let s1 = (1) * mn(p, 0, 0, 1, 1, 0, 0, 0);
    let pp0 = t0;
    let pp1 = pp0 + t1;
    let qq0 = s0;
    let qq1 = qq0 + s1;
    let q = qq1;
    lemma_mul_is_distributive_add_other_way(q, pp0, t1);
    lemma_mul_is_distributive_add(t0, qq0, s1);
    lemma_mul_is_distributive_add(t1, qq0, s1);
    lemma_tm(p, -1, 1, 1, 0, 0, 0, 1, 0, -1, 1, 0, 0, 0, 0, 1, 0);
    assert(t0 * s0 == (1) * mn(p, 2, 1, 0, 0, 0, 2, 0));
    lemma_tm(p, -1, 1, 1, 0, 0, 0, 1, 0, 1, 0, 0, 1, 1, 0, 0, 0);
    assert(t0 * s1 == (-1) * mn(p, 1, 1, 1, 1, 0, 1, 0));
    assert(t0 * q == (1) * mn(p, 2, 1, 0, 0, 0, 2, 0) + (-1) * mn(p, 1, 1, 1, 1, 0, 1, 0));
    lemma_tm(p, 1, 0, 1, 1, 1, 0, 0, 0, -1, 1, 0, 0, 0, 0, 1, 0);
    assert(t1 * s0 == (-1) * mn(p, 1, 1, 1, 1, 0, 1, 0));
    lemma_tm(p, 1, 0, 1, 1, 1, 0, 0, 0, 1, 0, 0, 1, 1, 0, 0, 0);
    assert(t1 * s1 == (1) * mn(p, 0, 1, 2, 2, 0, 0, 0));
    assert(t1 * q == (-1) * mn(p, 1, 1, 1, 1, 0, 1, 0) + (1) * mn(p, 0, 1, 2, 2, 0, 0, 0));
    assert(pp1 * q == (1) * mn(p, 2, 1, 0, 0, 0, 2, 0) + (-2) * mn(p, 1, 1, 1, 1, 0, 1, 0) + (1) * mn(p, 0, 1, 2, 2, 0, 0, 0));
}

#[verifier::rlimit(100)]
proof fn am1_prod29(p: Pt)
    ensures
        ((1) * mn(p, 2, 1, 0, 0, 0, 2, 0) + (-2) * mn(p, 1, 1, 1, 1, 0, 1, 0) + (1) * mn(p, 0, 1, 2, 2, 0, 0, 0)) * ((-1) * mn(p, 1, 0, 0, 0, 0, 1, 0) + (1) * mn(p, 0, 0, 1, 1, 0, 0, 0)) == (-1) * mn(p, 3, 1, 0, 0, 0, 3, 0) + (3) * mn(p, 2, 1, 1, 1, 0, 2, 0) + (-3) * mn(p, 1, 1, 2, 2, 0, 1, 0) + (1) * mn(p, 0, 1, 3, 3, 0, 0, 0),
{
    let t0 = (1) * mn(p, 2, 1, 0, 0, 0, 2, 0);
    let t1 = (-2) * mn(p, 1, 1, 1, 1, 0, 1, 0);
    let t2 = (1) * mn(p, 0, 1, 2, 2, 0, 0, 0);
    let s0 = (-1) * mn(p, 1, 0, 0, 0, 0, 1, 0);
    let s1 = (1) * mn(p, 0, 0, 1, 1, 0, 0, 0);
    let pp0 = t0;
    let pp1 = pp0 + t1;
    let pp2 = pp1 + t2;
    let qq0 = s0;
    let qq1 = qq0 + s1;
    let q = qq1;
    lemma_mul_is_distributive_add_other_way(q, pp0, t1);
    lemma_mul_is_distributive_add_other_way(q, pp1, t2);
    lemma_mul_is_distributive_add(t0, qq0, s1);
    lemma_mul_is_distributive_add(t1, qq0, s1);
    lemma_mul_is_distributive_add(t2, qq0, s1);
    lemma_tm(p, 1, 2, 1, 0, 0, 0, 2, 0, -1, 1, 0, 0, 0, 0, 1, 0);
    assert(t0 * s0 == (-1) * mn(p, 3, 1, 0, 0, 0, 3, 0));
    lemma_tm(p, 1, 2, 1, 0, 0, 0, 2, 0, 1, 0, 0, 1, 1, 0, 0, 0);
    assert(t0 * s1 == (1) * mn(p, 2, 1, 1, 1, 0, 2, 0));
    assert(t0 * q == (-1) * mn(p, 3, 1, 0, 0, 0, 3, 0) + (1) * mn(p, 2, 1, 1, 1, 0, 2, 0));
    lemma_tm(p, -2, 1, 1, 1, 1, 0, 1, 0, -1, 1, 0, 0, 0, 0, 1, 0);
    assert(t1 * s0 == (2) * mn(p, 2, 1, 1, 1, 0, 2, 0));
    lemma_tm(p, -2, 1, 1, 1, 1, 0, 1, 0, 1, 0, 0, 1, 1, 0, 0, 0);
    assert(t1 * s1 == (-2) * mn(p, 1, 1, 2, 2, 0, 1, 0));
    assert(t1 * q == (2) * mn(p, 2, 1, 1, 1, 0, 2, 0) + (-2) * mn(p, 1, 1, 2, 2, 0, 1, 0));
    lemma_tm(p, 1, 0, 1, 2, 2, 0, 0, 0, -1, 1, 0, 0, 0, 0, 1, 0);
    assert(t2 * s0 == (-1) * mn(p, 1, 1, 2, 2, 0, 1, 0));
    lemma_tm(p, 1, 0, 1, 2, 2, 0, 0, 0, 1, 0, 0, 1, 1, 0, 0, 0);
    assert(t2 * s1 == (1) * mn(p, 0, 1, 3, 3, 0, 0, 0));
    assert(t2 * q == (-1) * mn(p, 1, 1, 2, 2, 0, 1, 0) + (1) * mn(p, 0, 1, 3, 3, 0, 0, 0));
    assert(pp2 * q == (-1) * mn(p, 3, 1, 0, 0, 0, 3, 0) + (3) * mn(p, 2, 1, 1, 1, 0, 2, 0) + (-3) * mn(p, 1, 1, 2, 2, 0, 1, 0) + (1) * mn(p, 0, 1, 3, 3, 0, 0, 0));
}

#[verifier::rlimit(100)]
proof fn am1_prod30(p: Pt)
    ensures
        ((-1) * mn(p, 3, 1, 0, 0, 0, 3, 0) + (3) * mn(p, 2, 1, 1, 1, 0, 2, 0) + (-3) * mn(p, 1, 1, 2, 2, 0, 1, 0) + (1) * mn(p, 0, 1, 3, 3, 0, 0, 0)) * ((1) * mn(p, 0, 0, 0, 0, 0, 1, 0)) == (-1) * mn(p, 3, 1, 0, 0, 0, 4, 0) + (3) * mn(p, 2, 1, 1, 1, 0, 3, 0) + (-3) * mn(p, 1, 1, 2, 2, 0, 2, 0) + (1) * mn(p, 0, 1, 3, 3, 0, 1, 0),
{
    let t0 = (-1) * mn(p, 3, 1, 0, 0, 0, 3, 0);
    let t1 = (3) * mn(p, 2, 1, 1, 1, 0, 2, 0);
    let t2 = (-3) * mn(p, 1, 1, 2, 2, 0, 1, 0);
    let t3 = (1) * mn(p, 0, 1, 3, 3, 0, 0, 0);
    let s0 = (1) * mn(p, 0, 0, 0, 0, 0, 1, 0);
    let pp0 = t0;
    let pp1 = pp0 + t1;
    let pp2 = pp1 + t2;
    let pp3 = pp2 + t3;
    let qq0 = s0;
    let q = qq0;
    lemma_mul_is_distributive_add_other_way(q, pp0, t1);
    lemma_mul_is_distributive_add_other_way(q, pp1, t2);
    lemma_mul_is_distributive_add_other_way(q, pp2, t3);
    lemma_tm(p, -1, 3, 1, 0, 0, 0, 3, 0, 1, 0, 0, 0, 0, 0, 1, 0);
    assert(t0 * s0 == (-1) * mn(p, 3, 1, 0, 0, 0, 4, 0));
    assert(t0 * q == (-1) * mn(p, 3, 1, 0, 0, 0, 4, 0));
    lemma_tm(p, 3, 2, 1, 1, 1, 0, 2, 0, 1, 0, 0, 0, 0, 0, 1, 0);
    assert(t1 * s0 == (3) * mn(p, 2, 1, 1, 1, 0, 3, 0));
    assert(t1 * q == (3) * mn(p, 2, 1, 1, 1, 0, 3, 0));
    lemma_tm(p, -3, 1, 1, 2, 2, 0, 1, 0, 1, 0, 0, 0, 0, 0, 1, 0);
    assert(t2 * s0 == (-3) * mn(p, 1, 1, 2, 2, 0, 2, 0));
    assert(t2 * q == (-3) * mn(p, 1, 1, 2, 2, 0, 2, 0));
    lemma_tm(p, 1, 0, 1, 3, 3, 0, 0, 0, 1, 0, 0, 0, 0, 0, 1, 0);
    assert(t3 * s0 == (1) * mn(p, 0, 1, 3, 3, 0, 1, 0));
    assert(t3 * q == (1) * mn(p, 0, 1, 3, 3, 0, 1, 0));
    assert(pp3 * q == (-1) * mn(p, 3, 1, 0, 0, 0, 4, 0) + (3) * mn(p, 2, 1, 1, 1, 0, 3, 0) + (-3) * mn(p, 1, 1, 2, 2, 0, 2, 0) + (1) * mn(p, 0, 1, 3, 3, 0, 1, 0));
}

#[verifier::rlimit(100)]
proof fn am1_prod31(p: Pt)
    ensures
        ((1) * mn(p, 2, 0, 0, 0, 0, 2, 0) + (-2) * mn(p, 1, 0, 1, 1, 0, 1, 0) + (1) * mn(p, 0, 0, 2, 2, 0, 0, 0)) * ((-1) * mn(p, 1, 0, 0, 0, 0, 1, 0) + (1) * mn(p, 0, 0, 1, 1, 0, 0, 0)) == (-1) * mn(p, 3, 0, 0, 0, 0, 3, 0) + (3) * mn(p, 2, 0, 1, 1, 0, 2, 0) + (-3) * mn(p, 1, 0, 2, 2, 0, 1, 0) + (1) * mn(p, 0, 0, 3, 3, 0, 0, 0),
{
    let t0 = (1) * mn(p, 2, 0, 0, 0, 0, 2, 0);
    let t1 = (-2) * mn(p, 1, 0, 1, 1, 0, 1, 0);
    let t2 = (1) * mn(p, 0, 0, 2, 2, 0, 0, 0);
    let s0 = (-1) * mn(p, 1, 0, 0, 0, 0, 1, 0);
    let s1 = (1) * mn(p, 0, 0, 1, 1, 0, 0, 0);
    let pp0 = t0;
    let pp1 = pp0 + t1;
    let pp2 = pp1 + t2;
    let qq0 = s0;
    let qq1 = qq0 + s1;
    let q = qq1;
    lemma_mul_is_distributive_add_other_way(q, pp0, t1);
    lemma_mul_is_distributive_add_other_way(q, pp1, t2);
    lemma_mul_is_distributive_add(t0, qq0, s1);
    lemma_mul_is_distributive_add(t1, qq0, s1);
    lemma_mul_is_distributive_add(t2, qq0, s1);
    lemma_tm(p, 1, 2, 0, 0, 0, 0, 2, 0, -1, 1, 0, 0, 0, 0, 1, 0);
    assert(t0 * s0 == (-1) * mn(p, 3, 0, 0, 0, 0, 3, 0));
    lemma_tm(p, 1, 2, 0, 0, 0, 0, 2, 0, 1, 0, 0, 1, 1, 0, 0, 0);
    assert(t0 * s1 == (1) * mn(p, 2, 0, 1, 1, 0, 2, 0));
    assert(t0 * q == (-1) * mn(p, 3, 0, 0, 0, 0, 3, 0) + (1) * mn(p, 2, 0, 1, 1, 0, 2, 0));
    lemma_tm(p, -2, 1, 0, 1, 1, 0, 1, 0, -1, 1, 0, 0, 0, 0, 1, 0);
    assert(t1 * s0 == (2) * mn(p, 2, 0, 1, 1, 0, 2, 0));
    lemma_tm(p, -2, 1, 0, 1, 1, 0, 1, 0, 1, 0, 0, 1, 1, 0, 0, 0);
    assert(t1 * s1 == (-2) * mn(p, 1, 0, 2, 2, 0, 1, 0));
    assert(t1 * q == (2) * mn(p, 2, 0, 1, 1, 0, 2, 0) + (-2) * mn(p, 1, 0, 2, 2, 0, 1, 0));
    lemma_tm(p, 1, 0, 0, 2, 2, 0, 0, 0, -1, 1, 0, 0, 0, 0, 1, 0);
    assert(t2 * s0 == (-1) * mn(p, 1, 0, 2, 2, 0, 1, 0));
    lemma_tm(p, 1, 0, 0, 2, 2, 0, 0, 0, 1, 0, 0, 1, 1, 0, 0, 0);
    assert(t2 * s1 == (1) * mn(p, 0, 0, 3, 3, 0, 0, 0));
    assert(t2 * q == (-1) * mn(p, 1, 0, 2, 2, 0, 1, 0) + (1) * mn(p, 0, 0, 3, 3, 0, 0, 0));
    assert(pp2 * q == (-1) * mn(p, 3, 0, 0, 0, 0, 3, 0) + (3) * mn(p, 2, 0, 1, 1, 0, 2, 0) + (-3) * mn(p, 1, 0, 2, 2, 0, 1, 0) + (1) * mn(p, 0, 0, 3, 3, 0, 0, 0));
}

#[verifier::rlimit(100)]
proof fn am1_prod32(p: Pt)
    ensures
        ((-1) * mn(p, 3, 0, 0, 0, 0, 3, 0) + (3) * mn(p, 2, 0, 1, 1, 0, 2, 0) + (-3) * mn(p, 1, 0, 2, 2, 0, 1, 0) + (1) * mn(p, 0, 0, 3, 3, 0, 0, 0)) * ((1) * mn(p, 0, 0, 1, 0, 0, 0, 0)) == (-1) * mn(p, 3, 0, 1, 0, 0, 3, 0) + (3) * mn(p, 2, 0, 2, 1, 0, 2, 0) + (-3) * mn(p, 1, 0, 3, 2, 0, 1, 0) + (1) * mn(p, 0, 0, 4, 3, 0, 0, 0),
{
    let t0 = (-1) * mn(p, 3, 0, 0, 0, 0, 3, 0);
    let t1 = (3) * mn(p, 2, 0, 1, 1, 0, 2, 0);
    let t2 = (-3) * mn(p, 1, 0, 2, 2, 0, 1, 0);
    let t3 = (1) * mn(p, 0, 0, 3, 3, 0, 0, 0);
    let s0 = (1) * mn(p, 0, 0, 1, 0, 0, 0, 0);
    let pp0 = t0;
    let pp1 = pp0 + t1;
    let pp2 = pp1 + t2;
    let pp3 = pp2 + t3;
    let qq0 = s0;
    let q = qq0;
    lemma_mul_is_distributive_add_other_way(q, pp0, t1);
    lemma_mul_is_distributive_add_other_way(q, pp1, t2);
    lemma_mul_is_distributive_add_other_way(q, pp2, t3);
    lemma_tm(p, -1, 3, 0, 0, 0, 0, 3, 0, 1, 0, 0, 1, 0, 0, 0, 0);
    assert(t0 * s0 == (-1) * mn(p, 3, 0, 1, 0, 0, 3, 0));
    assert(t0 * q == (-1) * mn(p, 3, 0, 1, 0, 0, 3, 0));
    lemma_tm(p, 3, 2, 0, 1, 1, 0, 2, 0, 1, 0, 0, 1, 0, 0, 0, 0);
    assert(t1 * s0 == (3) * mn(p, 2, 0, 2, 1, 0, 2, 0));
    assert(t1 * q == (3) * mn(p, 2, 0, 2, 1, 0, 2, 0));
    lemma_tm(p, -3, 1, 0, 2, 2, 0, 1, 0, 1, 0, 0, 1, 0, 0, 0, 0);
    assert(t2 * s0 == (-3) * mn(p, 1, 0, 3, 2, 0, 1, 0));
    assert(t2 * q == (-3) * mn(p, 1, 0, 3, 2, 0, 1, 0));
    lemma_tm(p, 1, 0, 0, 3, 3, 0, 0, 0, 1, 0, 0, 1, 0, 0, 0, 0);
    assert(t3 * s0 == (1) * mn(p, 0, 0, 4, 3, 0, 0, 0));
    assert(t3 * q == (1) * mn(p, 0, 0, 4, 3, 0, 0, 0));
    assert(pp3 * q == (-1) * mn(p, 3, 0, 1, 0, 0, 3, 0) + (3) * mn(p, 2, 0, 2, 1, 0, 2, 0) + (-3) * mn(p, 1, 0, 3, 2, 0, 1, 0) + (1) * mn(p, 0, 0, 4, 3, 0, 0, 0));
}

#[verifier::rlimit(100)]
proof fn am1_prod33(p: Pt)
    ensures
        ((-1) * mn(p, 3, 0, 1, 0, 0, 3, 0) + (3) * mn(p, 2, 0, 2, 1, 0, 2, 0) + (-3) * mn(p, 1, 0, 3, 2, 0, 1, 0) + (1) * mn(p, 0, 0, 4, 3, 0, 0, 0)) * ((1) * mn(p, 0, 0, 0, 0, 0, 1, 0)) == (-1) * mn(p, 3, 0, 1, 0, 0, 4, 0) + (3) * mn(p, 2, 0, 2, 1, 0, 3, 0) + (-3) * mn(p, 1, 0, 3, 2, 0, 2, 0) + (1) * mn(p, 0, 0, 4, 3, 0, 1, 0),
{
    let t0 = (-1) * mn(p, 3, 0, 1, 0, 0, 3, 0);
    let t1 = (3) * mn(p, 2, 0, 2, 1, 0, 2, 0);
    let t2 = (-3) * mn(p, 1, 0, 3, 2, 0, 1, 0);
    let t3 = (1) * mn(p, 0, 0, 4, 3, 0, 0, 0);
    let s0 = (1) * mn(p, 0, 0, 0, 0, 0, 1, 0);
    let pp0 = t0;
    let pp1 = pp0 + t1;
    let pp2 = pp1 + t2;
    let pp3 = pp2 + t3;
    let qq0 = s0;
    let q = qq0;
    lemma_mul_is_distributive_add_other_way(q, pp0, t1);
    lemma_mul_is_distributive_add_other_way(q, pp1, t2);
    lemma_mul_is_distributive_add_other_way(q, pp2, t3);
    lemma_tm(p, -1, 3, 0, 1, 0, 0, 3, 0, 1, 0, 0, 0, 0, 0, 1, 0);
    assert(t0 * s0 == (-1) * mn(p, 3, 0, 1, 0, 0, 4, 0));
    assert(t0 * q == (-1) * mn(p, 3, 0, 1, 0, 0, 4, 0));
    lemma_tm(p, 3, 2, 0, 2, 1, 0, 2, 0, 1, 0, 0, 0, 0, 0, 1, 0);
    assert(t1 * s0 == (3) * mn(p, 2, 0, 2, 1, 0, 3, 0));
    assert(t1 * q == (3) * mn(p, 2, 0, 2, 1, 0, 3, 0));
    lemma_tm(p, -3, 1, 0, 3, 2, 0, 1, 0, 1, 0, 0, 0, 0, 0, 1, 0);
    assert(t2 * s0 == (-3) * mn(p, 1, 0, 3, 2, 0, 2, 0));
    assert(t2 * q == (-3) * mn(p, 1, 0, 3, 2, 0, 2, 0));
    lemma_tm(p, 1, 0, 0, 4, 3, 0, 0, 0, 1, 0, 0, 0, 0, 0, 1, 0);
    assert(t3 * s0 == (1) * mn(p, 0, 0, 4, 3, 0, 1, 0));
    assert(t3 * q == (1) * mn(p, 0, 0, 4, 3, 0, 1, 0));
    assert(pp3 * q == (-1) * mn(p, 3, 0, 1, 0, 0, 4, 0) + (3) * mn(p, 2, 0, 2, 1, 0, 3, 0) + (-3) * mn(p, 1, 0, 3, 2, 0, 2, 0) + (1) * mn(p, 0, 0, 4, 3, 0, 1, 0));
}

#[verifier::rlimit(100)]
proof fn am1_prod34(p: Pt)
    ensures
        ((3) * mn(p, 2, 0, 0, 0, 1, 1, 0) + (6) * mn(p, 1, 1, 0, 1, 0, 1, 0) + (1) * mn(p, 1, 1, 0, 0, 2, 0, 0) + (-3) * mn(p, 1, 1, 0, 0, 0, 2, 1) + (6) * mn(p, 1, 0, 1, 1, 1, 0, 0) + (-6) * mn(p, 1, 0, 1, 0, 1, 1, 1) + (1) * mn(p, 0, 2, 0, 1, 1, 0, 0) + (3) * mn(p, 0, 1, 1, 2, 0, 0, 0) + (-6) * mn(p, 0, 1, 1, 1, 0, 1, 1) + (9) * mn(p, 0, 1, 1, 0, 0, 2, 0) + (-3) * mn(p, 0, 0, 2, 1, 1, 0, 1) + (9) * mn(p, 0, 0, 2, 0, 1, 1, 0)) * ((-1) * mn(p, 3, 0, 1, 0, 0, 4, 0) + (3) * mn(p, 2, 0, 2, 1, 0, 3, 0) + (-3) * mn(p, 1, 0, 3, 2, 0, 2, 0) + (1) * mn(p, 0, 0, 4, 3, 0, 1, 0)) == (-3) * mn(p, 5, 0, 1, 0, 1, 5, 0) + (-6) * mn(p, 4, 1, 1, 1, 0, 5, 0) + (-1) * mn(p, 4, 1, 1, 0, 2, 4, 0) + (3) * mn(p, 4, 1, 1, 0, 0, 6, 1) + (3) * mn(p, 4, 0, 2, 1, 1, 4, 0) + (6) * mn(p, 4, 0, 2, 0, 1, 5, 1) + (-1) * mn(p, 3, 2, 1, 1, 1, 4, 0) + (15) * mn(p, 3, 1, 2, 2, 0, 4, 0) + (3) * mn(p, 3, 1, 2, 1, 2, 3, 0) + (-3) * mn(p, 3, 1, 2, 1, 0, 5, 1) + (-9) * mn(p, 3, 1, 2, 0, 0, 6, 0) + (9) * mn(p, 3, 0, 3, 2, 1, 3, 0) + (-15) * mn(p, 3, 0, 3, 1, 1, 4, 1) + (-9) * mn(p, 3, 0, 3, 0, 1, 5, 0) + (3) * mn(p, 2, 2, 2, 2, 1, 3, 0) + (-9) * mn(p, 2, 1, 3, 3, 0, 3, 0) + (-3) * mn(p, 2, 1, 3, 2, 2, 2, 0) + (-9) * mn(p, 2, 1, 3, 2, 0, 4, 1) + (27) * mn(p, 2, 1, 3, 1, 0, 5, 0) + (-15) * mn(p, 2, 0, 4, 3, 1, 2, 0) + (9) * mn(p, 2, 0, 4, 2, 1, 3, 1) + (27) * mn(p, 2, 0, 4, 1, 1, 4, 0) + (-3) * mn(p, 1, 2, 3, 3, 1, 2, 0) + (-3) * mn(p, 1, 1, 4, 4, 0, 2, 0) + (1) * mn(p, 1, 1, 4, 3, 2, 1, 0) + (15) * mn(p, 1, 1, 4, 3, 0, 3, 1) + (-27) * mn(p, 1, 1, 4, 2, 0, 4, 0) + (6) * mn(p, 1, 0, 5, 4, 1, 1, 0) + (3) * mn(p, 1, 0, 5, 3, 1, 2, 1) + (-27) * mn(p, 1, 0, 5, 2, 1, 3, 0) + (1) * mn(p, 0, 2, 4, 4, 1, 1, 0) + (3) * mn(p, 0, 1, 5, 5, 0, 1, 0) + (-6) * mn(p, 0, 1, 5, 4, 0, 2, 1) + (9) * mn(p, 0, 1, 5, 3, 0, 3, 0) + (-3) * mn(p, 0, 0, 6, 4, 1, 1, 1) + (9) * mn(p, 0, 0, 6, 3, 1, 2, 0),
{
    let t0 = (3) * mn(p, 2, 0, 0, 0, 1, 1, 0);
    let t1 = (6) * mn(p, 1, 1, 0, 1, 0, 1, 0);
    let t2 = (1) * mn(p, 1, 1, 0, 0, 2, 0, 0);
    let t3 = (-3) * mn(p, 1, 1, 0, 0, 0, 2, 1);
    let t4 = (6) * mn(p, 1, 0, 1, 1, 1, 0, 0);
    let t5 = (-6) * mn(p, 1, 0, 1, 0, 1, 1, 1);
    let t6 = (1) * mn(p, 0, 2, 0, 1, 1, 0, 0);
    let t7 = (3) * mn(p, 0, 1, 1, 2, 0, 0, 0);
    let t8 = (-6) * mn(p, 0, 1, 1, 1, 0, 1, 1);
    let t9 = (9) * mn(p, 0, 1, 1, 0, 0, 2, 0);
    let t10 = (-3) * mn(p, 0, 0, 2, 1, 1, 0, 1);
    let t11 = (9) * mn(p, 0, 0, 2, 0, 1, 1, 0);
    let s0 = (-1) * mn(p, 3, 0, 1, 0, 0, 4, 0);
    let s1 = (3) * mn(p, 2, 0, 2, 1, 0, 3, 0);
    let s2 = (-3) * mn(p, 1, 0, 3, 2, 0, 2, 0);
    let s3 = (1) * mn(p, 0, 0, 4, 3, 0, 1, 0);
    let pp0 = t0;
    let pp1 = pp0 + t1;
    let pp2 = pp1 + t2;
    let pp3 = pp2 + t3;
    let pp4 = pp3 + t4;
    let pp5 = pp4 + t5;
    let pp6 = pp5 + t6;
    let pp7 = pp6 + t7;
    let pp8 = pp7 + t8;
    let pp9 = pp8 + t9;
    let pp10 = pp9 + t10;
    let pp11 = pp10 + t11;
    let qq0 = s0;
    let qq1 = qq0 + s1;
    let qq2 = qq1 + s2;
    let qq3 = qq2 + s3;
    let q = qq3;
    lemma_mul_is_distributive_add_other_way(q, pp0, t1);
    lemma_mul_is_distributive_add_other_way(q, pp1, t2);
    lemma_mul_is_distributive_add_other_way(q, pp2, t3);
    lemma_mul_is_distributive_add_other_way(q, pp3, t4);
    lemma_mul_is_distributive_add_other_way(q, pp4, t5);
    lemma_mul_is_distributive_add_other_way(q, pp5, t6);
    lemma_mul_is_distributive_add_other_way(q, pp6, t7);
    lemma_mul_is_distributive_add_other_way(q, pp7, t8);
    lemma_mul_is_distributive_add_other_way(q, pp8, t9);
    lemma_mul_is_distributive_add_other_way(q, pp9, t10);
    lemma_mul_is_distributive_add_other_way(q, pp10, t11);
    lemma_mul_is_distributive_add(t0, qq0, s1);
    lemma_mul_is_distributive_add(t0, qq1, s2);
    lemma_mul_is_distributive_add(t0, qq2, s3);
    lemma_mul_is_distributive_add(t1, qq0, s1);
    lemma_mul_is_distributive_add(t1, qq1, s2);
    lemma_mul_is_distributive_add(t1, qq2, s3);
    lemma_mul_is_distributive_add(t2, qq0, s1);
    lemma_mul_is_distributive_add(t2, qq1, s2);
    lemma_mul_is_distributive_add(t2, qq2, s3);
    lemma_mul_is_distributive_add(t3, qq0, s1);
    lemma_mul_is_distributive_add(t3, qq1, s2);
    lemma_mul_is_distributive_add(t3, qq2, s3);
    lemma_mul_is_distributive_add(t4, qq0, s1);
    lemma_mul_is_distributive_add(t4, qq1, s2);
    lemma_mul_is_distributive_add(t4, qq2, s3);
    lemma_mul_is_distributive_add(t5, qq0, s1);
    lemma_mul_is_distributive_add(t5, qq1, s2);
    lemma_mul_is_distributive_add(t5, qq2, s3);
    lemma_mul_is_distributive_add(t6, qq0, s1);
    lemma_mul_is_distributive_add(t6, qq1, s2);
    lemma_mul_is_distributive_add(t6, qq2, s3);
    lemma_mul_is_distributive_add(t7, qq0, s1);
    lemma_mul_is_distributive_add(t7, qq1, s2);
    lemma_mul_is_distributive_add(t7, qq2, s3);
    lemma_mul_is_distributive_add(t8, qq0, s1);
    lemma_mul_is_distributive_add(t8, qq1, s2);
    lemma_mul_is_distributive_add(t8, qq2, s3);
    lemma_mul_is_distributive_add(t9, qq0, s1);
    lemma_mul_is_distributive_add(t9, qq1, s2);
    lemma_mul_is_distributive_add(t9, qq2, s3);
    lemma_mul_is_distributive_add(t10, qq0, s1);
    lemma_mul_is_distributive_add(t10, qq1, s2);
    lemma_mul_is_distributive_add(t10, qq2, s3);
    lemma_mul_is_distributive_add(t11, qq0, s1);
    lemma_mul_is_distributive_add(t11, qq1, s2);
    lemma_mul_is_distributive_add(t11, qq2, s3);
    lemma_tm(p, 3, 2, 0, 0, 0, 1, 1, 0, -1, 3, 0, 1, 0, 0, 4, 0);
    assert(t0 * s0 == (-3) * mn(p, 5, 0, 1, 0, 1, 5, 0));
    lemma_tm(p, 3, 2, 0, 0, 0, 1, 1, 0, 3, 2, 0, 2, 1, 0, 3, 0);
    assert(t0 * s1 == (9) * mn(p, 4, 0, 2, 1, 1, 4, 0));
    lemma_tm(p, 3, 2, 0, 0, 0, 1, 1, 0, -3, 1, 0, 3, 2, 0, 2, 0);
    assert(t0 * s2 == (-9) * mn(p, 3, 0, 3, 2, 1, 3, 0));
    lemma_tm(p, 3, 2, 0, 0, 0, 1, 1, 0, 1, 0, 0, 4, 3, 0, 1, 0);
    assert(t0 * s3 == (3) * mn(p, 2, 0, 4, 3, 1, 2, 0));
    assert(t0 * q == (-3) * mn(p, 5, 0, 1, 0, 1, 5, 0) + (9) * mn(p, 4, 0, 2, 1, 1, 4, 0) + (-9) * mn(p, 3, 0, 3, 2, 1, 3, 0) + (3) * mn(p, 2, 0, 4, 3, 1, 2, 0));
    lemma_tm(p, 6, 1, 1, 0, 1, 0, 1, 0, -1, 3, 0, 1, 0, 0, 4, 0);
    assert(t1 * s0 == (-6) * mn(p, 4, 1, 1, 1, 0, 5, 0));
    lemma_tm(p, 6, 1, 1, 0, 1, 0, 1, 0, 3, 2, 0, 2, 1, 0, 3, 0);
    assert(t1 * s1 == (18) * mn(p, 3, 1, 2, 2, 0, 4, 0));
    lemma_tm(p, 6, 1, 1, 0, 1, 0, 1, 0, -3, 1, 0, 3, 2, 0, 2, 0);
    assert(t1 * s2 == (-18) * mn(p, 2, 1, 3, 3, 0, 3, 0));
    lemma_tm(p, 6, 1, 1, 0, 1, 0, 1, 0, 1, 0, 0, 4, 3, 0, 1, 0);
    assert(t1 * s3 == (6) * mn(p, 1, 1, 4, 4, 0, 2, 0));
    assert(t1 * q == (-6) * mn(p, 4, 1, 1, 1, 0, 5, 0) + (18) * mn(p, 3, 1, 2, 2, 0, 4, 0) + (-18) * mn(p, 2, 1, 3, 3, 0, 3, 0) + (6) * mn(p, 1, 1, 4, 4, 0, 2, 0));
    lemma_tm(p, 1, 1, 1, 0, 0, 2, 0, 0, -1, 3, 0, 1, 0, 0, 4, 0);
    assert(t2 * s0 == (-1) * mn(p, 4, 1, 1, 0, 2, 4, 0));
    lemma_tm(p, 1, 1, 1, 0, 0, 2, 0, 0, 3, 2, 0, 2, 1, 0, 3, 0);
    assert(t2 * s1 == (3) * mn(p, 3, 1, 2, 1, 2, 3, 0));
    lemma_tm(p, 1, 1, 1, 0, 0, 2, 0, 0, -3, 1, 0, 3, 2, 0, 2, 0);
    assert(t2 * s2 == (-3) * mn(p, 2, 1, 3, 2, 2, 2, 0));
    lemma_tm(p, 1, 1, 1, 0, 0, 2, 0, 0, 1, 0, 0, 4, 3, 0, 1, 0);
    assert(t2 * s3 == (1) * mn(p, 1, 1, 4, 3, 2, 1, 0));
    assert(t2 * q == (-1) * mn(p, 4, 1, 1, 0, 2, 4, 0) + (3) * mn(p, 3, 1, 2, 1, 2, 3, 0) + (-3) * mn(p, 2, 1, 3, 2, 2, 2, 0) + (1) * mn(p, 1, 1, 4, 3, 2, 1, 0));
    lemma_tm(p, -3, 1, 1, 0, 0, 0, 2, 1, -1, 3, 0, 1, 0, 0, 4, 0);
    assert(t3 * s0 == (3) * mn(p, 4, 1, 1, 0, 0, 6, 1));
    lemma_tm(p, -3, 1, 1, 0, 0, 0, 2, 1, 3, 2, 0, 2, 1, 0, 3, 0);
    assert(t3 * s1 == (-9) * mn(p, 3, 1, 2, 1, 0, 5, 1));
    lemma_tm(p, -3, 1, 1, 0, 0, 0, 2, 1, -3, 1, 0, 3, 2, 0, 2, 0);
    assert(t3 * s2 == (9) * mn(p, 2, 1, 3, 2, 0, 4, 1));
    lemma_tm(p, -3, 1, 1, 0, 0, 0, 2, 1, 1, 0, 0, 4, 3, 0, 1, 0);
    assert(t3 * s3 == (-3) * mn(p, 1, 1, 4, 3, 0, 3, 1));
    assert(t3 * q == (3) * mn(p, 4, 1, 1, 0, 0, 6, 1) + (-9) * mn(p, 3, 1, 2, 1, 0, 5, 1) + (9) * mn(p, 2, 1, 3, 2, 0, 4, 1) + (-3) * mn(p, 1, 1, 4, 3, 0, 3, 1));
    lemma_tm(p, 6, 1, 0, 1, 1, 1, 0, 0, -1, 3, 0, 1, 0, 0, 4, 0);
    assert(t4 * s0 == (-6) * mn(p, 4, 0, 2, 1, 1, 4, 0));
    lemma_tm(p, 6, 1, 0, 1, 1, 1, 0, 0, 3, 2, 0, 2, 1, 0, 3, 0);
    assert(t4 * s1 == (18) * mn(p, 3, 0, 3, 2, 1, 3, 0));
    lemma_tm(p, 6, 1, 0, 1, 1, 1, 0, 0, -3, 1, 0, 3, 2, 0, 2, 0);
    assert(t4 * s2 == (-18) * mn(p, 2, 0, 4, 3, 1, 2, 0));
    lemma_tm(p, 6, 1, 0, 1, 1, 1, 0, 0, 1, 0, 0, 4, 3, 0, 1, 0);
    assert(t4 * s3 == (6) * mn(p, 1, 0, 5, 4, 1, 1, 0));
    assert(t4 * q == (-6) * mn(p, 4, 0, 2, 1, 1, 4, 0) + (18) * mn(p, 3, 0, 3, 2, 1, 3, 0) + (-18) * mn(p, 2, 0, 4, 3, 1, 2, 0) + (6) * mn(p, 1, 0, 5, 4, 1, 1, 0));
    lemma_tm(p, -6, 1, 0, 1, 0, 1, 1, 1, -1, 3, 0, 1, 0, 0, 4, 0);
    assert(t5 * s0 == (6) * mn(p, 4, 0, 2, 0, 1, 5, 1));
    lemma_tm(p, -6, 1, 0, 1, 0, 1, 1, 1, 3, 2, 0, 2, 1, 0, 3, 0);
    assert(t5 * s1 == (-18) * mn(p, 3, 0, 3, 1, 1, 4, 1));
    lemma_tm(p, -6, 1, 0, 1, 0, 1, 1, 1, -3, 1, 0, 3, 2, 0, 2, 0);
    assert(t5 * s2 == (18) * mn(p, 2, 0, 4, 2, 1, 3, 1));
    lemma_tm(p, -6, 1, 0, 1, 0, 1, 1, 1, 1, 0, 0, 4, 3, 0, 1, 0);
    assert(t5 * s3 == (-6) * mn(p, 1, 0, 5, 3, 1, 2, 1));
    assert(t5 * q == (6) * mn(p, 4, 0, 2, 0, 1, 5, 1) + (-18) * mn(p, 3, 0, 3, 1, 1, 4, 1) + (18) * mn(p, 2, 0, 4, 2, 1, 3, 1) + (-6) * mn(p, 1, 0, 5, 3, 1, 2, 1));
    lemma_tm(p, 1, 0, 2, 0, 1, 1, 0, 0, -1, 3, 0, 1, 0, 0, 4, 0);
    assert(t6 * s0 == (-1) * mn(p, 3, 2, 1, 1, 1, 4, 0));
    lemma_tm(p, 1, 0, 2, 0, 1, 1, 0, 0, 3, 2, 0, 2, 1, 0, 3, 0);
    assert(t6 * s1 == (3) * mn(p, 2, 2, 2, 2, 1, 3, 0));
    lemma_tm(p, 1, 0, 2, 0, 1, 1, 0, 0, -3, 1, 0, 3, 2, 0, 2, 0);
    assert(t6 * s2 == (-3) * mn(p, 1, 2, 3, 3, 1, 2, 0));
    lemma_tm(p, 1, 0, 2, 0, 1, 1, 0, 0, 1, 0, 0, 4, 3, 0, 1, 0);
    assert(t6 * s3 == (1) * mn(p, 0, 2, 4, 4, 1, 1, 0));
    assert(t6 * q == (-1) * mn(p, 3, 2, 1, 1, 1, 4, 0) + (3) * mn(p, 2, 2, 2, 2, 1, 3, 0) + (-3) * mn(p, 1, 2, 3, 3, 1, 2, 0) + (1) * mn(p, 0, 2, 4, 4, 1, 1, 0));
    lemma_tm(p, 3, 0, 1, 1, 2, 0, 0, 0, -1, 3, 0, 1, 0, 0, 4, 0);
    assert(t7 * s0 == (-3) * mn(p, 3, 1, 2, 2, 0, 4, 0));
    lemma_tm(p, 3, 0, 1, 1, 2, 0, 0, 0, 3, 2, 0, 2, 1, 0, 3, 0);
    assert(t7 * s1 == (9) * mn(p, 2, 1, 3, 3, 0, 3, 0));
    lemma_tm(p, 3, 0, 1, 1, 2, 0, 0, 0, -3, 1, 0, 3, 2, 0, 2, 0);
    assert(t7 * s2 == (-9) * mn(p, 1, 1, 4, 4, 0, 2, 0));
    lemma_tm(p, 3, 0, 1, 1, 2, 0, 0, 0, 1, 0, 0, 4, 3, 0, 1, 0);
    assert(t7 * s3 == (3) * mn(p, 0, 1, 5, 5, 0, 1, 0));
    assert(t7 * q == (-3) * mn(p, 3, 1, 2, 2, 0, 4, 0) + (9) * mn(p, 2, 1, 3, 3, 0, 3, 0) + (-9) * mn(p, 1, 1, 4, 4, 0, 2, 0) + (3) * mn(p, 0, 1, 5, 5, 0, 1, 0));
    lemma_tm(p, -6, 0, 1, 1, 1, 0, 1, 1, -1, 3, 0, 1, 0, 0, 4, 0);
    assert(t8 * s0 == (6) * mn(p, 3, 1, 2, 1, 0, 5, 1));
    lemma_tm(p, -6, 0, 1, 1, 1, 0, 1, 1, 3, 2, 0, 2, 1, 0, 3, 0);
    assert(t8 * s1 == (-18) * mn(p, 2, 1, 3, 2, 0, 4, 1));
    lemma_tm(p, -6, 0, 1, 1, 1, 0, 1, 1, -3, 1, 0, 3, 2, 0, 2, 0);
    assert(t8 * s2 == (18) * mn(p, 1, 1, 4, 3, 0, 3, 1));
    lemma_tm(p, -6, 0, 1, 1, 1, 0, 1, 1, 1, 0, 0, 4, 3, 0, 1, 0);
    assert(t8 * s3 == (-6) * mn(p, 0, 1, 5, 4, 0, 2, 1));
    assert(t8 * q == (6) * mn(p, 3, 1, 2, 1, 0, 5, 1) + (-18) * mn(p, 2, 1, 3, 2, 0, 4, 1) + (18) * mn(p, 1, 1, 4, 3, 0, 3, 1) + (-6) * mn(p, 0, 1, 5, 4, 0, 2, 1));
    lemma_tm(p, 9, 0, 1, 1, 0, 0, 2, 0, -1, 3, 0, 1, 0, 0, 4, 0);
    assert(t9 * s0 == (-9) * mn(p, 3, 1, 2, 0, 0, 6, 0));
    lemma_tm(p, 9, 0, 1, 1, 0, 0, 2, 0, 3, 2, 0, 2, 1, 0, 3, 0);
    assert(t9 * s1 == (27) * mn(p, 2, 1, 3, 1, 0, 5, 0));
    lemma_tm(p, 9, 0, 1, 1, 0, 0, 2, 0, -3, 1, 0, 3, 2, 0, 2, 0);
    assert(t9 * s2 == (-27) * mn(p, 1, 1, 4, 2, 0, 4, 0));
    lemma_tm(p, 9, 0, 1, 1, 0, 0, 2, 0, 1, 0, 0, 4, 3, 0, 1, 0);
    assert(t9 * s3 == (9) * mn(p, 0, 1, 5, 3, 0, 3, 0));
    assert(t9 * q == (-9) * mn(p, 3, 1, 2, 0, 0, 6, 0) + (27) * mn(p, 2, 1, 3, 1, 0, 5, 0) + (-27) * mn(p, 1, 1, 4, 2, 0, 4, 0) + (9) * mn(p, 0, 1, 5, 3, 0, 3, 0));
    lemma_tm(p, -3, 0, 0, 2, 1, 1, 0, 1, -1, 3, 0, 1, 0, 0, 4, 0);
    assert(t10 * s0 == (3) * mn(p, 3, 0, 3, 1, 1, 4, 1));
    lemma_tm(p, -3, 0, 0, 2, 1, 1, 0, 1, 3, 2, 0, 2, 1, 0, 3, 0);
    assert(t10 * s1 == (-9) * mn(p, 2, 0, 4, 2, 1, 3, 1));
    lemma_tm(p, -3, 0, 0, 2, 1, 1, 0, 1, -3, 1, 0, 3, 2, 0, 2, 0);
    assert(t10 * s2 == (9) * mn(p, 1, 0, 5, 3, 1, 2, 1));
    lemma_tm(p, -3, 0, 0, 2, 1, 1, 0, 1, 1, 0, 0, 4, 3, 0, 1, 0);
    assert(t10 * s3 == (-3) * mn(p, 0, 0, 6, 4, 1, 1, 1));
    assert(t10 * q == (3) * mn(p, 3, 0, 3, 1, 1, 4, 1) + (-9) * mn(p, 2, 0, 4, 2, 1, 3, 1) + (9) * mn(p, 1, 0, 5, 3, 1, 2, 1) + (-3) * mn(p, 0, 0, 6, 4, 1, 1, 1));
    lemma_tm(p, 9, 0, 0, 2, 0, 1, 1, 0, -1, 3, 0, 1, 0, 0, 4, 0);
    assert(t11 * s0 == (-9) * mn(p, 3, 0, 3, 0, 1, 5, 0));
    lemma_tm(p, 9, 0, 0, 2, 0, 1, 1, 0, 3, 2, 0, 2, 1, 0, 3, 0);
    assert(t11 * s1 == (27) * mn(p, 2, 0, 4, 1, 1, 4, 0));
    lemma_tm(p, 9, 0, 0, 2, 0, 1, 1, 0, -3, 1, 0, 3, 2, 0, 2, 0);
    assert(t11 * s2 == (-27) * mn(p, 1, 0, 5, 2, 1, 3, 0));
    lemma_tm(p, 9, 0, 0, 2, 0, 1, 1, 0, 1, 0, 0, 4, 3, 0, 1, 0);
    assert(t11 * s3 == (9) * mn(p, 0, 0, 6, 3, 1, 2, 0));
    assert(t11 * q == (-9) * mn(p, 3, 0, 3, 0, 1, 5, 0) + (27) * mn(p, 2, 0, 4, 1, 1, 4, 0) + (-27) * mn(p, 1, 0, 5, 2, 1, 3, 0) + (9) * mn(p, 0, 0, 6, 3, 1, 2, 0));
    assert(pp11 * q == (-3) * mn(p, 5, 0, 1, 0, 1, 5, 0) + (-6) * mn(p, 4, 1, 1, 1, 0, 5, 0) + (-1) * mn(p, 4, 1, 1, 0, 2, 4, 0) + (3) * mn(p, 4, 1, 1, 0, 0, 6, 1) + (3) * mn(p, 4, 0, 2, 1, 1, 4, 0) + (6) * mn(p, 4, 0, 2, 0, 1, 5, 1) + (-1) * mn(p, 3, 2, 1, 1, 1, 4, 0) + (15) * mn(p, 3, 1, 2, 2, 0, 4, 0) + (3) * mn(p, 3, 1, 2, 1, 2, 3, 0) + (-3) * mn(p, 3, 1, 2, 1, 0, 5, 1) + (-9) * mn(p, 3, 1, 2, 0, 0, 6, 0) + (9) * mn(p, 3, 0, 3, 2, 1, 3, 0) + (-15) * mn(p, 3, 0, 3, 1, 1, 4, 1) + (-9) * mn(p, 3, 0, 3, 0, 1, 5, 0) + (3) * mn(p, 2, 2, 2, 2, 1, 3, 0) + (-9) * mn(p, 2, 1, 3, 3, 0, 3, 0) + (-3) * mn(p, 2, 1, 3, 2, 2, 2, 0) + (-9) * mn(p, 2, 1, 3, 2, 0, 4, 1) + (27) * mn(p, 2, 1, 3, 1, 0, 5, 0) + (-15) * mn(p, 2, 0, 4, 3, 1, 2, 0) + (9) * mn(p, 2, 0, 4, 2, 1, 3, 1) + (27) * mn(p, 2, 0, 4, 1, 1, 4, 0) + (-3) * mn(p, 1, 2, 3, 3, 1, 2, 0) + (-3) * mn(p, 1, 1, 4, 4, 0, 2, 0) + (1) * mn(p, 1, 1, 4, 3, 2, 1, 0) + (15) * mn(p, 1, 1, 4, 3, 0, 3, 1) + (-27) * mn(p, 1, 1, 4, 2, 0, 4, 0) + (6) * mn(p, 1, 0, 5, 4, 1, 1, 0) + (3) * mn(p, 1, 0, 5, 3, 1, 2, 1) + (-27) * mn(p, 1, 0, 5, 2, 1, 3, 0) + (1) * mn(p, 0, 2, 4, 4, 1, 1, 0) + (3) * mn(p, 0, 1, 5, 5, 0, 1, 0) + (-6) * mn(p, 0, 1, 5, 4, 0, 2, 1) + (9) * mn(p, 0, 1, 5, 3, 0, 3, 0) + (-3) * mn(p, 0, 0, 6, 4, 1, 1, 1) + (9) * mn(p, 0, 0, 6, 3, 1, 2, 0));
}

#[verifier::rlimit(100)]
proof fn am1_prod35(p: Pt)
    ensures
        ((1) * mn(p, 4, 0, 0, 0, 0, 4, 0) + (-2) * mn(p, 3, 0, 1, 1, 0, 3, 0) + (-1) * mn(p, 1, 2, 1, 0, 0, 4, 0) + (2) * mn(p, 1, 1, 2, 0, 1, 3, 0) + (2) * mn(p, 1, 0, 3, 3, 0, 1, 0) + (-1) * mn(p, 1, 0, 3, 0, 2, 2, 0) + (1) * mn(p, 0, 2, 2, 1, 0, 3, 0) + (-2) * mn(p, 0, 1, 3, 1, 1, 2, 0) + (-1) * mn(p, 0, 0, 4, 4, 0, 0, 0) + (1) * mn(p, 0, 0, 4, 1, 2, 1, 0)) * ((3) * mn(p, 2, 0, 0, 1, 1, 0, 0) + (3) * mn(p, 1, 1, 0, 2, 0, 0, 0) + (-3) * mn(p, 1, 1, 0, 0, 0, 2, 0) + (-6) * mn(p, 1, 0, 1, 0, 1, 1, 0) + (1) * mn(p, 0, 2, 0, 0, 1, 1, 0) + (-6) * mn(p, 0, 1, 1, 1, 0, 1, 0) + (1) * mn(p, 0, 1, 1, 0, 2, 0, 0) + (3) * mn(p, 0, 1, 1, 0, 0, 2, 1) + (-3) * mn(p, 0, 0, 2, 1, 1, 0, 0) + (3) * mn(p, 0, 0, 2, 0, 1, 1, 1)) == (3) * mn(p, 6, 0, 0, 1, 1, 4, 0) + (3) * mn(p, 5, 1, 0, 2, 0, 4, 0) + (-3) * mn(p, 5, 1, 0, 0, 0, 6, 0) + (-6) * mn(p, 5, 0, 1, 2, 1, 3, 0) + (-6) * mn(p, 5, 0, 1, 0, 1, 5, 0) + (1) * mn(p, 4, 2, 0, 0, 1, 5, 0) + (-6) * mn(p, 4, 1, 1, 3, 0, 3, 0) + (1) * mn(p, 4, 1, 1, 0, 2, 4, 0) + (3) * mn(p, 4, 1, 1, 0, 0, 6, 1) + (9) * mn(p, 4, 0, 2, 1, 1, 4, 0) + (3) * mn(p, 4, 0, 2, 0, 1, 5, 1) + (-5) * mn(p, 3, 2, 1, 1, 1, 4, 0) + (12) * mn(p, 3, 1, 2, 2, 0, 4, 0) + (4) * mn(p, 3, 1, 2, 1, 2, 3, 0) + (-6) * mn(p, 3, 1, 2, 1, 0, 5, 1) + (6) * mn(p, 3, 0, 3, 4, 1, 1, 0) + (6) * mn(p, 3, 0, 3, 2, 1, 3, 0) + (-3) * mn(p, 3, 0, 3, 1, 3, 2, 0) + (-6) * mn(p, 3, 0, 3, 1, 1, 4, 1) + (-3) * mn(p, 2, 3, 1, 2, 0, 4, 0) + (3) * mn(p, 2, 3, 1, 0, 0, 6, 0) + (9) * mn(p, 2, 2, 2, 2, 1, 3, 0) + (6) * mn(p, 2, 1, 3, 5, 0, 1, 0) + (-6) * mn(p, 2, 1, 3, 3, 0, 3, 0) + (-9) * mn(p, 2, 1, 3, 2, 2, 2, 0) + (-9) * mn(p, 2, 1, 3, 0, 2, 4, 0) + (-3) * mn(p, 2, 0, 4, 5, 1, 0, 0) + (-12) * mn(p, 2, 0, 4, 3, 1, 2, 0) + (3) * mn(p, 2, 0, 4, 2, 3, 1, 0) + (6) * mn(p, 2, 0, 4, 0, 3, 3, 0) + (-1) * mn(p, 1, 4, 1, 0, 1, 5, 0) + (3) * mn(p, 1, 3, 2, 3, 0, 3, 0) + (3) * mn(p, 1, 3, 2, 1, 0, 5, 0) + (1) * mn(p, 1, 3, 2, 0, 2, 4, 0) + (-3) * mn(p, 1, 3, 2, 0, 0, 6, 1) + (-4) * mn(p, 1, 2, 3, 3, 1, 2, 0) + (-9) * mn(p, 1, 2, 3, 1, 1, 4, 0) + (1) * mn(p, 1, 2, 3, 0, 3, 3, 0) + (3) * mn(p, 1, 2, 3, 0, 1, 5, 1) + (-3) * mn(p, 1, 1, 4, 6, 0, 0, 0) + (-9) * mn(p, 1, 1, 4, 4, 0, 2, 0) + (5) * mn(p, 1, 1, 4, 3, 2, 1, 0) + (6) * mn(p, 1, 1, 4, 3, 0, 3, 1) + (9) * mn(p, 1, 1, 4, 1, 2, 3, 0) + (-1) * mn(p, 1, 1, 4, 0, 4, 2, 0) + (3) * mn(p, 1, 1, 4, 0, 2, 4, 1) + (6) * mn(p, 1, 0, 5, 3, 1, 2, 1) + (-3) * mn(p, 1, 0, 5, 1, 3, 2, 0) + (-3) * mn(p, 1, 0, 5, 0, 3, 3, 1) + (1) * mn(p, 0, 4, 2, 1, 1, 4, 0) + (-6) * mn(p, 0, 3, 3, 2, 0, 4, 0) + (-1) * mn(p, 0, 3, 3, 1, 2, 3, 0) + (3) * mn(p, 0, 3, 3, 1, 0, 5, 1) + (-1) * mn(p, 0, 2, 4, 4, 1, 1, 0) + (9) * mn(p, 0, 2, 4, 2, 1, 3, 0) + (-1) * mn(p, 0, 2, 4, 1, 3, 2, 0) + (-3) * mn(p, 0, 2, 4, 1, 1, 4, 1) + (6) * mn(p, 0, 1, 5, 5, 0, 1, 0) + (-1) * mn(p, 0, 1, 5, 4, 2, 0, 0) + (-3) * mn(p, 0, 1, 5, 4, 0, 2, 1) + (1) * mn(p, 0, 1, 5, 1, 4, 1, 0) + (-3) * mn(p, 0, 1, 5, 1, 2, 3, 1) + (3) * mn(p, 0, 0, 6, 5, 1, 0, 0) + (-3) * mn(p, 0, 0, 6, 4, 1, 1, 1) + (-3) * mn(p, 0, 0, 6, 2, 3, 1, 0) + (3) * mn(p, 0, 0, 6, 1, 3, 2, 1),
{
    let t0 = (1) * mn(p, 4, 0, 0, 0, 0, 4, 0);
    let t1 = (-2) * mn(p, 3, 0, 1, 1, 0, 3, 0);
    let t2 = (-1) * mn(p, 1, 2, 1, 0, 0, 4, 0);
    let t3 = (2) * mn(p, 1, 1, 2, 0, 1, 3, 0);
    let t4 = (2) * mn(p, 1, 0, 3, 3, 0, 1, 0);
    let t5 = (-1) * mn(p, 1, 0, 3, 0, 2, 2, 0);
    let t6 = (1) * mn(p, 0, 2, 2, 1, 0, 3, 0);
    let t7 = (-2) * mn(p, 0, 1, 3, 1, 1, 2, 0);
    let t8 = (-1) * mn(p, 0, 0, 4, 4, 0, 0, 0);
    let t9 = (1) * mn(p, 0, 0, 4, 1, 2, 1, 0);
    let s0 = (3) * mn(p, 2, 0, 0, 1, 1, 0, 0);
    let s1 = (3) * mn(p, 1, 1, 0, 2, 0, 0, 0);
    let s2 = (-3) * mn(p, 1, 1, 0, 0, 0, 2, 0);
    let s3 = (-6) * mn(p, 1, 0, 1, 0, 1, 1, 0);
    let s4 = (1) * mn(p, 0, 2, 0, 0, 1, 1, 0);
    let s5 = (-6) * mn(p, 0, 1, 1, 1, 0, 1, 0);
    let s6 = (1) * mn(p, 0, 1, 1, 0, 2, 0, 0);
    let s7 = (3) * mn(p, 0, 1, 1, 0, 0, 2, 1);
    let s8 = (-3) * mn(p, 0, 0, 2, 1, 1, 0, 0);
    let s9 = (3) * mn(p, 0, 0, 2, 0, 1, 1, 1);
    let pp0 = t0;
    let pp1 = pp0 + t1;
    let pp2 = pp1 + t2;
    let pp3 = pp2 + t3;
    let pp4 = pp3 + t4;
    let pp5 = pp4 + t5;
    let pp6 = pp5 + t6;
    let pp7 = pp6 + t7;
    let pp8 = pp7 + t8;
    let pp9 = pp8 + t9;
    let qq0 = s0;
    let qq1 = qq0 + s1;
    let qq2 = qq1 + s2;
    let qq3 = qq2 + s3;
    let qq4 = qq3 + s4;
    let qq5 = qq4 + s5;
    let qq6 = qq5 + s6;
    let qq7 = qq6 + s7;
    let qq8 = qq7 + s8;
    let qq9 = qq8 + s9;
    let q = qq9;
    lemma_mul_is_distributive_add_other_way(q, pp0, t1);
    lemma_mul_is_distributive_add_other_way(q, pp1, t2);
    lemma_mul_is_distributive_add_other_way(q, pp2, t3);
    lemma_mul_is_distributive_add_other_way(q, pp3, t4);
    lemma_mul_is_distributive_add_other_way(q, pp4, t5);
    lemma_mul_is_distributive_add_other_way(q, pp5, t6);
    lemma_mul_is_distributive_add_other_way(q, pp6, t7);
    lemma_mul_is_distributive_add_other_way(q, pp7, t8);
    lemma_mul_is_distributive_add_other_way(q, pp8, t9);
    lemma_mul_is_distributive_add(t0, qq0, s1);
    lemma_mul_is_distributive_add(t0, qq1, s2);
    lemma_mul_is_distributive_add(t0, qq2, s3);
    lemma_mul_is_distributive_add(t0, qq3, s4);
    lemma_mul_is_distributive_add(t0, qq4, s5);
    lemma_mul_is_distributive_add(t0, qq5, s6);
    lemma_mul_is_distributive_add(t0, qq6, s7);
    lemma_mul_is_distributive_add(t0, qq7, s8);
    lemma_mul_is_distributive_add(t0, qq8, s9);
    lemma_mul_is_distributive_add(t1, qq0, s1);
    lemma_mul_is_distributive_add(t1, qq1, s2);
    lemma_mul_is_distributive_add(t1, qq2, s3);
    lemma_mul_is_distributive_add(t1, qq3, s4);
    lemma_mul_is_distributive_add(t1, qq4, s5);
    lemma_mul_is_distributive_add(t1, qq5, s6);
    lemma_mul_is_distributive_add(t1, qq6, s7);
    lemma_mul_is_distributive_add(t1, qq7, s8);
    lemma_mul_is_distributive_add(t1, qq8, s9);
    lemma_mul_is_distributive_add(t2, qq0, s1);
    lemma_mul_is_distributive_add(t2, qq1, s2);
    lemma_mul_is_distributive_add(t2, qq2, s3);
    lemma_mul_is_distributive_add(t2, qq3, s4);
    lemma_mul_is_distributive_add(t2, qq4, s5);
    lemma_mul_is_distributive_add(t2, qq5, s6);
    lemma_mul_is_distributive_add(t2, qq6, s7);
    lemma_mul_is_distributive_add(t2, qq7, s8);
    lemma_mul_is_distributive_add(t2, qq8, s9);
    lemma_mul_is_distributive_add(t3, qq0, s1);
    lemma_mul_is_distributive_add(t3, qq1, s2);
    lemma_mul_is_distributive_add(t3, qq2, s3);
    lemma_mul_is_distributive_add(t3, qq3, s4);
    lemma_mul_is_distributive_add(t3, qq4, s5);
    lemma_mul_is_distributive_add(t3, qq5, s6);
    lemma_mul_is_distributive_add(t3, qq6, s7);
    lemma_mul_is_distributive_add(t3, qq7, s8);
    lemma_mul_is_distributive_add(t3, qq8, s9);
    lemma_mul_is_distributive_add(t4, qq0, s1);
    lemma_mul_is_distributive_add(t4, qq1, s2);
    lemma_mul_is_distributive_add(t4, qq2, s3);
    lemma_mul_is_distributive_add(t4, qq3, s4);
    lemma_mul_is_distributive_add(t4, qq4, s5);
    lemma_mul_is_distributive_add(t4, qq5, s6);
    lemma_mul_is_distributive_add(t4, qq6, s7);
    lemma_mul_is_distributive_add(t4, qq7, s8);
    lemma_mul_is_distributive_add(t4, qq8, s9);
    lemma_mul_is_distributive_add(t5, qq0, s1);
    lemma_mul_is_distributive_add(t5, qq1, s2);
    lemma_mul_is_distributive_add(t5, qq2, s3);
    lemma_mul_is_distributive_add(t5, qq3, s4);
    lemma_mul_is_distributive_add(t5, qq4, s5);
    lemma_mul_is_distributive_add(t5, qq5, s6);
    lemma_mul_is_distributive_add(t5, qq6, s7);
    lemma_mul_is_distributive_add(t5, qq7, s8);
    lemma_mul_is_distributive_add(t5, qq8, s9);
    lemma_mul_is_distributive_add(t6, qq0, s1);
    lemma_mul_is_distributive_add(t6, qq1, s2);
    lemma_mul_is_distributive_add(t6, qq2, s3);
    lemma_mul_is_distributive_add(t6, qq3, s4);
    lemma_mul_is_distributive_add(t6, qq4, s5);
    lemma_mul_is_distributive_add(t6, qq5, s6);
    lemma_mul_is_distributive_add(t6, qq6, s7);
    lemma_mul_is_distributive_add(t6, qq7, s8);
    lemma_mul_is_distributive_add(t6, qq8, s9);
    lemma_mul_is_distributive_add(t7, qq0, s1);
    lemma_mul_is_distributive_add(t7, qq1, s2);
    lemma_mul_is_distributive_add(t7, qq2, s3);
    lemma_mul_is_distributive_add(t7, qq3, s4);
    lemma_mul_is_distributive_add(t7, qq4, s5);
    lemma_mul_is_distributive_add(t7, qq5, s6);
    lemma_mul_is_distributive_add(t7, qq6, s7);
    lemma_mul_is_distributive_add(t7, qq7, s8);
    lemma_mul_is_distributive_add(t7, qq8, s9);
    lemma_mul_is_distributive_add(t8, qq0, s1);
    lemma_mul_is_distributive_add(t8, qq1, s2);
    lemma_mul_is_distributive_add(t8, qq2, s3);
    lemma_mul_is_distributive_add(t8, qq3, s4);
    lemma_mul_is_distributive_add(t8, qq4, s5);
    lemma_mul_is_distributive_add(t8, qq5, s6);
    lemma_mul_is_distributive_add(t8, qq6, s7);
    lemma_mul_is_distributive_add(t8, qq7, s8);
    lemma_mul_is_distributive_add(t8, qq8, s9);
    lemma_mul_is_distributive_add(t9, qq0, s1);
    lemma_mul_is_distributive_add(t9, qq1, s2);
    lemma_mul_is_distributive_add(t9, qq2, s3);
    lemma_mul_is_distributive_add(t9, qq3, s4);
    lemma_mul_is_distributive_add(t9, qq4, s5);
    lemma_mul_is_distributive_add(t9, qq5, s6);
    lemma_mul_is_distributive_add(t9, qq6, s7);
    lemma_mul_is_distributive_add(t9, qq7, s8);
    lemma_mul_is_distributive_add(t9, qq8, s9);
    lemma_tm(p, 1, 4, 0, 0, 0, 0, 4, 0, 3, 2, 0, 0, 1, 1, 0, 0);
    assert(t0 * s0 == (3) * mn(p, 6, 0, 0, 1, 1, 4, 0));
    lemma_tm(p, 1, 4, 0, 0, 0, 0, 4, 0, 3, 1, 1, 0, 2, 0, 0, 0);
    assert(t0 * s1 == (3) * mn(p, 5, 1, 0, 2, 0, 4, 0));
    lemma_tm(p, 1, 4, 0, 0, 0, 0, 4, 0, -3, 1, 1, 0, 0, 0, 2, 0);
    assert(t0 * s2 == (-3) * mn(p, 5, 1, 0, 0, 0, 6, 0));
    lemma_tm(p, 1, 4, 0, 0, 0, 0, 4, 0, -6, 1, 0, 1, 0, 1, 1, 0);
    assert(t0 * s3 == (-6) * mn(p, 5, 0, 1, 0, 1, 5, 0));
    lemma_tm(p, 1, 4, 0, 0, 0, 0, 4, 0, 1, 0, 2, 0, 0, 1, 1, 0);
    assert(t0 * s4 == (1) * mn(p, 4, 2, 0, 0, 1, 5, 0));
    lemma_tm(p, 1, 4, 0, 0, 0, 0, 4, 0, -6, 0, 1, 1, 1, 0, 1, 0);
    assert(t0 * s5 == (-6) * mn(p, 4, 1, 1, 1, 0, 5, 0));
    lemma_tm(p, 1, 4, 0, 0, 0, 0, 4, 0, 1, 0, 1, 1, 0, 2, 0, 0);
    assert(t0 * s6 == (1) * mn(p, 4, 1, 1, 0, 2, 4, 0));
    lemma_tm(p, 1, 4, 0, 0, 0, 0, 4, 0, 3, 0, 1, 1, 0, 0, 2, 1);
    assert(t0 * s7 == (3) * mn(p, 4, 1, 1, 0, 0, 6, 1));
    lemma_tm(p, 1, 4, 0, 0, 0, 0, 4, 0, -3, 0, 0, 2, 1, 1, 0, 0);
    assert(t0 * s8 == (-3) * mn(p, 4, 0, 2, 1, 1, 4, 0));
    lemma_tm(p, 1, 4, 0, 0, 0, 0, 4, 0, 3, 0, 0, 2, 0, 1, 1, 1);
    assert(t0 * s9 == (3) * mn(p, 4, 0, 2, 0, 1, 5, 1));
    assert(t0 * q == (3) * mn(p, 6, 0, 0, 1, 1, 4, 0) + (3) * mn(p, 5, 1, 0, 2, 0, 4, 0) + (-3) * mn(p, 5, 1, 0, 0, 0, 6, 0) + (-6) * mn(p, 5, 0, 1, 0, 1, 5, 0) + (1) * mn(p, 4, 2, 0, 0, 1, 5, 0) + (-6) * mn(p, 4, 1, 1, 1, 0, 5, 0) + (1) * mn(p, 4, 1, 1, 0, 2, 4, 0) + (3) * mn(p, 4, 1, 1, 0, 0, 6, 1) + (-3) * mn(p, 4, 0, 2, 1, 1, 4, 0) + (3) * mn(p, 4, 0, 2, 0, 1, 5, 1));
    lemma_tm(p, -2, 3, 0, 1, 1, 0, 3, 0, 3, 2, 0, 0, 1, 1, 0, 0);
    assert(t1 * s0 == (-6) * mn(p, 5, 0, 1, 2, 1, 3, 0));
    lemma_tm(p, -2, 3, 0, 1, 1, 0, 3, 0, 3, 1, 1, 0, 2, 0, 0, 0);
    assert(t1 * s1 == (-6) * mn(p, 4, 1, 1, 3, 0, 3, 0));
    lemma_tm(p, -2, 3, 0, 1, 1, 0, 3, 0, -3, 1, 1, 0, 0, 0, 2, 0);
    assert(t1 * s2 == (6) * mn(p, 4, 1, 1, 1, 0, 5, 0));
    lemma_tm(p, -2, 3, 0, 1, 1, 0, 3, 0, -6, 1, 0, 1, 0, 1, 1, 0);
    assert(t1 * s3 == (12) * mn(p, 4, 0, 2, 1, 1, 4, 0));
    lemma_tm(p, -2, 3, 0, 1, 1, 0, 3, 0, 1, 0, 2, 0, 0, 1, 1, 0);
    assert(t1 * s4 == (-2) * mn(p, 3, 2, 1, 1, 1, 4, 0));
    lemma_tm(p, -2, 3, 0, 1, 1, 0, 3, 0, -6, 0, 1, 1, 1, 0, 1, 0);
    assert(t1 * s5 == (12) * mn(p, 3, 1, 2, 2, 0, 4, 0));
    lemma_tm(p, -2, 3, 0, 1, 1, 0, 3, 0, 1, 0, 1, 1, 0, 2, 0, 0);
    assert(t1 * s6 == (-2) * mn(p, 3, 1, 2, 1, 2, 3, 0));
    lemma_tm(p, -2, 3, 0, 1, 1, 0, 3, 0, 3, 0, 1, 1, 0, 0, 2, 1);
    assert(t1 * s7 == (-6) * mn(p, 3, 1, 2, 1, 0, 5, 1));
    lemma_tm(p, -2, 3, 0, 1, 1, 0, 3, 0, -3, 0, 0, 2, 1, 1, 0, 0);
    assert(t1 * s8 == (6) * mn(p, 3, 0, 3, 2, 1, 3, 0));
    lemma_tm(p, -2, 3, 0, 1, 1, 0, 3, 0, 3, 0, 0, 2, 0, 1, 1, 1);
    assert(t1 * s9 == (-6) * mn(p, 3, 0, 3, 1, 1, 4, 1));
    assert(t1 * q == (-6) * mn(p, 5, 0, 1, 2, 1, 3, 0) + (-6) * mn(p, 4, 1, 1, 3, 0, 3, 0) + (6) * mn(p, 4, 1, 1, 1, 0, 5, 0) + (12) * mn(p, 4, 0, 2, 1, 1, 4, 0) + (-2) * mn(p, 3, 2, 1, 1, 1, 4, 0) + (12) * mn(p, 3, 1, 2, 2, 0, 4, 0) + (-2) * mn(p, 3, 1, 2, 1, 2, 3, 0) + (-6) * mn(p, 3, 1, 2, 1, 0, 5, 1) + (6) * mn(p, 3, 0, 3, 2, 1, 3, 0) + (-6) * mn(p, 3, 0, 3, 1, 1, 4, 1));
    lemma_tm(p, -1, 1, 2, 1, 0, 0, 4, 0, 3, 2, 0, 0, 1, 1, 0, 0);
    assert(t2 * s0 == (-3) * mn(p, 3, 2, 1, 1, 1, 4, 0));
    lemma_tm(p, -1, 1, 2, 1, 0, 0, 4, 0, 3, 1, 1, 0, 2, 0, 0, 0);
    assert(t2 * s1 == (-3) * mn(p, 2, 3, 1, 2, 0, 4, 0));
    lemma_tm(p, -1, 1, 2, 1, 0, 0, 4, 0, -3, 1, 1, 0, 0, 0, 2, 0);
    assert(t2 * s2 == (3) * mn(p, 2, 3, 1, 0, 0, 6, 0));
    lemma_tm(p, -1, 1, 2, 1, 0, 0, 4, 0, -6, 1, 0, 1, 0, 1, 1, 0);
    assert(t2 * s3 == (6) * mn(p, 2, 2, 2, 0, 1, 5, 0));
    lemma_tm(p, -1, 1, 2, 1, 0, 0, 4, 0, 1, 0, 2, 0, 0, 1, 1, 0);
    assert(t2 * s4 == (-1) * mn(p, 1, 4, 1, 0, 1, 5, 0));
    lemma_tm(p, -1, 1, 2, 1, 0, 0, 4, 0, -6, 0, 1, 1, 1, 0, 1, 0);
    assert(t2 * s5 == (6) * mn(p, 1, 3, 2, 1, 0, 5, 0));
    lemma_tm(p, -1, 1, 2, 1, 0, 0, 4, 0, 1, 0, 1, 1, 0, 2, 0, 0);
    assert(t2 * s6 == (-1) * mn(p, 1, 3, 2, 0, 2, 4, 0));
    lemma_tm(p, -1, 1, 2, 1, 0, 0, 4, 0, 3, 0, 1, 1, 0, 0, 2, 1);
    assert(t2 * s7 == (-3) * mn(p, 1, 3, 2, 0, 0, 6, 1));
    lemma_tm(p, -1, 1, 2, 1, 0, 0, 4, 0, -3, 0, 0, 2, 1, 1, 0, 0);
    assert(t2 * s8 == (3) * mn(p, 1, 2, 3, 1, 1, 4, 0));
    lemma_tm(p, -1, 1, 2, 1, 0, 0, 4, 0, 3, 0, 0, 2, 0, 1, 1, 1);
    assert(t2 * s9 == (-3) * mn(p, 1, 2, 3, 0, 1, 5, 1));
    assert(t2 * q == (-3) * mn(p, 3, 2, 1, 1, 1, 4, 0) + (-3) * mn(p, 2, 3, 1, 2, 0, 4, 0) + (3) * mn(p, 2, 3, 1, 0, 0, 6, 0) + (6) * mn(p, 2, 2, 2, 0, 1, 5, 0) + (-1) * mn(p, 1, 4, 1, 0, 1, 5, 0) + (6) * mn(p, 1, 3, 2, 1, 0, 5, 0) + (-1) * mn(p, 1, 3, 2, 0, 2, 4, 0) + (-3) * mn(p, 1, 3, 2, 0, 0, 6, 1) + (3) * mn(p, 1, 2, 3, 1, 1, 4, 0) + (-3) * mn(p, 1, 2, 3, 0, 1, 5, 1));
    lemma_tm(p, 2, 1, 1, 2, 0, 1, 3, 0, 3, 2, 0, 0, 1, 1, 0, 0);
    assert(t3 * s0 == (6) * mn(p, 3, 1, 2, 1, 2, 3, 0));
    lemma_tm(p, 2, 1, 1, 2, 0, 1, 3, 0, 3, 1, 1, 0, 2, 0, 0, 0);
    assert(t3 * s1 == (6) * mn(p, 2, 2, 2, 2, 1, 3, 0));
    lemma_tm(p, 2, 1, 1, 2, 0, 1, 3, 0, -3, 1, 1, 0, 0, 0, 2, 0);
    assert(t3 * s2 == (-6) * mn(p, 2, 2, 2, 0, 1, 5, 0));
    lemma_tm(p, 2, 1, 1, 2, 0, 1, 3, 0, -6, 1, 0, 1, 0, 1, 1, 0);
    assert(t3 * s3 == (-12) * mn(p, 2, 1, 3, 0, 2, 4, 0));
    lemma_tm(p, 2, 1, 1, 2, 0, 1, 3, 0, 1, 0, 2, 0, 0, 1, 1, 0);
    assert(t3 * s4 == (2) * mn(p, 1, 3, 2, 0, 2, 4, 0));
    lemma_tm(p, 2, 1, 1, 2, 0, 1, 3, 0, -6, 0, 1, 1, 1, 0, 1, 0);
    assert(t3 * s5 == (-12) * mn(p, 1, 2, 3, 1, 1, 4, 0));
    lemma_tm(p, 2, 1, 1, 2, 0, 1, 3, 0, 1, 0, 1, 1, 0, 2, 0, 0);
    assert(t3 * s6 == (2) * mn(p, 1, 2, 3, 0, 3, 3, 0));
    lemma_tm(p, 2, 1, 1, 2, 0, 1, 3, 0, 3, 0, 1, 1, 0, 0, 2, 1);
    assert(t3 * s7 == (6) * mn(p, 1, 2, 3, 0, 1, 5, 1));
    lemma_tm(p, 2, 1, 1, 2, 0, 1, 3, 0, -3, 0, 0, 2, 1, 1, 0, 0);
    assert(t3 * s8 == (-6) * mn(p, 1, 1, 4, 1, 2, 3, 0));
    lemma_tm(p, 2, 1, 1, 2, 0, 1, 3, 0, 3, 0, 0, 2, 0, 1, 1, 1);
    assert(t3 * s9 == (6) * mn(p, 1, 1, 4, 0, 2, 4, 1));
    assert(t3 * q == (6) * mn(p, 3, 1, 2, 1, 2, 3, 0) + (6) * mn(p, 2, 2, 2, 2, 1, 3, 0) + (-6) * mn(p, 2, 2, 2, 0, 1, 5, 0) + (-12) * mn(p, 2, 1, 3, 0, 2, 4, 0) + (2) * mn(p, 1, 3, 2, 0, 2, 4, 0) + (-12) * mn(p, 1, 2, 3, 1, 1, 4, 0) + (2) * mn(p, 1, 2, 3, 0, 3, 3, 0) + (6) * mn(p, 1, 2, 3, 0, 1, 5, 1) + (-6) * mn(p, 1, 1, 4, 1, 2, 3, 0) + (6) * mn(p, 1, 1, 4, 0, 2, 4, 1));
    lemma_tm(p, 2, 1, 0, 3, 3, 0, 1, 0, 3, 2, 0, 0, 1, 1, 0, 0);
    assert(t4 * s0 == (6) * mn(p, 3, 0, 3, 4, 1, 1, 0));
    lemma_tm(p, 2, 1, 0, 3, 3, 0, 1, 0, 3, 1, 1, 0, 2, 0, 0, 0);
    assert(t4 * s1 == (6) * mn(p, 2, 1, 3, 5, 0, 1, 0));
    lemma_tm(p, 2, 1, 0, 3, 3, 0, 1, 0, -3, 1, 1, 0, 0, 0, 2, 0);
    assert(t4 * s2 == (-6) * mn(p, 2, 1, 3, 3, 0, 3, 0));
    lemma_tm(p, 2, 1, 0, 3, 3, 0, 1, 0, -6, 1, 0, 1, 0, 1, 1, 0);
    assert(t4 * s3 == (-12) * mn(p, 2, 0, 4, 3, 1, 2, 0));
    lemma_tm(p, 2, 1, 0, 3, 3, 0, 1, 0, 1, 0, 2, 0, 0, 1, 1, 0);
    assert(t4 * s4 == (2) * mn(p, 1, 2, 3, 3, 1, 2, 0));
    lemma_tm(p, 2, 1, 0, 3, 3, 0, 1, 0, -6, 0, 1, 1, 1, 0, 1, 0);
    assert(t4 * s5 == (-12) * mn(p, 1, 1, 4, 4, 0, 2, 0));
    lemma_tm(p, 2, 1, 0, 3, 3, 0, 1, 0, 1, 0, 1, 1, 0, 2, 0, 0);
    assert(t4 * s6 == (2) * mn(p, 1, 1, 4, 3, 2, 1, 0));
    lemma_tm(p, 2, 1, 0, 3, 3, 0, 1, 0, 3, 0, 1, 1, 0, 0, 2, 1);
    assert(t4 * s7 == (6) * mn(p, 1, 1, 4, 3, 0, 3, 1));
    lemma_tm(p, 2, 1, 0, 3, 3, 0, 1, 0, -3, 0, 0, 2, 1, 1, 0, 0);
    assert(t4 * s8 == (-6) * mn(p, 1, 0, 5, 4, 1, 1, 0));
    lemma_tm(p, 2, 1, 0, 3, 3, 0, 1, 0, 3, 0, 0, 2, 0, 1, 1, 1);
    assert(t4 * s9 == (6) * mn(p, 1, 0, 5, 3, 1, 2, 1));
    assert(t4 * q == (6) * mn(p, 3, 0, 3, 4, 1, 1, 0) + (6) * mn(p, 2, 1, 3, 5, 0, 1, 0) + (-6) * mn(p, 2, 1, 3, 3, 0, 3, 0) + (-12) * mn(p, 2, 0, 4, 3, 1, 2, 0) + (2) * mn(p, 1, 2, 3, 3, 1, 2, 0) + (-12) * mn(p, 1, 1, 4, 4, 0, 2, 0) + (2) * mn(p, 1, 1, 4, 3, 2, 1, 0) + (6) * mn(p, 1, 1, 4, 3, 0, 3, 1) + (-6) * mn(p, 1, 0, 5, 4, 1, 1, 0) + (6) * mn(p, 1, 0, 5, 3, 1, 2, 1));
    lemma_tm(p, -1, 1, 0, 3, 0, 2, 2, 0, 3, 2, 0, 0, 1, 1, 0, 0);
    assert(t5 * s0 == (-3) * mn(p, 3, 0, 3, 1, 3, 2, 0));
    lemma_tm(p, -1, 1, 0, 3, 0, 2, 2, 0, 3, 1, 1, 0, 2, 0, 0, 0);
    assert(t5 * s1 == (-3) * mn(p, 2, 1, 3, 2, 2, 2, 0));
    lemma_tm(p, -1, 1, 0, 3, 0, 2, 2, 0, -3, 1, 1, 0, 0, 0, 2, 0);
    assert(t5 * s2 == (3) * mn(p, 2, 1, 3, 0, 2, 4, 0));
    lemma_tm(p, -1, 1, 0, 3, 0, 2, 2, 0, -6, 1, 0, 1, 0, 1, 1, 0);
    assert(t5 * s3 == (6) * mn(p, 2, 0, 4, 0, 3, 3, 0));
    lemma_tm(p, -1, 1, 0, 3, 0, 2, 2, 0, 1, 0, 2, 0, 0, 1, 1, 0);
    assert(t5 * s4 == (-1) * mn(p, 1, 2, 3, 0, 3, 3, 0));
    lemma_tm(p, -1, 1, 0, 3, 0, 2, 2, 0, -6, 0, 1, 1, 1, 0, 1, 0);
    assert(t5 * s5 == (6) * mn(p, 1, 1, 4, 1, 2, 3, 0));
    lemma_tm(p, -1, 1, 0, 3, 0, 2, 2, 0, 1, 0, 1, 1, 0, 2, 0, 0);
    assert(t5 * s6 == (-1) * mn(p, 1, 1, 4, 0, 4, 2, 0));
    lemma_tm(p, -1, 1, 0, 3, 0, 2, 2, 0, 3, 0, 1, 1, 0, 0, 2, 1);
    assert(t5 * s7 == (-3) * mn(p, 1, 1, 4, 0, 2, 4, 1));
    lemma_tm(p, -1, 1, 0, 3, 0, 2, 2, 0, -3, 0, 0, 2, 1, 1, 0, 0);
    assert(t5 * s8 == (3) * mn(p, 1, 0, 5, 1, 3, 2, 0));
    lemma_tm(p, -1, 1, 0, 3, 0, 2, 2, 0, 3, 0, 0, 2, 0, 1, 1, 1);
    assert(t5 * s9 == (-3) * mn(p, 1, 0, 5, 0, 3, 3, 1));
    assert(t5 * q == (-3) * mn(p, 3, 0, 3, 1, 3, 2, 0) + (-3) * mn(p, 2, 1, 3, 2, 2, 2, 0) + (3) * mn(p, 2, 1, 3, 0, 2, 4, 0) + (6) * mn(p, 2, 0, 4, 0, 3, 3, 0) + (-1) * mn(p, 1, 2, 3, 0, 3, 3, 0) + (6) * mn(p, 1, 1, 4, 1, 2, 3, 0) + (-1) * mn(p, 1, 1, 4, 0, 4, 2, 0) + (-3) * mn(p, 1, 1, 4, 0, 2, 4, 1) + (3) * mn(p, 1, 0, 5, 1, 3, 2, 0) + (-3) * mn(p, 1, 0, 5, 0, 3, 3, 1));
    lemma_tm(p, 1, 0, 2, 2, 1, 0, 3, 0, 3, 2, 0, 0, 1, 1, 0, 0);
    assert(t6 * s0 == (3) * mn(p, 2, 2, 2, 2, 1, 3, 0));
    lemma_tm(p, 1, 0, 2, 2, 1, 0, 3, 0, 3, 1, 1, 0, 2, 0, 0, 0);
    assert(t6 * s1 == (3) * mn(p, 1, 3, 2, 3, 0, 3, 0));
    lemma_tm(p, 1, 0, 2, 2, 1, 0, 3, 0, -3, 1, 1, 0, 0, 0, 2, 0);
    assert(t6 * s2 == (-3) * mn(p, 1, 3, 2, 1, 0, 5, 0));
    lemma_tm(p, 1, 0, 2, 2, 1, 0, 3, 0, -6, 1, 0, 1, 0, 1, 1, 0);
    assert(t6 * s3 == (-6) * mn(p, 1, 2, 3, 1, 1, 4, 0));
    lemma_tm(p, 1, 0, 2, 2, 1, 0, 3, 0, 1, 0, 2, 0, 0, 1, 1, 0);
    assert(t6 * s4 == (1) * mn(p, 0, 4, 2, 1, 1, 4, 0));
    lemma_tm(p, 1, 0, 2, 2, 1, 0, 3, 0, -6, 0, 1, 1, 1, 0, 1, 0);
    assert(t6 * s5 == (-6) * mn(p, 0, 3, 3, 2, 0, 4, 0));
    lemma_tm(p, 1, 0, 2, 2, 1, 0, 3, 0, 1, 0, 1, 1, 0, 2, 0, 0);
    assert(t6 * s6 == (1) * mn(p, 0, 3, 3, 1, 2, 3, 0));
    lemma_tm(p, 1, 0, 2, 2, 1, 0, 3, 0, 3, 0, 1, 1, 0, 0, 2, 1);
    assert(t6 * s7 == (3) * mn(p, 0, 3, 3, 1, 0, 5, 1));
    lemma_tm(p, 1, 0, 2, 2, 1, 0, 3, 0, -3, 0, 0, 2, 1, 1, 0, 0);
    assert(t6 * s8 == (-3) * mn(p, 0, 2, 4, 2, 1, 3, 0));
    lemma_tm(p, 1, 0, 2, 2, 1, 0, 3, 0, 3, 0, 0, 2, 0, 1, 1, 1);
    assert(t6 * s9 == (3) * mn(p, 0, 2, 4, 1, 1, 4, 1));
    assert(t6 * q == (3) * mn(p, 2, 2, 2, 2, 1, 3, 0) + (3) * mn(p, 1, 3, 2, 3, 0, 3, 0) + (-3) * mn(p, 1, 3, 2, 1, 0, 5, 0) + (-6) * mn(p, 1, 2, 3, 1, 1, 4, 0) + (1) * mn(p, 0, 4, 2, 1, 1, 4, 0) + (-6) * mn(p, 0, 3, 3, 2, 0, 4, 0) + (1) * mn(p, 0, 3, 3, 1, 2, 3, 0) + (3) * mn(p, 0, 3, 3, 1, 0, 5, 1) + (-3) * mn(p, 0, 2, 4, 2, 1, 3, 0) + (3) * mn(p, 0, 2, 4, 1, 1, 4, 1));
    lemma_tm(p, -2, 0, 1, 3, 1, 1, 2, 0, 3, 2, 0, 0, 1, 1, 0, 0);
    assert(t7 * s0 == (-6) * mn(p, 2, 1, 3, 2, 2, 2, 0));
    lemma_tm(p, -2, 0, 1, 3, 1, 1, 2, 0, 3, 1, 1, 0, 2, 0, 0, 0);
    assert(t7 * s1 == (-6) * mn(p, 1, 2, 3, 3, 1, 2, 0));
    lemma_tm(p, -2, 0, 1, 3, 1, 1, 2, 0, -3, 1, 1, 0, 0, 0, 2, 0);
    assert(t7 * s2 == (6) * mn(p, 1, 2, 3, 1, 1, 4, 0));
    lemma_tm(p, -2, 0, 1, 3, 1, 1, 2, 0, -6, 1, 0, 1, 0, 1, 1, 0);
    assert(t7 * s3 == (12) * mn(p, 1, 1, 4, 1, 2, 3, 0));
    lemma_tm(p, -2, 0, 1, 3, 1, 1, 2, 0, 1, 0, 2, 0, 0, 1, 1, 0);
    assert(t7 * s4 == (-2) * mn(p, 0, 3, 3, 1, 2, 3, 0));
    lemma_tm(p, -2, 0, 1, 3, 1, 1, 2, 0, -6, 0, 1, 1, 1, 0, 1, 0);
    assert(t7 * s5 == (12) * mn(p, 0, 2, 4, 2, 1, 3, 0));
    lemma_tm(p, -2, 0, 1, 3, 1, 1, 2, 0, 1, 0, 1, 1, 0, 2, 0, 0);
    assert(t7 * s6 == (-2) * mn(p, 0, 2, 4, 1, 3, 2, 0));
    lemma_tm(p, -2, 0, 1, 3, 1, 1, 2, 0, 3, 0, 1, 1, 0, 0, 2, 1);
    assert(t7 * s7 == (-6) * mn(p, 0, 2, 4, 1, 1, 4, 1));
    lemma_tm(p, -2, 0, 1, 3, 1, 1, 2, 0, -3, 0, 0, 2, 1, 1, 0, 0);
    assert(t7 * s8 == (6) * mn(p, 0, 1, 5, 2, 2, 2, 0));
    lemma_tm(p, -2, 0, 1, 3, 1, 1, 2, 0, 3, 0, 0, 2, 0, 1, 1, 1);
    assert(t7 * s9 == (-6) * mn(p, 0, 1, 5, 1, 2, 3, 1));
    assert(t7 * q == (-6) * mn(p, 2, 1, 3, 2, 2, 2, 0) + (-6) * mn(p, 1, 2, 3, 3, 1, 2, 0) + (6) * mn(p, 1, 2, 3, 1, 1, 4, 0) + (12) * mn(p, 1, 1, 4, 1, 2, 3, 0) + (-2) * mn(p, 0, 3, 3, 1, 2, 3, 0) + (12) * mn(p, 0, 2, 4, 2, 1, 3, 0) + (-2) * mn(p, 0, 2, 4, 1, 3, 2, 0) + (-6) * mn(p, 0, 2, 4, 1, 1, 4, 1) + (6) * mn(p, 0, 1, 5, 2, 2, 2, 0) + (-6) * mn(p, 0, 1, 5, 1, 2, 3, 1));
    lemma_tm(p, -1, 0, 0, 4, 4, 0, 0, 0, 3, 2, 0, 0, 1, 1, 0, 0);
    assert(t8 * s0 == (-3) * mn(p, 2, 0, 4, 5, 1, 0, 0));
    lemma_tm(p, -1, 0, 0, 4, 4, 0, 0, 0, 3, 1, 1, 0, 2, 0, 0, 0);
    assert(t8 * s1 == (-3) * mn(p, 1, 1, 4, 6, 0, 0, 0));
    lemma_tm(p, -1, 0, 0, 4, 4, 0, 0, 0, -3, 1, 1, 0, 0, 0, 2, 0);
    assert(t8 * s2 == (3) * mn(p, 1, 1, 4, 4, 0, 2, 0));
    lemma_tm(p, -1, 0, 0, 4, 4, 0, 0, 0, -6, 1, 0, 1, 0, 1, 1, 0);
    assert(t8 * s3 == (6) * mn(p, 1, 0, 5, 4, 1, 1, 0));
    lemma_tm(p, -1, 0, 0, 4, 4, 0, 0, 0, 1, 0, 2, 0, 0, 1, 1, 0);
    assert(t8 * s4 == (-1) * mn(p, 0, 2, 4, 4, 1, 1, 0));
    lemma_tm(p, -1, 0, 0, 4, 4, 0, 0, 0, -6, 0, 1, 1, 1, 0, 1, 0);
    assert(t8 * s5 == (6) * mn(p, 0, 1, 5, 5, 0, 1, 0));
    lemma_tm(p, -1, 0, 0, 4, 4, 0, 0, 0, 1, 0, 1, 1, 0, 2, 0, 0);
    assert(t8 * s6 == (-1) * mn(p, 0, 1, 5, 4, 2, 0, 0));
    lemma_tm(p, -1, 0, 0, 4, 4, 0, 0, 0, 3, 0, 1, 1, 0, 0, 2, 1);
    assert(t8 * s7 == (-3) * mn(p, 0, 1, 5, 4, 0, 2, 1));
    lemma_tm(p, -1, 0, 0, 4, 4, 0, 0, 0, -3, 0, 0, 2, 1, 1, 0, 0);
    assert(t8 * s8 == (3) * mn(p, 0, 0, 6, 5, 1, 0, 0));
    lemma_tm(p, -1, 0, 0, 4, 4, 0, 0, 0, 3, 0, 0, 2, 0, 1, 1, 1);
    assert(t8 * s9 == (-3) * mn(p, 0, 0, 6, 4, 1, 1, 1));
    assert(t8 * q == (-3) * mn(p, 2, 0, 4, 5, 1, 0, 0) + (-3) * mn(p, 1, 1, 4, 6, 0, 0, 0) + (3) * mn(p, 1, 1, 4, 4, 0, 2, 0) + (6) * mn(p, 1, 0, 5, 4, 1, 1, 0) + (-1) * mn(p, 0, 2, 4, 4, 1, 1, 0) + (6) * mn(p, 0, 1, 5, 5, 0, 1, 0) + (-1) * mn(p, 0, 1, 5, 4, 2, 0, 0) + (-3) * mn(p, 0, 1, 5, 4, 0, 2, 1) + (3) * mn(p, 0, 0, 6, 5, 1, 0, 0) + (-3) * mn(p, 0, 0, 6, 4, 1, 1, 1));
    lemma_tm(p, 1, 0, 0, 4, 1, 2, 1, 0, 3, 2, 0, 0, 1, 1, 0, 0);
    assert(t9 * s0 == (3) * mn(p, 2, 0, 4, 2, 3, 1, 0));
    lemma_tm(p, 1, 0, 0, 4, 1, 2, 1, 0, 3, 1, 1, 0, 2, 0, 0, 0);
    assert(t9 * s1 == (3) * mn(p, 1, 1, 4, 3, 2, 1, 0));
    lemma_tm(p, 1, 0, 0, 4, 1, 2, 1, 0, -3, 1, 1, 0, 0, 0, 2, 0);
    assert(t9 * s2 == (-3) * mn(p, 1, 1, 4, 1, 2, 3, 0));
    lemma_tm(p, 1, 0, 0, 4, 1, 2, 1, 0, -6, 1, 0, 1, 0, 1, 1, 0);
    assert(t9 * s3 == (-6) * mn(p, 1, 0, 5, 1, 3, 2, 0));
    lemma_tm(p, 1, 0, 0, 4, 1, 2, 1, 0, 1, 0, 2, 0, 0, 1, 1, 0);
    assert(t9 * s4 == (1) * mn(p, 0, 2, 4, 1, 3, 2, 0));
    lemma_tm(p, 1, 0, 0, 4, 1, 2, 1, 0, -6, 0, 1, 1, 1, 0, 1, 0);
    assert(t9 * s5 == (-6) * mn(p, 0, 1, 5, 2, 2, 2, 0));
    lemma_tm(p, 1, 0, 0, 4, 1, 2, 1, 0, 1, 0, 1, 1, 0, 2, 0, 0);
    assert(t9 * s6 == (1) * mn(p, 0, 1, 5, 1, 4, 1, 0));
    lemma_tm(p, 1, 0, 0, 4, 1, 2, 1, 0, 3, 0, 1, 1, 0, 0, 2, 1);
    assert(t9 * s7 == (3) * mn(p, 0, 1, 5, 1, 2, 3, 1));
    lemma_tm(p, 1, 0, 0, 4, 1, 2, 1, 0, -3, 0, 0, 2, 1, 1, 0, 0);
    assert(t9 * s8 == (-3) * mn(p, 0, 0, 6, 2, 3, 1, 0));
    lemma_tm(p, 1, 0, 0, 4, 1, 2, 1, 0, 3, 0, 0, 2, 0, 1, 1, 1);
    assert(t9 * s9 == (3) * mn(p, 0, 0, 6, 1, 3, 2, 1));
    assert(t9 * q == (3) * mn(p, 2, 0, 4, 2, 3, 1, 0) + (3) * mn(p, 1, 1, 4, 3, 2, 1, 0) + (-3) * mn(p, 1, 1, 4, 1, 2, 3, 0) + (-6) * mn(p, 1, 0, 5, 1, 3, 2, 0) + (1) * mn(p, 0, 2, 4, 1, 3, 2, 0) + (-6) * mn(p, 0, 1, 5, 2, 2, 2, 0) + (1) * mn(p, 0, 1, 5, 1, 4, 1, 0) + (3) * mn(p, 0, 1, 5, 1, 2, 3, 1) + (-3) * mn(p, 0, 0, 6, 2, 3, 1, 0) + (3) * mn(p, 0, 0, 6, 1, 3, 2, 1));
    assert(pp9 * q == (3) * mn(p, 6, 0, 0, 1, 1, 4, 0) + (3) * mn(p, 5, 1, 0, 2, 0, 4, 0) + (-3) * mn(p, 5, 1, 0, 0, 0, 6, 0) + (-6) * mn(p, 5, 0, 1, 2, 1, 3, 0) + (-6) * mn(p, 5, 0, 1, 0, 1, 5, 0) + (1) * mn(p, 4, 2, 0, 0, 1, 5, 0) + (-6) * mn(p, 4, 1, 1, 3, 0, 3, 0) + (1) * mn(p, 4, 1, 1, 0, 2, 4, 0) + (3) * mn(p, 4, 1, 1, 0, 0, 6, 1) + (9) * mn(p, 4, 0, 2, 1, 1, 4, 0) + (3) * mn(p, 4, 0, 2, 0, 1, 5, 1) + (-5) * mn(p, 3, 2, 1, 1, 1, 4, 0) + (12) * mn(p, 3, 1, 2, 2, 0, 4, 0) + (4) * mn(p, 3, 1, 2, 1, 2, 3, 0) + (-6) * mn(p, 3, 1, 2, 1, 0, 5, 1) + (6) * mn(p, 3, 0, 3, 4, 1, 1, 0) + (6) * mn(p, 3, 0, 3, 2, 1, 3, 0) + (-3) * mn(p, 3, 0, 3, 1, 3, 2, 0) + (-6) * mn(p, 3, 0, 3, 1, 1, 4, 1) + (-3) * mn(p, 2, 3, 1, 2, 0, 4, 0) + (3) * mn(p, 2, 3, 1, 0, 0, 6, 0) + (9) * mn(p, 2, 2, 2, 2, 1, 3, 0) + (6) * mn(p, 2, 1, 3, 5, 0, 1, 0) + (-6) * mn(p, 2, 1, 3, 3, 0, 3, 0) + (-9) * mn(p, 2, 1, 3, 2, 2, 2, 0) + (-9) * mn(p, 2, 1, 3, 0, 2, 4, 0) + (-3) * mn(p, 2, 0, 4, 5, 1, 0, 0) + (-12) * mn(p, 2, 0, 4, 3, 1, 2, 0) + (3) * mn(p, 2, 0, 4, 2, 3, 1, 0) + (6) * mn(p, 2, 0, 4, 0, 3, 3, 0) + (-1) * mn(p, 1, 4, 1, 0, 1, 5, 0) + (3) * mn(p, 1, 3, 2, 3, 0, 3, 0) + (3) * mn(p, 1, 3, 2, 1, 0, 5, 0) + (1) * mn(p, 1, 3, 2, 0, 2, 4, 0) + (-3) * mn(p, 1, 3, 2, 0, 0, 6, 1) + (-4) * mn(p, 1, 2, 3, 3, 1, 2, 0) + (-9) * mn(p, 1, 2, 3, 1, 1, 4, 0) + (1) * mn(p, 1, 2, 3, 0, 3, 3, 0) + (3) * mn(p, 1, 2, 3, 0, 1, 5, 1) + (-3) * mn(p, 1, 1, 4, 6, 0, 0, 0) + (-9) * mn(p, 1, 1, 4, 4, 0, 2, 0) + (5) * mn(p, 1, 1, 4, 3, 2, 1, 0) + (6) * mn(p, 1, 1, 4, 3, 0, 3, 1) + (9) * mn(p, 1, 1, 4, 1, 2, 3, 0) + (-1) * mn(p, 1, 1, 4, 0, 4, 2, 0) + (3) * mn(p, 1, 1, 4, 0, 2, 4, 1) + (6) * mn(p, 1, 0, 5, 3, 1, 2, 1) + (-3) * mn(p, 1, 0, 5, 1, 3, 2, 0) + (-3) * mn(p, 1, 0, 5, 0, 3, 3, 1) + (1) * mn(p, 0, 4, 2, 1, 1, 4, 0) + (-6) * mn(p, 0, 3, 3, 2, 0, 4, 0) + (-1) * mn(p, 0, 3, 3, 1, 2, 3, 0) + (3) * mn(p, 0, 3, 3, 1, 0, 5, 1) + (-1) * mn(p, 0, 2, 4, 4, 1, 1, 0) + (9) * mn(p, 0, 2, 4, 2, 1, 3, 0) + (-1) * mn(p, 0, 2, 4, 1, 3, 2, 0) + (-3) * mn(p, 0, 2, 4, 1, 1, 4, 1) + (6) * mn(p, 0, 1, 5, 5, 0, 1, 0) + (-1) * mn(p, 0, 1, 5, 4, 2, 0, 0) + (-3) * mn(p, 0, 1, 5, 4, 0, 2, 1) + (1) * mn(p, 0, 1, 5, 1, 4, 1, 0) + (-3) * mn(p, 0, 1, 5, 1, 2, 3, 1) + (3) * mn(p, 0, 0, 6, 5, 1, 0, 0) + (-3) * mn(p, 0, 0, 6, 4, 1, 1, 1) + (-3) * mn(p, 0, 0, 6, 2, 3, 1, 0) + (3) * mn(p, 0, 0, 6, 1, 3, 2, 1));
}

#[verifier::rlimit(100)]
proof fn am1_prod36(p: Pt)
    ensures
        ((-9) * mn(p, 2, 0, 0, 2, 0, 0, 0) + (9) * mn(p, 2, 0, 0, 1, 0, 1, 1) + (-9) * mn(p, 2, 0, 0, 0, 0, 2, 0) + (9) * mn(p, 1, 0, 1, 2, 0, 0, 1) + (-36) * mn(p, 1, 0, 1, 1, 0, 1, 0) + (9) * mn(p, 1, 0, 1, 0, 0, 2, 1) + (1) * mn(p, 0, 2, 0, 0, 2, 0, 0) + (-9) * mn(p, 0, 0, 2, 2, 0, 0, 0) + (9) * mn(p, 0, 0, 2, 1, 0, 1, 1) + (-9) * mn(p, 0, 0, 2, 0, 0, 2, 2) + (27) * mn(p, 0, 0, 2, 0, 0, 2, 0)) * ((-1) * mn(p, 3, 0, 1, 0, 0, 4, 0) + (3) * mn(p, 2, 0, 2, 1, 0, 3, 0) + (-3) * mn(p, 1, 0, 3, 2, 0, 2, 0) + (1) * mn(p, 0, 0, 4, 3, 0, 1, 0)) == (9) * mn(p, 5, 0, 1, 2, 0, 4, 0) + (-9) * mn(p, 5, 0, 1, 1, 0, 5, 1) + (9) * mn(p, 5, 0, 1, 0, 0, 6, 0) + (-27) * mn(p, 4, 0, 2, 3, 0, 3, 0) + (18) * mn(p, 4, 0, 2, 2, 0, 4, 1) + (9) * mn(p, 4, 0, 2, 1, 0, 5, 0) + (-9) * mn(p, 4, 0, 2, 0, 0, 6, 1) + (-1) * mn(p, 3, 2, 1, 0, 2, 4, 0) + (27) * mn(p, 3, 0, 3, 4, 0, 2, 0) + (-72) * mn(p, 3, 0, 3, 2, 0, 4, 0) + (18) * mn(p, 3, 0, 3, 1, 0, 5, 1) + (9) * mn(p, 3, 0, 3, 0, 0, 6, 2) + (-27) * mn(p, 3, 0, 3, 0, 0, 6, 0) + (3) * mn(p, 2, 2, 2, 1, 2, 3, 0) + (-9) * mn(p, 2, 0, 4, 5, 0, 1, 0) + (-18) * mn(p, 2, 0, 4, 4, 0, 2, 1) + (72) * mn(p, 2, 0, 4, 3, 0, 3, 0) + (-27) * mn(p, 2, 0, 4, 1, 0, 5, 2) + (81) * mn(p, 2, 0, 4, 1, 0, 5, 0) + (-3) * mn(p, 1, 2, 3, 2, 2, 2, 0) + (9) * mn(p, 1, 0, 5, 5, 0, 1, 1) + (-9) * mn(p, 1, 0, 5, 4, 0, 2, 0) + (-18) * mn(p, 1, 0, 5, 3, 0, 3, 1) + (27) * mn(p, 1, 0, 5, 2, 0, 4, 2) + (-81) * mn(p, 1, 0, 5, 2, 0, 4, 0) + (1) * mn(p, 0, 2, 4, 3, 2, 1, 0) + (-9) * mn(p, 0, 0, 6, 5, 0, 1, 0) + (9) * mn(p, 0, 0, 6, 4, 0, 2, 1) + (-9) * mn(p, 0, 0, 6, 3, 0, 3, 2) + (27) * mn(p, 0, 0, 6, 3, 0, 3, 0),
{
    let t0 = (-9) * mn(p, 2, 0, 0, 2, 0, 0, 0);
    let t1 = (9) * mn(p, 2, 0, 0, 1, 0, 1, 1);
    let t2 = (-9) * mn(p, 2, 0, 0, 0, 0, 2, 0);
    let t3 = (9) * mn(p, 1, 0, 1, 2, 0, 0, 1);
    let t4 = (-36) * mn(p, 1, 0, 1, 1, 0, 1, 0);
    let t5 = (9) * mn(p, 1, 0, 1, 0, 0, 2, 1);
    let t6 = (1) * mn(p, 0, 2, 0, 0, 2, 0, 0);
    let t7 = (-9) * mn(p, 0, 0, 2, 2, 0, 0, 0);
    let t8 = (9) * mn(p, 0, 0, 2, 1, 0, 1, 1);
    let t9 = (-9) * mn(p, 0, 0, 2, 0, 0, 2, 2);
    let t10 = (27) * mn(p, 0, 0, 2, 0, 0, 2, 0);
    let s0 = (-1) * mn(p, 3, 0, 1, 0, 0, 4, 0);
    let s1 = (3) * mn(p, 2, 0, 2, 1, 0, 3, 0);
    let s2 = (-3) * mn(p, 1, 0, 3, 2, 0, 2, 0);
    let s3 = (1) * mn(p, 0, 0, 4, 3, 0, 1, 0);
    let pp0 = t0;
    let pp1 = pp0 + t1;
    let pp2 = pp1 + t2;
    let pp3 = pp2 + t3;
    let pp4 = pp3 + t4;
    let pp5 = pp4 + t5;
    let pp6 = pp5 + t6;
    let pp7 = pp6 + t7;
    let pp8 = pp7 + t8;
    let pp9 = pp8 + t9;
    let pp10 = pp9 + t10;
    let qq0 = s0;
    let qq1 = qq0 + s1;
    let qq2 = qq1 + s2;
    let qq3 = qq2 + s3;
    let q = qq3;
    lemma_mul_is_distributive_add_other_way(q, pp0, t1);
    lemma_mul_is_distributive_add_other_way(q, pp1, t2);
    lemma_mul_is_distributive_add_other_way(q, pp2, t3);
    lemma_mul_is_distributive_add_other_way(q, pp3, t4);
    lemma_mul_is_distributive_add_other_way(q, pp4, t5);
    lemma_mul_is_distributive_add_other_way(q, pp5, t6);
    lemma_mul_is_distributive_add_other_way(q, pp6, t7);
    lemma_mul_is_distributive_add_other_way(q, pp7, t8);
    lemma_mul_is_distributive_add_other_way(q, pp8, t9);
    lemma_mul_is_distributive_add_other_way(q, pp9, t10);
    lemma_mul_is_distributive_add(t0, qq0, s1);
    lemma_mul_is_distributive_add(t0, qq1, s2);
    lemma_mul_is_distributive_add(t0, qq2, s3);
    lemma_mul_is_distributive_add(t1, qq0, s1);
    lemma_mul_is_distributive_add(t1, qq1, s2);
    lemma_mul_is_distributive_add(t1, qq2, s3);
    lemma_mul_is_distributive_add(t2, qq0, s1);
    lemma_mul_is_distributive_add(t2, qq1, s2);
    lemma_mul_is_distributive_add(t2, qq2, s3);
    lemma_mul_is_distributive_add(t3, qq0, s1);
    lemma_mul_is_distributive_add(t3, qq1, s2);
    lemma_mul_is_distributive_add(t3, qq2, s3);
    lemma_mul_is_distributive_add(t4, qq0, s1);
    lemma_mul_is_distributive_add(t4, qq1, s2);
    lemma_mul_is_distributive_add(t4, qq2, s3);
    lemma_mul_is_distributive_add(t5, qq0, s1);
    lemma_mul_is_distributive_add(t5, qq1, s2);
    lemma_mul_is_distributive_add(t5, qq2, s3);
    lemma_mul_is_distributive_add(t6, qq0, s1);
    lemma_mul_is_distributive_add(t6, qq1, s2);
    lemma_mul_is_distributive_add(t6, qq2, s3);
    lemma_mul_is_distributive_add(t7, qq0, s1);
    lemma_mul_is_distributive_add(t7, qq1, s2);
    lemma_mul_is_distributive_add(t7, qq2, s3);
    lemma_mul_is_distributive_add(t8, qq0, s1);
    lemma_mul_is_distributive_add(t8, qq1, s2);
    lemma_mul_is_distributive_add(t8, qq2, s3);
    lemma_mul_is_distributive_add(t9, qq0, s1);
    lemma_mul_is_distributive_add(t9, qq1, s2);
    lemma_mul_is_distributive_add(t9, qq2, s3);
    lemma_mul_is_distributive_add(t10, qq0, s1);
    lemma_mul_is_distributive_add(t10, qq1, s2);
    lemma_mul_is_distributive_add(t10, qq2, s3);
    lemma_tm(p, -9, 2, 0, 0, 2, 0, 0, 0, -1, 3, 0, 1, 0, 0, 4, 0);
    assert(t0 * s0 == (9) * mn(p, 5, 0, 1, 2, 0, 4, 0));
    lemma_tm(p, -9, 2, 0, 0, 2, 0, 0, 0, 3, 2, 0, 2, 1, 0, 3, 0);
    assert(t0 * s1 == (-27) * mn(p, 4, 0, 2, 3, 0, 3, 0));
    lemma_tm(p, -9, 2, 0, 0, 2, 0, 0, 0, -3, 1, 0, 3, 2, 0, 2, 0);
    assert(t0 * s2 == (27) * mn(p, 3, 0, 3, 4, 0, 2, 0));
    lemma_tm(p, -9, 2, 0, 0, 2, 0, 0, 0, 1, 0, 0, 4, 3, 0, 1, 0);
    assert(t0 * s3 == (-9) * mn(p, 2, 0, 4, 5, 0, 1, 0));
    assert(t0 * q == (9) * mn(p, 5, 0, 1, 2, 0, 4, 0) + (-27) * mn(p, 4, 0, 2, 3, 0, 3, 0) + (27) * mn(p, 3, 0, 3, 4, 0, 2, 0) + (-9) * mn(p, 2, 0, 4, 5, 0, 1, 0));
    lemma_tm(p, 9, 2, 0, 0, 1, 0, 1, 1, -1, 3, 0, 1, 0, 0, 4, 0);
    assert(t1 * s0 == (-9) * mn(p, 5, 0, 1, 1, 0, 5, 1));
    lemma_tm(p, 9, 2, 0, 0, 1, 0, 1, 1, 3, 2, 0, 2, 1, 0, 3, 0);
    assert(t1 * s1 == (27) * mn(p, 4, 0, 2, 2, 0, 4, 1));
    lemma_tm(p, 9, 2, 0, 0, 1, 0, 1, 1, -3, 1, 0, 3, 2, 0, 2, 0);
    assert(t1 * s2 == (-27) * mn(p, 3, 0, 3, 3, 0, 3, 1));
    lemma_tm(p, 9, 2, 0, 0, 1, 0, 1, 1, 1, 0, 0, 4, 3, 0, 1, 0);
    assert(t1 * s3 == (9) * mn(p, 2, 0, 4, 4, 0, 2, 1));
    assert(t1 * q == (-9) * mn(p, 5, 0, 1, 1, 0, 5, 1) + (27) * mn(p, 4, 0, 2, 2, 0, 4, 1) + (-27) * mn(p, 3, 0, 3, 3, 0, 3, 1) + (9) * mn(p, 2, 0, 4, 4, 0, 2, 1));
    lemma_tm(p, -9, 2, 0, 0, 0, 0, 2, 0, -1, 3, 0, 1, 0, 0, 4, 0);
    assert(t2 * s0 == (9) * mn(p, 5, 0, 1, 0, 0, 6, 0));
    lemma_tm(p, -9, 2, 0, 0, 0, 0, 2, 0, 3, 2, 0, 2, 1, 0, 3, 0);
    assert(t2 * s1 == (-27) * mn(p, 4, 0, 2, 1, 0, 5, 0));
    lemma_tm(p, -9, 2, 0, 0, 0, 0, 2, 0, -3, 1, 0, 3, 2, 0, 2, 0);
    assert(t2 * s2 == (27) * mn(p, 3, 0, 3, 2, 0, 4, 0));
    lemma_tm(p, -9, 2, 0, 0, 0, 0, 2, 0, 1, 0, 0, 4, 3, 0, 1, 0);
    assert(t2 * s3 == (-9) * mn(p, 2, 0, 4, 3, 0, 3, 0));
    assert(t2 * q == (9) * mn(p, 5, 0, 1, 0, 0, 6, 0) + (-27) * mn(p, 4, 0, 2, 1, 0, 5, 0) + (27) * mn(p, 3, 0, 3, 2, 0, 4, 0) + (-9) * mn(p, 2, 0, 4, 3, 0, 3, 0));
    lemma_tm(p, 9, 1, 0, 1, 2, 0, 0, 1, -1, 3, 0, 1, 0, 0, 4, 0);
    assert(t3 * s0 == (-9) * mn(p, 4, 0, 2, 2, 0, 4, 1));
    lemma_tm(p, 9, 1, 0, 1, 2, 0, 0, 1, 3, 2, 0, 2, 1, 0, 3, 0);
    assert(t3 * s1 == (27) * mn(p, 3, 0, 3, 3, 0, 3, 1));
    lemma_tm(p, 9, 1, 0, 1, 2, 0, 0, 1, -3, 1, 0, 3, 2, 0, 2, 0);
    assert(t3 * s2 == (-27) * mn(p, 2, 0, 4, 4, 0, 2, 1));
    lemma_tm(p, 9, 1, 0, 1, 2, 0, 0, 1, 1, 0, 0, 4, 3, 0, 1, 0);
    assert(t3 * s3 == (9) * mn(p, 1, 0, 5, 5, 0, 1, 1));
    assert(t3 * q == (-9) * mn(p, 4, 0, 2, 2, 0, 4, 1) + (27) * mn(p, 3, 0, 3, 3, 0, 3, 1) + (-27) * mn(p, 2, 0, 4, 4, 0, 2, 1) + (9) * mn(p, 1, 0, 5, 5, 0, 1, 1));
    lemma_tm(p, -36, 1, 0, 1, 1, 0, 1, 0, -1, 3, 0, 1, 0, 0, 4, 0);
    assert(t4 * s0 == (36) * mn(p, 4, 0, 2, 1, 0, 5, 0));
    lemma_tm(p, -36, 1, 0, 1, 1, 0, 1, 0, 3, 2, 0, 2, 1, 0, 3, 0);
    assert(t4 * s1 == (-108) * mn(p, 3, 0, 3, 2, 0, 4, 0));
    lemma_tm(p, -36, 1, 0, 1, 1, 0, 1, 0, -3, 1, 0, 3, 2, 0, 2, 0);
    assert(t4 * s2 == (108) * mn(p, 2, 0, 4, 3, 0, 3, 0));
    lemma_tm(p, -36, 1, 0, 1, 1, 0, 1, 0, 1, 0, 0, 4, 3, 0, 1, 0);
    assert(t4 * s3 == (-36) * mn(p, 1, 0, 5, 4, 0, 2, 0));
    assert(t4 * q == (36) * mn(p, 4, 0, 2, 1, 0, 5, 0) + (-108) * mn(p, 3, 0, 3, 2, 0, 4, 0) + (108) * mn(p, 2, 0, 4, 3, 0, 3, 0) + (-36) * mn(p, 1, 0, 5, 4, 0, 2, 0));
    lemma_tm(p, 9, 1, 0, 1, 0, 0, 2, 1, -1, 3, 0, 1, 0, 0, 4, 0);
    assert(t5 * s0 == (-9) * mn(p, 4, 0, 2, 0, 0, 6, 1));
    lemma_tm(p, 9, 1, 0, 1, 0, 0, 2, 1, 3, 2, 0, 2, 1, 0, 3, 0);
    assert(t5 * s1 == (27) * mn(p, 3, 0, 3, 1, 0, 5, 1));
    lemma_tm(p, 9, 1, 0, 1, 0, 0, 2, 1, -3, 1, 0, 3, 2, 0, 2, 0);
    assert(t5 * s2 == (-27) * mn(p, 2, 0, 4, 2, 0, 4, 1));
    lemma_tm(p, 9, 1, 0, 1, 0, 0, 2, 1, 1, 0, 0, 4, 3, 0, 1, 0);
    assert(t5 * s3 == (9) * mn(p, 1, 0, 5, 3, 0, 3, 1));
    assert(t5 * q == (-9) * mn(p, 4, 0, 2, 0, 0, 6, 1) + (27) * mn(p, 3, 0, 3, 1, 0, 5, 1) + (-27) * mn(p, 2, 0, 4, 2, 0, 4, 1) + (9) * mn(p, 1, 0, 5, 3, 0, 3, 1));
    lemma_tm(p, 1, 0, 2, 0, 0, 2, 0, 0, -1, 3, 0, 1, 0, 0, 4, 0);
    assert(t6 * s0 == (-1) * mn(p, 3, 2, 1, 0, 2, 4, 0));
    lemma_tm(p, 1, 0, 2, 0, 0, 2, 0, 0, 3, 2, 0, 2, 1, 0, 3, 0);
    assert(t6 * s1 == (3) * mn(p, 2, 2, 2, 1, 2, 3, 0));
    lemma_tm(p, 1, 0, 2, 0, 0, 2, 0, 0, -3, 1, 0, 3, 2, 0, 2, 0);
    assert(t6 * s2 == (-3) * mn(p, 1, 2, 3, 2, 2, 2, 0));
    lemma_tm(p, 1, 0, 2, 0, 0, 2, 0, 0, 1, 0, 0, 4, 3, 0, 1, 0);
    assert(t6 * s3 == (1) * mn(p, 0, 2, 4, 3, 2, 1, 0));
    assert(t6 * q == (-1) * mn(p, 3, 2, 1, 0, 2, 4, 0) + (3) * mn(p, 2, 2, 2, 1, 2, 3, 0) + (-3) * mn(p, 1, 2, 3, 2, 2, 2, 0) + (1) * mn(p, 0, 2, 4, 3, 2, 1, 0));
    lemma_tm(p, -9, 0, 0, 2, 2, 0, 0, 0, -1, 3, 0, 1, 0, 0, 4, 0);
    assert(t7 * s0 == (9) * mn(p, 3, 0, 3, 2, 0, 4, 0));
    lemma_tm(p, -9, 0, 0, 2, 2, 0, 0, 0, 3, 2, 0, 2, 1, 0, 3, 0);
    assert(t7 * s1 == (-27) * mn(p, 2, 0, 4, 3, 0, 3, 0));
    lemma_tm(p, -9, 0, 0, 2, 2, 0, 0, 0, -3, 1, 0, 3, 2, 0, 2, 0);
    assert(t7 * s2 == (27) * mn(p, 1, 0, 5, 4, 0, 2, 0));
    lemma_tm(p, -9, 0, 0, 2, 2, 0, 0, 0, 1, 0, 0, 4, 3, 0, 1, 0);
    assert(t7 * s3 == (-9) * mn(p, 0, 0, 6, 5, 0, 1, 0));
    assert(t7 * q == (9) * mn(p, 3, 0, 3, 2, 0, 4, 0) + (-27) * mn(p, 2, 0, 4, 3, 0, 3, 0) + (27) * mn(p, 1, 0, 5, 4, 0, 2, 0) + (-9) * mn(p, 0, 0, 6, 5, 0, 1, 0));
    lemma_tm(p, 9, 0, 0, 2, 1, 0, 1, 1, -1, 3, 0, 1, 0, 0, 4, 0);
    assert(t8 * s0 == (-9) * mn(p, 3, 0, 3, 1, 0, 5, 1));
    lemma_tm(p, 9, 0, 0, 2, 1, 0, 1, 1, 3, 2, 0, 2, 1, 0, 3, 0);
    assert(t8 * s1 == (27) * mn(p, 2, 0, 4, 2, 0, 4, 1));
    lemma_tm(p, 9, 0, 0, 2, 1, 0, 1, 1, -3, 1, 0, 3, 2, 0, 2, 0);
    assert(t8 * s2 == (-27) * mn(p, 1, 0, 5, 3, 0, 3, 1));
    lemma_tm(p, 9, 0, 0, 2, 1, 0, 1, 1, 1, 0, 0, 4, 3, 0, 1, 0);
    assert(t8 * s3 == (9) * mn(p, 0, 0, 6, 4, 0, 2, 1));
    assert(t8 * q == (-9) * mn(p, 3, 0, 3, 1, 0, 5, 1) + (27) * mn(p, 2, 0, 4, 2, 0, 4, 1) + (-27) * mn(p, 1, 0, 5, 3, 0, 3, 1) + (9) * mn(p, 0, 0, 6, 4, 0, 2, 1));
    lemma_tm(p, -9, 0, 0, 2, 0, 0, 2, 2, -1, 3, 0, 1, 0, 0, 4, 0);
    assert(t9 * s0 == (9) * mn(p, 3, 0, 3, 0, 0, 6, 2));
    lemma_tm(p, -9, 0, 0, 2, 0, 0, 2, 2, 3, 2, 0, 2, 1, 0, 3, 0);
    assert(t9 * s1 == (-27) * mn(p, 2, 0, 4, 1, 0, 5, 2));
    lemma_tm(p, -9, 0, 0, 2, 0, 0, 2, 2, -3, 1, 0, 3, 2, 0, 2, 0);
    assert(t9 * s2 == (27) * mn(p, 1, 0, 5, 2, 0, 4, 2));
    lemma_tm(p, -9, 0, 0, 2, 0, 0, 2, 2, 1, 0, 0, 4, 3, 0, 1, 0);
    assert(t9 * s3 == (-9) * mn(p, 0, 0, 6, 3, 0, 3, 2));
    assert(t9 * q == (9) * mn(p, 3, 0, 3, 0, 0, 6, 2) + (-27) * mn(p, 2, 0, 4, 1, 0, 5, 2) + (27) * mn(p, 1, 0, 5, 2, 0, 4, 2) + (-9) * mn(p, 0, 0, 6, 3, 0, 3, 2));
    lemma_tm(p, 27, 0, 0, 2, 0, 0, 2, 0, -1, 3, 0, 1, 0, 0, 4, 0);
    assert(t10 * s0 == (-27) * mn(p, 3, 0, 3, 0, 0, 6, 0));
    lemma_tm(p, 27, 0, 0, 2, 0, 0, 2, 0, 3, 2, 0, 2, 1, 0, 3, 0);
    assert(t10 * s1 == (81) * mn(p, 2, 0, 4, 1, 0, 5, 0));
    lemma_tm(p, 27, 0, 0, 2, 0, 0, 2, 0, -3, 1, 0, 3, 2, 0, 2, 0);
    assert(t10 * s2 == (-81) * mn(p, 1, 0, 5, 2, 0, 4, 0));
    lemma_tm(p, 27, 0, 0, 2, 0, 0, 2, 0, 1, 0, 0, 4, 3, 0, 1, 0);
    assert(t10 * s3 == (27) * mn(p, 0, 0, 6, 3, 0, 3, 0));
    assert(t10 * q == (-27) * mn(p, 3, 0, 3, 0, 0, 6, 0) + (81) * mn(p, 2, 0, 4, 1, 0, 5, 0) + (-81) * mn(p, 1, 0, 5, 2, 0, 4, 0) + (27) * mn(p, 0, 0, 6, 3, 0, 3, 0));
    assert(pp10 * q == (9) * mn(p, 5, 0, 1, 2, 0, 4, 0) + (-9) * mn(p, 5, 0, 1, 1, 0, 5, 1) + (9) * mn(p, 5, 0, 1, 0, 0, 6, 0) + (-27) * mn(p, 4, 0, 2, 3, 0, 3, 0) + (18) * mn(p, 4, 0, 2, 2, 0, 4, 1) + (9) * mn(p, 4, 0, 2, 1, 0, 5, 0) + (-9) * mn(p, 4, 0, 2, 0, 0, 6, 1) + (-1) * mn(p, 3, 2, 1, 0, 2, 4, 0) + (27) * mn(p, 3, 0, 3, 4, 0, 2, 0) + (-72) * mn(p, 3, 0, 3, 2, 0, 4, 0) + (18) * mn(p, 3, 0, 3, 1, 0, 5, 1) + (9) * mn(p, 3, 0, 3, 0, 0, 6, 2) + (-27) * mn(p, 3, 0, 3, 0, 0, 6, 0) + (3) * mn(p, 2, 2, 2, 1, 2, 3, 0) + (-9) * mn(p, 2, 0, 4, 5, 0, 1, 0) + (-18) * mn(p, 2, 0, 4, 4, 0, 2, 1) + (72) * mn(p, 2, 0, 4, 3, 0, 3, 0) + (-27) * mn(p, 2, 0, 4, 1, 0, 5, 2) + (81) * mn(p, 2, 0, 4, 1, 0, 5, 0) + (-3) * mn(p, 1, 2, 3, 2, 2, 2, 0) + (9) * mn(p, 1, 0, 5, 5, 0, 1, 1) + (-9) * mn(p, 1, 0, 5, 4, 0, 2, 0) + (-18) * mn(p, 1, 0, 5, 3, 0, 3, 1) + (27) * mn(p, 1, 0, 5, 2, 0, 4, 2) + (-81) * mn(p, 1, 0, 5, 2, 0, 4, 0) + (1) * mn(p, 0, 2, 4, 3, 2, 1, 0) + (-9) * mn(p, 0, 0, 6, 5, 0, 1, 0) + (9) * mn(p, 0, 0, 6, 4, 0, 2, 1) + (-9) * mn(p, 0, 0, 6, 3, 0, 3, 2) + (27) * mn(p, 0, 0, 6, 3, 0, 3, 0));
}

#[verifier::rlimit(100)]
proof fn am1_prod37(p: Pt)
    ensures
        ((-1) * mn(p, 3, 1, 0, 0, 0, 4, 0) + (2) * mn(p, 3, 0, 1, 0, 1, 3, 0) + (-3) * mn(p, 2, 0, 2, 1, 1, 2, 0) + (3) * mn(p, 1, 1, 2, 2, 0, 2, 0) + (1) * mn(p, 0, 3, 1, 0, 0, 4, 0) + (-3) * mn(p, 0, 2, 2, 0, 1, 3, 0) + (-2) * mn(p, 0, 1, 3, 3, 0, 1, 0) + (3) * mn(p, 0, 1, 3, 0, 2, 2, 0) + (1) * mn(p, 0, 0, 4, 3, 1, 0, 0) + (-1) * mn(p, 0, 0, 4, 0, 3, 1, 0)) * ((3) * mn(p, 2, 0, 0, 1, 1, 0, 0) + (3) * mn(p, 1, 1, 0, 2, 0, 0, 0) + (-3) * mn(p, 1, 1, 0, 0, 0, 2, 0) + (-6) * mn(p, 1, 0, 1, 0, 1, 1, 0) + (1) * mn(p, 0, 2, 0, 0, 1, 1, 0) + (-6) * mn(p, 0, 1, 1, 1, 0, 1, 0) + (1) * mn(p, 0, 1, 1, 0, 2, 0, 0) + (3) * mn(p, 0, 1, 1, 0, 0, 2, 1) + (-3) * mn(p, 0, 0, 2, 1, 1, 0, 0) + (3) * mn(p, 0, 0, 2, 0, 1, 1, 1)) == (-3) * mn(p, 5, 1, 0, 1, 1, 4, 0) + (6) * mn(p, 5, 0, 1, 1, 2, 3, 0) + (-3) * mn(p, 4, 2, 0, 2, 0, 4, 0) + (3) * mn(p, 4, 2, 0, 0, 0, 6, 0) + (6) * mn(p, 4, 1, 1, 2, 1, 3, 0) + (-9) * mn(p, 4, 0, 2, 2, 2, 2, 0) + (-12) * mn(p, 4, 0, 2, 0, 2, 4, 0) + (-1) * mn(p, 3, 3, 0, 0, 1, 5, 0) + (6) * mn(p, 3, 2, 1, 1, 0, 5, 0) + (1) * mn(p, 3, 2, 1, 0, 2, 4, 0) + (-3) * mn(p, 3, 2, 1, 0, 0, 6, 1) + (2) * mn(p, 3, 1, 2, 0, 3, 3, 0) + (3) * mn(p, 3, 1, 2, 0, 1, 5, 1) + (12) * mn(p, 3, 0, 3, 1, 2, 3, 0) + (6) * mn(p, 3, 0, 3, 0, 2, 4, 1) + (3) * mn(p, 2, 3, 1, 1, 1, 4, 0) + (9) * mn(p, 2, 2, 2, 4, 0, 2, 0) + (-9) * mn(p, 2, 2, 2, 2, 0, 4, 0) + (-12) * mn(p, 2, 2, 2, 1, 2, 3, 0) + (-6) * mn(p, 2, 1, 3, 4, 1, 1, 0) + (6) * mn(p, 2, 1, 3, 1, 3, 2, 0) + (-9) * mn(p, 2, 1, 3, 1, 1, 4, 1) + (3) * mn(p, 2, 0, 4, 4, 2, 0, 0) + (9) * mn(p, 2, 0, 4, 2, 2, 2, 0) + (-3) * mn(p, 2, 0, 4, 1, 4, 1, 0) + (-9) * mn(p, 2, 0, 4, 1, 2, 3, 1) + (3) * mn(p, 1, 4, 1, 2, 0, 4, 0) + (-3) * mn(p, 1, 4, 1, 0, 0, 6, 0) + (-6) * mn(p, 1, 3, 2, 2, 1, 3, 0) + (3) * mn(p, 1, 3, 2, 0, 1, 5, 0) + (-6) * mn(p, 1, 2, 3, 5, 0, 1, 0) + (-12) * mn(p, 1, 2, 3, 3, 0, 3, 0) + (12) * mn(p, 1, 2, 3, 2, 2, 2, 0) + (9) * mn(p, 1, 2, 3, 2, 0, 4, 1) + (9) * mn(p, 1, 2, 3, 0, 2, 4, 0) + (3) * mn(p, 1, 1, 4, 5, 1, 0, 0) + (-3) * mn(p, 1, 1, 4, 2, 3, 1, 0) + (9) * mn(p, 1, 1, 4, 2, 1, 3, 1) + (-15) * mn(p, 1, 1, 4, 0, 3, 3, 0) + (-6) * mn(p, 1, 0, 5, 3, 2, 1, 0) + (6) * mn(p, 1, 0, 5, 0, 4, 2, 0) + (1) * mn(p, 0, 5, 1, 0, 1, 5, 0) + (-6) * mn(p, 0, 4, 2, 1, 0, 5, 0) + (-2) * mn(p, 0, 4, 2, 0, 2, 4, 0) + (3) * mn(p, 0, 4, 2, 0, 0, 6, 1) + (-2) * mn(p, 0, 3, 3, 3, 1, 2, 0) + (15) * mn(p, 0, 3, 3, 1, 1, 4, 0) + (-6) * mn(p, 0, 3, 3, 0, 1, 5, 1) + (12) * mn(p, 0, 2, 4, 4, 0, 2, 0) + (-1) * mn(p, 0, 2, 4, 3, 2, 1, 0) + (-6) * mn(p, 0, 2, 4, 3, 0, 3, 1) + (-9) * mn(p, 0, 2, 4, 1, 2, 3, 0) + (2) * mn(p, 0, 2, 4, 0, 4, 2, 0) + (1) * mn(p, 0, 1, 5, 3, 3, 0, 0) + (-3) * mn(p, 0, 1, 5, 3, 1, 2, 1) + (-3) * mn(p, 0, 1, 5, 1, 3, 2, 0) + (-1) * mn(p, 0, 1, 5, 0, 5, 1, 0) + (6) * mn(p, 0, 1, 5, 0, 3, 3, 1) + (-3) * mn(p, 0, 0, 6, 4, 2, 0, 0) + (3) * mn(p, 0, 0, 6, 3, 2, 1, 1) + (3) * mn(p, 0, 0, 6, 1, 4, 1, 0) + (-3) * mn(p, 0, 0, 6, 0, 4, 2, 1),
{
    let t0 = (-1) * mn(p, 3, 1, 0, 0, 0, 4, 0);
    let t1 = (2) * mn(p, 3, 0, 1, 0, 1, 3, 0);
    let t2 = (-3) * mn(p, 2, 0, 2, 1, 1, 2, 0);
    let t3 = (3) * mn(p, 1, 1, 2, 2, 0, 2, 0);
    let t4 = (1) * mn(p, 0, 3, 1, 0, 0, 4, 0);
    let t5 = (-3) * mn(p, 0, 2, 2, 0, 1, 3, 0);
    let t6 = (-2) * mn(p, 0, 1, 3, 3, 0, 1, 0);
    let t7 = (3) * mn(p, 0, 1, 3, 0, 2, 2, 0);
    let t8 = (1) * mn(p, 0, 0, 4, 3, 1, 0, 0);
    let t9 = (-1) * mn(p, 0, 0, 4, 0, 3, 1, 0);
    let s0 = (3) * mn(p, 2, 0, 0, 1, 1, 0, 0);
    let s1 = (3) * mn(p, 1, 1, 0, 2, 0, 0, 0);
    let s2 = (-3) * mn(p, 1, 1, 0, 0, 0, 2, 0);
    let s3 = (-6) * mn(p, 1, 0, 1, 0, 1, 1, 0);
    let s4 = (1) * mn(p, 0, 2, 0, 0, 1, 1, 0);
    let s5 = (-6) * mn(p, 0, 1, 1, 1, 0, 1, 0);
    let s6 = (1) * mn(p, 0, 1, 1, 0, 2, 0, 0);
    let s7 = (3) * mn(p, 0, 1, 1, 0, 0, 2, 1);
    let s8 = (-3) * mn(p, 0, 0, 2, 1, 1, 0, 0);
    let s9 = (3) * mn(p, 0, 0, 2, 0, 1, 1, 1);
    let pp0 = t0;
    let pp1 = pp0 + t1;
    let pp2 = pp1 + t2;
    let pp3 = pp2 + t3;
    let pp4 = pp3 + t4;
    let pp5 = pp4 + t5;
    let pp6 = pp5 + t6;
    let pp7 = pp6 + t7;
    let pp8 = pp7 + t8;
    let pp9 = pp8 + t9;
    let qq0 = s0;
    let qq1 = qq0 + s1;
    let qq2 = qq1 + s2;
    let qq3 = qq2 + s3;
    let qq4 = qq3 + s4;
    let qq5 = qq4 + s5;
    let qq6 = qq5 + s6;
    let qq7 = qq6 + s7;
    let qq8 = qq7 + s8;
    let qq9 = qq8 + s9;
    let q = qq9;
    lemma_mul_is_distributive_add_other_way(q, pp0, t1);
    lemma_mul_is_distributive_add_other_way(q, pp1, t2);
    lemma_mul_is_distributive_add_other_way(q, pp2, t3);
    lemma_mul_is_distributive_add_other_way(q, pp3, t4);
    lemma_mul_is_distributive_add_other_way(q, pp4, t5);
    lemma_mul_is_distributive_add_other_way(q, pp5, t6);
    lemma_mul_is_distributive_add_other_way(q, pp6, t7);
    lemma_mul_is_distributive_add_other_way(q, pp7, t8);
    lemma_mul_is_distributive_add_other_way(q, pp8, t9);
    lemma_mul_is_distributive_add(t0, qq0, s1);
    lemma_mul_is_distributive_add(t0, qq1, s2);
    lemma_mul_is_distributive_add(t0, qq2, s3);
    lemma_mul_is_distributive_add(t0, qq3, s4);
    lemma_mul_is_distributive_add(t0, qq4, s5);
    lemma_mul_is_distributive_add(t0, qq5, s6);
    lemma_mul_is_distributive_add(t0, qq6, s7);
    lemma_mul_is_distributive_add(t0, qq7, s8);
    lemma_mul_is_distributive_add(t0, qq8, s9);
    lemma_mul_is_distributive_add(t1, qq0, s1);
    lemma_mul_is_distributive_add(t1, qq1, s2);
    lemma_mul_is_distributive_add(t1, qq2, s3);
    lemma_mul_is_distributive_add(t1, qq3, s4);
    lemma_mul_is_distributive_add(t1, qq4, s5);
    lemma_mul_is_distributive_add(t1, qq5, s6);
    lemma_mul_is_distributive_add(t1, qq6, s7);
    lemma_mul_is_distributive_add(t1, qq7, s8);
    lemma_mul_is_distributive_add(t1, qq8, s9);
    lemma_mul_is_distributive_add(t2, qq0, s1);
    lemma_mul_is_distributive_add(t2, qq1, s2);
    lemma_mul_is_distributive_add(t2, qq2, s3);
    lemma_mul_is_distributive_add(t2, qq3, s4);
    lemma_mul_is_distributive_add(t2, qq4, s5);
    lemma_mul_is_distributive_add(t2, qq5, s6);
    lemma_mul_is_distributive_add(t2, qq6, s7);
    lemma_mul_is_distributive_add(t2, qq7, s8);
    lemma_mul_is_distributive_add(t2, qq8, s9);
    lemma_mul_is_distributive_add(t3, qq0, s1);
    lemma_mul_is_distributive_add(t3, qq1, s2);
    lemma_mul_is_distributive_add(t3, qq2, s3);
    lemma_mul_is_distributive_add(t3, qq3, s4);
    lemma_mul_is_distributive_add(t3, qq4, s5);
    lemma_mul_is_distributive_add(t3, qq5, s6);
    lemma_mul_is_distributive_add(t3, qq6, s7);
    lemma_mul_is_distributive_add(t3, qq7, s8);
    lemma_mul_is_distributive_add(t3, qq8, s9);
    lemma_mul_is_distributive_add(t4, qq0, s1);
    lemma_mul_is_distributive_add(t4, qq1, s2);
    lemma_mul_is_distributive_add(t4, qq2, s3);
    lemma_mul_is_distributive_add(t4, qq3, s4);
    lemma_mul_is_distributive_add(t4, qq4, s5);
    lemma_mul_is_distributive_add(t4, qq5, s6);
    lemma_mul_is_distributive_add(t4, qq6, s7);
    lemma_mul_is_distributive_add(t4, qq7, s8);
    lemma_mul_is_distributive_add(t4, qq8, s9);
    lemma_mul_is_distributive_add(t5, qq0, s1);
    lemma_mul_is_distributive_add(t5, qq1, s2);
    lemma_mul_is_distributive_add(t5, qq2, s3);
    lemma_mul_is_distributive_add(t5, qq3, s4);
    lemma_mul_is_distributive_add(t5, qq4, s5);
    lemma_mul_is_distributive_add(t5, qq5, s6);
    lemma_mul_is_distributive_add(t5, qq6, s7);
    lemma_mul_is_distributive_add(t5, qq7, s8);
    lemma_mul_is_distributive_add(t5, qq8, s9);
    lemma_mul_is_distributive_add(t6, qq0, s1);
    lemma_mul_is_distributive_add(t6, qq1, s2);
    lemma_mul_is_distributive_add(t6, qq2, s3);
    lemma_mul_is_distributive_add(t6, qq3, s4);
    lemma_mul_is_distributive_add(t6, qq4, s5);
    lemma_mul_is_distributive_add(t6, qq5, s6);
    lemma_mul_is_distributive_add(t6, qq6, s7);
    lemma_mul_is_distributive_add(t6, qq7, s8);
    lemma_mul_is_distributive_add(t6, qq8, s9);
    lemma_mul_is_distributive_add(t7, qq0, s1);
    lemma_mul_is_distributive_add(t7, qq1, s2);
    lemma_mul_is_distributive_add(t7, qq2, s3);
    lemma_mul_is_distributive_add(t7, qq3, s4);
    lemma_mul_is_distributive_add(t7, qq4, s5);
    lemma_mul_is_distributive_add(t7, qq5, s6);
    lemma_mul_is_distributive_add(t7, qq6, s7);
    lemma_mul_is_distributive_add(t7, qq7, s8);
    lemma_mul_is_distributive_add(t7, qq8, s9);
    lemma_mul_is_distributive_add(t8, qq0, s1);
    lemma_mul_is_distributive_add(t8, qq1, s2);
    lemma_mul_is_distributive_add(t8, qq2, s3);
    lemma_mul_is_distributive_add(t8, qq3, s4);
    lemma_mul_is_distributive_add(t8, qq4, s5);
    lemma_mul_is_distributive_add(t8, qq5, s6);
    lemma_mul_is_distributive_add(t8, qq6, s7);
    lemma_mul_is_distributive_add(t8, qq7, s8);
    lemma_mul_is_distributive_add(t8, qq8, s9);
    lemma_mul_is_distributive_add(t9, qq0, s1);
    lemma_mul_is_distributive_add(t9, qq1, s2);
    lemma_mul_is_distributive_add(t9, qq2, s3);
    lemma_mul_is_distributive_add(t9, qq3, s4);
    lemma_mul_is_distributive_add(t9, qq4, s5);
    lemma_mul_is_distributive_add(t9, qq5, s6);
    lemma_mul_is_distributive_add(t9, qq6, s7);
    lemma_mul_is_distributive_add(t9, qq7, s8);
    lemma_mul_is_distributive_add(t9, qq8, s9);
    lemma_tm(p, -1, 3, 1, 0, 0, 0, 4, 0, 3, 2, 0, 0, 1, 1, 0, 0);
    assert(t0 * s0 == (-3) * mn(p, 5, 1, 0, 1, 1, 4, 0));
    lemma_tm(p, -1, 3, 1, 0, 0, 0, 4, 0, 3, 1, 1, 0, 2, 0, 0, 0);
    assert(t0 * s1 == (-3) * mn(p, 4, 2, 0, 2, 0, 4, 0));
    lemma_tm(p, -1, 3, 1, 0, 0, 0, 4, 0, -3, 1, 1, 0, 0, 0, 2, 0);
    assert(t0 * s2 == (3) * mn(p, 4, 2, 0, 0, 0, 6, 0));
    lemma_tm(p, -1, 3, 1, 0, 0, 0, 4, 0, -6, 1, 0, 1, 0, 1, 1, 0);
    assert(t0 * s3 == (6) * mn(p, 4, 1, 1, 0, 1, 5, 0));
    lemma_tm(p, -1, 3, 1, 0, 0, 0, 4, 0, 1, 0, 2, 0, 0, 1, 1, 0);
    assert(t0 * s4 == (-1) * mn(p, 3, 3, 0, 0, 1, 5, 0));
    lemma_tm(p, -1, 3, 1, 0, 0, 0, 4, 0, -6, 0, 1, 1, 1, 0, 1, 0);
    assert(t0 * s5 == (6) * mn(p, 3, 2, 1, 1, 0, 5, 0));
    lemma_tm(p, -1, 3, 1, 0, 0, 0, 4, 0, 1, 0, 1, 1, 0, 2, 0, 0);
    assert(t0 * s6 == (-1) * mn(p, 3, 2, 1, 0, 2, 4, 0));
    lemma_tm(p, -1, 3, 1, 0, 0, 0, 4, 0, 3, 0, 1, 1, 0, 0, 2, 1);
    assert(t0 * s7 == (-3) * mn(p, 3, 2, 1, 0, 0, 6, 1));
    lemma_tm(p, -1, 3, 1, 0, 0, 0, 4, 0, -3, 0, 0, 2, 1, 1, 0, 0);
    assert(t0 * s8 == (3) * mn(p, 3, 1, 2, 1, 1, 4, 0));
    lemma_tm(p, -1, 3, 1, 0, 0, 0, 4, 0, 3, 0, 0, 2, 0, 1, 1, 1);
    assert(t0 * s9 == (-3) * mn(p, 3, 1, 2, 0, 1, 5, 1));
    assert(t0 * q == (-3) * mn(p, 5, 1, 0, 1, 1, 4, 0) + (-3) * mn(p, 4, 2, 0, 2, 0, 4, 0) + (3) * mn(p, 4, 2, 0, 0, 0, 6, 0) + (6) * mn(p, 4, 1, 1, 0, 1, 5, 0) + (-1) * mn(p, 3, 3, 0, 0, 1, 5, 0) + (6) * mn(p, 3, 2, 1, 1, 0, 5, 0) + (-1) * mn(p, 3, 2, 1, 0, 2, 4, 0) + (-3) * mn(p, 3, 2, 1, 0, 0, 6, 1) + (3) * mn(p, 3, 1, 2, 1, 1, 4, 0) + (-3) * mn(p, 3, 1, 2, 0, 1, 5, 1));
    lemma_tm(p, 2, 3, 0, 1, 0, 1, 3, 0, 3, 2, 0, 0, 1, 1, 0, 0);
    assert(t1 * s0 == (6) * mn(p, 5, 0, 1, 1, 2, 3, 0));
    lemma_tm(p, 2, 3, 0, 1, 0, 1, 3, 0, 3, 1, 1, 0, 2, 0, 0, 0);
    assert(t1 * s1 == (6) * mn(p, 4, 1, 1, 2, 1, 3, 0));
    lemma_tm(p, 2, 3, 0, 1, 0, 1, 3, 0, -3, 1, 1, 0, 0, 0, 2, 0);
    assert(t1 * s2 == (-6) * mn(p, 4, 1, 1, 0, 1, 5, 0));
    lemma_tm(p, 2, 3, 0, 1, 0, 1, 3, 0, -6, 1, 0, 1, 0, 1, 1, 0);
    assert(t1 * s3 == (-12) * mn(p, 4, 0, 2, 0, 2, 4, 0));
    lemma_tm(p, 2, 3, 0, 1, 0, 1, 3, 0, 1, 0, 2, 0, 0, 1, 1, 0);
    assert(t1 * s4 == (2) * mn(p, 3, 2, 1, 0, 2, 4, 0));
    lemma_tm(p, 2, 3, 0, 1, 0, 1, 3, 0, -6, 0, 1, 1, 1, 0, 1, 0);
    assert(t1 * s5 == (-12) * mn(p, 3, 1, 2, 1, 1, 4, 0));
    lemma_tm(p, 2, 3, 0, 1, 0, 1, 3, 0, 1, 0, 1, 1, 0, 2, 0, 0);
    assert(t1 * s6 == (2) * mn(p, 3, 1, 2, 0, 3, 3, 0));
    lemma_tm(p, 2, 3, 0, 1, 0, 1, 3, 0, 3, 0, 1, 1, 0, 0, 2, 1);
    assert(t1 * s7 == (6) * mn(p, 3, 1, 2, 0, 1, 5, 1));
    lemma_tm(p, 2, 3, 0, 1, 0, 1, 3, 0, -3, 0, 0, 2, 1, 1, 0, 0);
    assert(t1 * s8 == (-6) * mn(p, 3, 0, 3, 1, 2, 3, 0));
    lemma_tm(p, 2, 3, 0, 1, 0, 1, 3, 0, 3, 0, 0, 2, 0, 1, 1, 1);
    assert(t1 * s9 == (6) * mn(p, 3, 0, 3, 0, 2, 4, 1));
    assert(t1 * q == (6) * mn(p, 5, 0, 1, 1, 2, 3, 0) + (6) * mn(p, 4, 1, 1, 2, 1, 3, 0) + (-6) * mn(p, 4, 1, 1, 0, 1, 5, 0) + (-12) * mn(p, 4, 0, 2, 0, 2, 4, 0) + (2) * mn(p, 3, 2, 1, 0, 2, 4, 0) + (-12) * mn(p, 3, 1, 2, 1, 1, 4, 0) + (2) * mn(p, 3, 1, 2, 0, 3, 3, 0) + (6) * mn(p, 3, 1, 2, 0, 1, 5, 1) + (-6) * mn(p, 3, 0, 3, 1, 2, 3, 0) + (6) * mn(p, 3, 0, 3, 0, 2, 4, 1));
    lemma_tm(p, -3, 2, 0, 2, 1, 1, 2, 0, 3, 2, 0, 0, 1, 1, 0, 0);
    assert(t2 * s0 == (-9) * mn(p, 4, 0, 2, 2, 2, 2, 0));
    lemma_tm(p, -3, 2, 0, 2, 1, 1, 2, 0, 3, 1, 1, 0, 2, 0, 0, 0);
    assert(t2 * s1 == (-9) * mn(p, 3, 1, 2, 3, 1, 2, 0));
    lemma_tm(p, -3, 2, 0, 2, 1, 1, 2, 0, -3, 1, 1, 0, 0, 0, 2, 0);
    assert(t2 * s2 == (9) * mn(p, 3, 1, 2, 1, 1, 4, 0));
    lemma_tm(p, -3, 2, 0, 2, 1, 1, 2, 0, -6, 1, 0, 1, 0, 1, 1, 0);
    assert(t2 * s3 == (18) * mn(p, 3, 0, 3, 1, 2, 3, 0));
    lemma_tm(p, -3, 2, 0, 2, 1, 1, 2, 0, 1, 0, 2, 0, 0, 1, 1, 0);
    assert(t2 * s4 == (-3) * mn(p, 2, 2, 2, 1, 2, 3, 0));
    lemma_tm(p, -3, 2, 0, 2, 1, 1, 2, 0, -6, 0, 1, 1, 1, 0, 1, 0);
    assert(t2 * s5 == (18) * mn(p, 2, 1, 3, 2, 1, 3, 0));
    lemma_tm(p, -3, 2, 0, 2, 1, 1, 2, 0, 1, 0, 1, 1, 0, 2, 0, 0);
    assert(t2 * s6 == (-3) * mn(p, 2, 1, 3, 1, 3, 2, 0));
    lemma_tm(p, -3, 2, 0, 2, 1, 1, 2, 0, 3, 0, 1, 1, 0, 0, 2, 1);
    assert(t2 * s7 == (-9) * mn(p, 2, 1, 3, 1, 1, 4, 1));
    lemma_tm(p, -3, 2, 0, 2, 1, 1, 2, 0, -3, 0, 0, 2, 1, 1, 0, 0);
    assert(t2 * s8 == (9) * mn(p, 2, 0, 4, 2, 2, 2, 0));
    lemma_tm(p, -3, 2, 0, 2, 1, 1, 2, 0, 3, 0, 0, 2, 0, 1, 1, 1);
    assert(t2 * s9 == (-9) * mn(p, 2, 0, 4, 1, 2, 3, 1));
    assert(t2 * q == (-9) * mn(p, 4, 0, 2, 2, 2, 2, 0) + (-9) * mn(p, 3, 1, 2, 3, 1, 2, 0) + (9) * mn(p, 3, 1, 2, 1, 1, 4, 0) + (18) * mn(p, 3, 0, 3, 1, 2, 3, 0) + (-3) * mn(p, 2, 2, 2, 1, 2, 3, 0) + (18) * mn(p, 2, 1, 3, 2, 1, 3, 0) + (-3) * mn(p, 2, 1, 3, 1, 3, 2, 0) + (-9) * mn(p, 2, 1, 3, 1, 1, 4, 1) + (9) * mn(p, 2, 0, 4, 2, 2, 2, 0) + (-9) * mn(p, 2, 0, 4, 1, 2, 3, 1));
    lemma_tm(p, 3, 1, 1, 2, 2, 0, 2, 0, 3, 2, 0, 0, 1, 1, 0, 0);
    assert(t3 * s0 == (9) * mn(p, 3, 1, 2, 3, 1, 2, 0));
    lemma_tm(p, 3, 1, 1, 2, 2, 0, 2, 0, 3, 1, 1, 0, 2, 0, 0, 0);
    assert(t3 * s1 == (9) * mn(p, 2, 2, 2, 4, 0, 2, 0));
    lemma_tm(p, 3, 1, 1, 2, 2, 0, 2, 0, -3, 1, 1, 0, 0, 0, 2, 0);
    assert(t3 * s2 == (-9) * mn(p, 2, 2, 2, 2, 0, 4, 0));
    lemma_tm(p, 3, 1, 1, 2, 2, 0, 2, 0, -6, 1, 0, 1, 0, 1, 1, 0);
    assert(t3 * s3 == (-18) * mn(p, 2, 1, 3, 2, 1, 3, 0));
    lemma_tm(p, 3, 1, 1, 2, 2, 0, 2, 0, 1, 0, 2, 0, 0, 1, 1, 0);
    assert(t3 * s4 == (3) * mn(p, 1, 3, 2, 2, 1, 3, 0));
    lemma_tm(p, 3, 1, 1, 2, 2, 0, 2, 0, -6, 0, 1, 1, 1, 0, 1, 0);
    assert(t3 * s5 == (-18) * mn(p, 1, 2, 3, 3, 0, 3, 0));
    lemma_tm(p, 3, 1, 1, 2, 2, 0, 2, 0, 1, 0, 1, 1, 0, 2, 0, 0);
    assert(t3 * s6 == (3) * mn(p, 1, 2, 3, 2, 2, 2, 0));
    lemma_tm(p, 3, 1, 1, 2, 2, 0, 2, 0, 3, 0, 1, 1, 0, 0, 2, 1);
    assert(t3 * s7 == (9) * mn(p, 1, 2, 3, 2, 0, 4, 1));
    lemma_tm(p, 3, 1, 1, 2, 2, 0, 2, 0, -3, 0, 0, 2, 1, 1, 0, 0);
    assert(t3 * s8 == (-9) * mn(p, 1, 1, 4, 3, 1, 2, 0));
    lemma_tm(p, 3, 1, 1, 2, 2, 0, 2, 0, 3, 0, 0, 2, 0, 1, 1, 1);
    assert(t3 * s9 == (9) * mn(p, 1, 1, 4, 2, 1, 3, 1));
    assert(t3 * q == (9) * mn(p, 3, 1, 2, 3, 1, 2, 0) + (9) * mn(p, 2, 2, 2, 4, 0, 2, 0) + (-9) * mn(p, 2, 2, 2, 2, 0, 4, 0) + (-18) * mn(p, 2, 1, 3, 2, 1, 3, 0) + (3) * mn(p, 1, 3, 2, 2, 1, 3, 0) + (-18) * mn(p, 1, 2, 3, 3, 0, 3, 0) + (3) * mn(p, 1, 2, 3, 2, 2, 2, 0) + (9) * mn(p, 1, 2, 3, 2, 0, 4, 1) + (-9) * mn(p, 1, 1, 4, 3, 1, 2, 0) + (9) * mn(p, 1, 1, 4, 2, 1, 3, 1));
    lemma_tm(p, 1, 0, 3, 1, 0, 0, 4, 0, 3, 2, 0, 0, 1, 1, 0, 0);
    assert(t4 * s0 == (3) * mn(p, 2, 3, 1, 1, 1, 4, 0));
    lemma_tm(p, 1, 0, 3, 1, 0, 0, 4, 0, 3, 1, 1, 0, 2, 0, 0, 0);
    assert(t4 * s1 == (3) * mn(p, 1, 4, 1, 2, 0, 4, 0));
    lemma_tm(p, 1, 0, 3, 1, 0, 0, 4, 0, -3, 1, 1, 0, 0, 0, 2, 0);
    assert(t4 * s2 == (-3) * mn(p, 1, 4, 1, 0, 0, 6, 0));
    lemma_tm(p, 1, 0, 3, 1, 0, 0, 4, 0, -6, 1, 0, 1, 0, 1, 1, 0);
    assert(t4 * s3 == (-6) * mn(p, 1, 3, 2, 0, 1, 5, 0));
    lemma_tm(p, 1, 0, 3, 1, 0, 0, 4, 0, 1, 0, 2, 0, 0, 1, 1, 0);
    assert(t4 * s4 == (1) * mn(p, 0, 5, 1, 0, 1, 5, 0));
    lemma_tm(p, 1, 0, 3, 1, 0, 0, 4, 0, -6, 0, 1, 1, 1, 0, 1, 0);
    assert(t4 * s5 == (-6) * mn(p, 0, 4, 2, 1, 0, 5, 0));
    lemma_tm(p, 1, 0, 3, 1, 0, 0, 4, 0, 1, 0, 1, 1, 0, 2, 0, 0);
    assert(t4 * s6 == (1) * mn(p, 0, 4, 2, 0, 2, 4, 0));
    lemma_tm(p, 1, 0, 3, 1, 0, 0, 4, 0, 3, 0, 1, 1, 0, 0, 2, 1);
    assert(t4 * s7 == (3) * mn(p, 0, 4, 2, 0, 0, 6, 1));
    lemma_tm(p, 1, 0, 3, 1, 0, 0, 4, 0, -3, 0, 0, 2, 1, 1, 0, 0);
    assert(t4 * s8 == (-3) * mn(p, 0, 3, 3, 1, 1, 4, 0));
    lemma_tm(p, 1, 0, 3, 1, 0, 0, 4, 0, 3, 0, 0, 2, 0, 1, 1, 1);
    assert(t4 * s9 == (3) * mn(p, 0, 3, 3, 0, 1, 5, 1));
    assert(t4 * q == (3) * mn(p, 2, 3, 1, 1, 1, 4, 0) + (3) * mn(p, 1, 4, 1, 2, 0, 4, 0) + (-3) * mn(p, 1, 4, 1, 0, 0, 6, 0) + (-6) * mn(p, 1, 3, 2, 0, 1, 5, 0) + (1) * mn(p, 0, 5, 1, 0, 1, 5, 0) + (-6) * mn(p, 0, 4, 2, 1, 0, 5, 0) + (1) * mn(p, 0, 4, 2, 0, 2, 4, 0) + (3) * mn(p, 0, 4, 2, 0, 0, 6, 1) + (-3) * mn(p, 0, 3, 3, 1, 1, 4, 0) + (3) * mn(p, 0, 3, 3, 0, 1, 5, 1));
    lemma_tm(p, -3, 0, 2, 2, 0, 1, 3, 0, 3, 2, 0, 0, 1, 1, 0, 0);
    assert(t5 * s0 == (-9) * mn(p, 2, 2, 2, 1, 2, 3, 0));
    lemma_tm(p, -3, 0, 2, 2, 0, 1, 3, 0, 3, 1, 1, 0, 2, 0, 0, 0);
    assert(t5 * s1 == (-9) * mn(p, 1, 3, 2, 2, 1, 3, 0));
    lemma_tm(p, -3, 0, 2, 2, 0, 1, 3, 0, -3, 1, 1, 0, 0, 0, 2, 0);
    assert(t5 * s2 == (9) * mn(p, 1, 3, 2, 0, 1, 5, 0));
    lemma_tm(p, -3, 0, 2, 2, 0, 1, 3, 0, -6, 1, 0, 1, 0, 1, 1, 0);
    assert(t5 * s3 == (18) * mn(p, 1, 2, 3, 0, 2, 4, 0));
    lemma_tm(p, -3, 0, 2, 2, 0, 1, 3, 0, 1, 0, 2, 0, 0, 1, 1, 0);
    assert(t5 * s4 == (-3) * mn(p, 0, 4, 2, 0, 2, 4, 0));
    lemma_tm(p, -3, 0, 2, 2, 0, 1, 3, 0, -6, 0, 1, 1, 1, 0, 1, 0);
    assert(t5 * s5 == (18) * mn(p, 0, 3, 3, 1, 1, 4, 0));
    lemma_tm(p, -3, 0, 2, 2, 0, 1, 3, 0, 1, 0, 1, 1, 0, 2, 0, 0);
    assert(t5 * s6 == (-3) * mn(p, 0, 3, 3, 0, 3, 3, 0));
    lemma_tm(p, -3, 0, 2, 2, 0, 1, 3, 0, 3, 0, 1, 1, 0, 0, 2, 1);
    assert(t5 * s7 == (-9) * mn(p, 0, 3, 3, 0, 1, 5, 1));
    lemma_tm(p, -3, 0, 2, 2, 0, 1, 3, 0, -3, 0, 0, 2, 1, 1, 0, 0);
    assert(t5 * s8 == (9) * mn(p, 0, 2, 4, 1, 2, 3, 0));
    lemma_tm(p, -3, 0, 2, 2, 0, 1, 3, 0, 3, 0, 0, 2, 0, 1, 1, 1);
    assert(t5 * s9 == (-9) * mn(p, 0, 2, 4, 0, 2, 4, 1));
    assert(t5 * q == (-9) * mn(p, 2, 2, 2, 1, 2, 3, 0) + (-9) * mn(p, 1, 3, 2, 2, 1, 3, 0) + (9) * mn(p, 1, 3, 2, 0, 1, 5, 0) + (18) * mn(p, 1, 2, 3, 0, 2, 4, 0) + (-3) * mn(p, 0, 4, 2, 0, 2, 4, 0) + (18) * mn(p, 0, 3, 3, 1, 1, 4, 0) + (-3) * mn(p, 0, 3, 3, 0, 3, 3, 0) + (-9) * mn(p, 0, 3, 3, 0, 1, 5, 1) + (9) * mn(p, 0, 2, 4, 1, 2, 3, 0) + (-9) * mn(p, 0, 2, 4, 0, 2, 4, 1));
    lemma_tm(p, -2, 0, 1, 3, 3, 0, 1, 0, 3, 2, 0, 0, 1, 1, 0, 0);
    assert(t6 * s0 == (-6) * mn(p, 2, 1, 3, 4, 1, 1, 0));
    lemma_tm(p, -2, 0, 1, 3, 3, 0, 1, 0, 3, 1, 1, 0, 2, 0, 0, 0);
    assert(t6 * s1 == (-6) * mn(p, 1, 2, 3, 5, 0, 1, 0));
    lemma_tm(p, -2, 0, 1, 3, 3, 0, 1, 0, -3, 1, 1, 0, 0, 0, 2, 0);
    assert(t6 * s2 == (6) * mn(p, 1, 2, 3, 3, 0, 3, 0));
    lemma_tm(p, -2, 0, 1, 3, 3, 0, 1, 0, -6, 1, 0, 1, 0, 1, 1, 0);
    assert(t6 * s3 == (12) * mn(p, 1, 1, 4, 3, 1, 2, 0));
    lemma_tm(p, -2, 0, 1, 3, 3, 0, 1, 0, 1, 0, 2, 0, 0, 1, 1, 0);
    assert(t6 * s4 == (-2) * mn(p, 0, 3, 3, 3, 1, 2, 0));
    lemma_tm(p, -2, 0, 1, 3, 3, 0, 1, 0, -6, 0, 1, 1, 1, 0, 1, 0);
    assert(t6 * s5 == (12) * mn(p, 0, 2, 4, 4, 0, 2, 0));
    lemma_tm(p, -2, 0, 1, 3, 3, 0, 1, 0, 1, 0, 1, 1, 0, 2, 0, 0);
    assert(t6 * s6 == (-2) * mn(p, 0, 2, 4, 3, 2, 1, 0));
    lemma_tm(p, -2, 0, 1, 3, 3, 0, 1, 0, 3, 0, 1, 1, 0, 0, 2, 1);
    assert(t6 * s7 == (-6) * mn(p, 0, 2, 4, 3, 0, 3, 1));
    lemma_tm(p, -2, 0, 1, 3, 3, 0, 1, 0, -3, 0, 0, 2, 1, 1, 0, 0);
    assert(t6 * s8 == (6) * mn(p, 0, 1, 5, 4, 1, 1, 0));
    lemma_tm(p, -2, 0, 1, 3, 3, 0, 1, 0, 3, 0, 0, 2, 0, 1, 1, 1);
    assert(t6 * s9 == (-6) * mn(p, 0, 1, 5, 3, 1, 2, 1));
    assert(t6 * q == (-6) * mn(p, 2, 1, 3, 4, 1, 1, 0) + (-6) * mn(p, 1, 2, 3, 5, 0, 1, 0) + (6) * mn(p, 1, 2, 3, 3, 0, 3, 0) + (12) * mn(p, 1, 1, 4, 3, 1, 2, 0) + (-2) * mn(p, 0, 3, 3, 3, 1, 2, 0) + (12) * mn(p, 0, 2, 4, 4, 0, 2, 0) + (-2) * mn(p, 0, 2, 4, 3, 2, 1, 0) + (-6) * mn(p, 0, 2, 4, 3, 0, 3, 1) + (6) * mn(p, 0, 1, 5, 4, 1, 1, 0) + (-6) * mn(p, 0, 1, 5, 3, 1, 2, 1));
    lemma_tm(p, 3, 0, 1, 3, 0, 2, 2, 0, 3, 2, 0, 0, 1, 1, 0, 0);
    assert(t7 * s0 == (9) * mn(p, 2, 1, 3, 1, 3, 2, 0));
    lemma_tm(p, 3, 0, 1, 3, 0, 2, 2, 0, 3, 1, 1, 0, 2, 0, 0, 0);
    assert(t7 * s1 == (9) * mn(p, 1, 2, 3, 2, 2, 2, 0));
    lemma_tm(p, 3, 0, 1, 3, 0, 2, 2, 0, -3, 1, 1, 0, 0, 0, 2, 0);
    assert(t7 * s2 == (-9) * mn(p, 1, 2, 3, 0, 2, 4, 0));
    lemma_tm(p, 3, 0, 1, 3, 0, 2, 2, 0, -6, 1, 0, 1, 0, 1, 1, 0);
    assert(t7 * s3 == (-18) * mn(p, 1, 1, 4, 0, 3, 3, 0));
    lemma_tm(p, 3, 0, 1, 3, 0, 2, 2, 0, 1, 0, 2, 0, 0, 1, 1, 0);
    assert(t7 * s4 == (3) * mn(p, 0, 3, 3, 0, 3, 3, 0));
    lemma_tm(p, 3, 0, 1, 3, 0, 2, 2, 0, -6, 0, 1, 1, 1, 0, 1, 0);
    assert(t7 * s5 == (-18) * mn(p, 0, 2, 4, 1, 2, 3, 0));
    lemma_tm(p, 3, 0, 1, 3, 0, 2, 2, 0, 1, 0, 1, 1, 0, 2, 0, 0);
    assert(t7 * s6 == (3) * mn(p, 0, 2, 4, 0, 4, 2, 0));
    lemma_tm(p, 3, 0, 1, 3, 0, 2, 2, 0, 3, 0, 1, 1, 0, 0, 2, 1);
    assert(t7 * s7 == (9) * mn(p, 0, 2, 4, 0, 2, 4, 1));
    lemma_tm(p, 3, 0, 1, 3, 0, 2, 2, 0, -3, 0, 0, 2, 1, 1, 0, 0);
    assert(t7 * s8 == (-9) * mn(p, 0, 1, 5, 1, 3, 2, 0));
    lemma_tm(p, 3, 0, 1, 3, 0, 2, 2, 0, 3, 0, 0, 2, 0, 1, 1, 1);
    assert(t7 * s9 == (9) * mn(p, 0, 1, 5, 0, 3, 3, 1));
    assert(t7 * q == (9) * mn(p, 2, 1, 3, 1, 3, 2, 0) + (9) * mn(p, 1, 2, 3, 2, 2, 2, 0) + (-9) * mn(p, 1, 2, 3, 0, 2, 4, 0) + (-18) * mn(p, 1, 1, 4, 0, 3, 3, 0) + (3) * mn(p, 0, 3, 3, 0, 3, 3, 0) + (-18) * mn(p, 0, 2, 4, 1, 2, 3, 0) + (3) * mn(p, 0, 2, 4, 0, 4, 2, 0) + (9) * mn(p, 0, 2, 4, 0, 2, 4, 1) + (-9) * mn(p, 0, 1, 5, 1, 3, 2, 0) + (9) * mn(p, 0, 1, 5, 0, 3, 3, 1));
    lemma_tm(p, 1, 0, 0, 4, 3, 1, 0, 0, 3, 2, 0, 0, 1, 1, 0, 0);
    assert(t8 * s0 == (3) * mn(p, 2, 0, 4, 4, 2, 0, 0));
    lemma_tm(p, 1, 0, 0, 4, 3, 1, 0, 0, 3, 1, 1, 0, 2, 0, 0, 0);
    assert(t8 * s1 == (3) * mn(p, 1, 1, 4, 5, 1, 0, 0));
    lemma_tm(p, 1, 0, 0, 4, 3, 1, 0, 0, -3, 1, 1, 0, 0, 0, 2, 0);
    assert(t8 * s2 == (-3) * mn(p, 1, 1, 4, 3, 1, 2, 0));
    lemma_tm(p, 1, 0, 0, 4, 3, 1, 0, 0, -6, 1, 0, 1, 0, 1, 1, 0);
    assert(t8 * s3 == (-6) * mn(p, 1, 0, 5, 3, 2, 1, 0));
    lemma_tm(p, 1, 0, 0, 4, 3, 1, 0, 0, 1, 0, 2, 0, 0, 1, 1, 0);
    assert(t8 * s4 == (1) * mn(p, 0, 2, 4, 3, 2, 1, 0));
    lemma_tm(p, 1, 0, 0, 4, 3, 1, 0, 0, -6, 0, 1, 1, 1, 0, 1, 0);
    assert(t8 * s5 == (-6) * mn(p, 0, 1, 5, 4, 1, 1, 0));
    lemma_tm(p, 1, 0, 0, 4, 3, 1, 0, 0, 1, 0, 1, 1, 0, 2, 0, 0);
    assert(t8 * s6 == (1) * mn(p, 0, 1, 5, 3, 3, 0, 0));
    lemma_tm(p, 1, 0, 0, 4, 3, 1, 0, 0, 3, 0, 1, 1, 0, 0, 2, 1);
    assert(t8 * s7 == (3) * mn(p, 0, 1, 5, 3, 1, 2, 1));
    lemma_tm(p, 1, 0, 0, 4, 3, 1, 0, 0, -3, 0, 0, 2, 1, 1, 0, 0);
    assert(t8 * s8 == (-3) * mn(p, 0, 0, 6, 4, 2, 0, 0));
    lemma_tm(p, 1, 0, 0, 4, 3, 1, 0, 0, 3, 0, 0, 2, 0, 1, 1, 1);
    assert(t8 * s9 == (3) * mn(p, 0, 0, 6, 3, 2, 1, 1));
    assert(t8 * q == (3) * mn(p, 2, 0, 4, 4, 2, 0, 0) + (3) * mn(p, 1, 1, 4, 5, 1, 0, 0) + (-3) * mn(p, 1, 1, 4, 3, 1, 2, 0) + (-6) * mn(p, 1, 0, 5, 3, 2, 1, 0) + (1) * mn(p, 0, 2, 4, 3, 2, 1, 0) + (-6) * mn(p, 0, 1, 5, 4, 1, 1, 0) + (1) * mn(p, 0, 1, 5, 3, 3, 0, 0) + (3) * mn(p, 0, 1, 5, 3, 1, 2, 1) + (-3) * mn(p, 0, 0, 6, 4, 2, 0, 0) + (3) * mn(p, 0, 0, 6, 3, 2, 1, 1));
    lemma_tm(p, -1, 0, 0, 4, 0, 3, 1, 0, 3, 2, 0, 0, 1, 1, 0, 0);
    assert(t9 * s0 == (-3) * mn(p, 2, 0, 4, 1, 4, 1, 0));
    lemma_tm(p, -1, 0, 0, 4, 0, 3, 1, 0, 3, 1, 1, 0, 2, 0, 0, 0);
    assert(t9 * s1 == (-3) * mn(p, 1, 1, 4, 2, 3, 1, 0));
    lemma_tm(p, -1, 0, 0, 4, 0, 3, 1, 0, -3, 1, 1, 0, 0, 0, 2, 0);
    assert(t9 * s2 == (3) * mn(p, 1, 1, 4, 0, 3, 3, 0));
    lemma_tm(p, -1, 0, 0, 4, 0, 3, 1, 0, -6, 1, 0, 1, 0, 1, 1, 0);
    assert(t9 * s3 == (6) * mn(p, 1, 0, 5, 0, 4, 2, 0));
    lemma_tm(p, -1, 0, 0, 4, 0, 3, 1, 0, 1, 0, 2, 0, 0, 1, 1, 0);
    assert(t9 * s4 == (-1) * mn(p, 0, 2, 4, 0, 4, 2, 0));
    lemma_tm(p, -1, 0, 0, 4, 0, 3, 1, 0, -6, 0, 1, 1, 1, 0, 1, 0);
    assert(t9 * s5 == (6) * mn(p, 0, 1, 5, 1, 3, 2, 0));
    lemma_tm(p, -1, 0, 0, 4, 0, 3, 1, 0, 1, 0, 1, 1, 0, 2, 0, 0);
    assert(t9 * s6 == (-1) * mn(p, 0, 1, 5, 0, 5, 1, 0));
    lemma_tm(p, -1, 0, 0, 4, 0, 3, 1, 0, 3, 0, 1, 1, 0, 0, 2, 1);
    assert(t9 * s7 == (-3) * mn(p, 0, 1, 5, 0, 3, 3, 1));
    lemma_tm(p, -1, 0, 0, 4, 0, 3, 1, 0, -3, 0, 0, 2, 1, 1, 0, 0);
    assert(t9 * s8 == (3) * mn(p, 0, 0, 6, 1, 4, 1, 0));
    lemma_tm(p, -1, 0, 0, 4, 0, 3, 1, 0, 3, 0, 0, 2, 0, 1, 1, 1);
    assert(t9 * s9 == (-3) * mn(p, 0, 0, 6, 0, 4, 2, 1));
    assert(t9 * q == (-3) * mn(p, 2, 0, 4, 1, 4, 1, 0) + (-3) * mn(p, 1, 1, 4, 2, 3, 1, 0) + (3) * mn(p, 1, 1, 4, 0, 3, 3, 0) + (6) * mn(p, 1, 0, 5, 0, 4, 2, 0) + (-1) * mn(p, 0, 2, 4, 0, 4, 2, 0) + (6) * mn(p, 0, 1, 5, 1, 3, 2, 0) + (-1) * mn(p, 0, 1, 5, 0, 5, 1, 0) + (-3) * mn(p, 0, 1, 5, 0, 3, 3, 1) + (3) * mn(p, 0, 0, 6, 1, 4, 1, 0) + (-3) * mn(p, 0, 0, 6, 0, 4, 2, 1));
    assert(pp9 * q == (-3) * mn(p, 5, 1, 0, 1, 1, 4, 0) + (6) * mn(p, 5, 0, 1, 1, 2, 3, 0) + (-3) * mn(p, 4, 2, 0, 2, 0, 4, 0) + (3) * mn(p, 4, 2, 0, 0, 0, 6, 0) + (6) * mn(p, 4, 1, 1, 2, 1, 3, 0) + (-9) * mn(p, 4, 0, 2, 2, 2, 2, 0) + (-12) * mn(p, 4, 0, 2, 0, 2, 4, 0) + (-1) * mn(p, 3, 3, 0, 0, 1, 5, 0) + (6) * mn(p, 3, 2, 1, 1, 0, 5, 0) + (1) * mn(p, 3, 2, 1, 0, 2, 4, 0) + (-3) * mn(p, 3, 2, 1, 0, 0, 6, 1) + (2) * mn(p, 3, 1, 2, 0, 3, 3, 0) + (3) * mn(p, 3, 1, 2, 0, 1, 5, 1) + (12) * mn(p, 3, 0, 3, 1, 2, 3, 0) + (6) * mn(p, 3, 0, 3, 0, 2, 4, 1) + (3) * mn(p, 2, 3, 1, 1, 1, 4, 0) + (9) * mn(p, 2, 2, 2, 4, 0, 2, 0) + (-9) * mn(p, 2, 2, 2, 2, 0, 4, 0) + (-12) * mn(p, 2, 2, 2, 1, 2, 3, 0) + (-6) * mn(p, 2, 1, 3, 4, 1, 1, 0) + (6) * mn(p, 2, 1, 3, 1, 3, 2, 0) + (-9) * mn(p, 2, 1, 3, 1, 1, 4, 1) + (3) * mn(p, 2, 0, 4, 4, 2, 0, 0) + (9) * mn(p, 2, 0, 4, 2, 2, 2, 0) + (-3) * mn(p, 2, 0, 4, 1, 4, 1, 0) + (-9) * mn(p, 2, 0, 4, 1, 2, 3, 1) + (3) * mn(p, 1, 4, 1, 2, 0, 4, 0) + (-3) * mn(p, 1, 4, 1, 0, 0, 6, 0) + (-6) * mn(p, 1, 3, 2, 2, 1, 3, 0) + (3) * mn(p, 1, 3, 2, 0, 1, 5, 0) + (-6) * mn(p, 1, 2, 3, 5, 0, 1, 0) + (-12) * mn(p, 1, 2, 3, 3, 0, 3, 0) + (12) * mn(p, 1, 2, 3, 2, 2, 2, 0) + (9) * mn(p, 1, 2, 3, 2, 0, 4, 1) + (9) * mn(p, 1, 2, 3, 0, 2, 4, 0) + (3) * mn(p, 1, 1, 4, 5, 1, 0, 0) + (-3) * mn(p, 1, 1, 4, 2, 3, 1, 0) + (9) * mn(p, 1, 1, 4, 2, 1, 3, 1) + (-15) * mn(p, 1, 1, 4, 0, 3, 3, 0) + (-6) * mn(p, 1, 0, 5, 3, 2, 1, 0) + (6) * mn(p, 1, 0, 5, 0, 4, 2, 0) + (1) * mn(p, 0, 5, 1, 0, 1, 5, 0) + (-6) * mn(p, 0, 4, 2, 1, 0, 5, 0) + (-2) * mn(p, 0, 4, 2, 0, 2, 4, 0) + (3) * mn(p, 0, 4, 2, 0, 0, 6, 1) + (-2) * mn(p, 0, 3, 3, 3, 1, 2, 0) + (15) * mn(p, 0, 3, 3, 1, 1, 4, 0) + (-6) * mn(p, 0, 3, 3, 0, 1, 5, 1) + (12) * mn(p, 0, 2, 4, 4, 0, 2, 0) + (-1) * mn(p, 0, 2, 4, 3, 2, 1, 0) + (-6) * mn(p, 0, 2, 4, 3, 0, 3, 1) + (-9) * mn(p, 0, 2, 4, 1, 2, 3, 0) + (2) * mn(p, 0, 2, 4, 0, 4, 2, 0) + (1) * mn(p, 0, 1, 5, 3, 3, 0, 0) + (-3) * mn(p, 0, 1, 5, 3, 1, 2, 1) + (-3) * mn(p, 0, 1, 5, 1, 3, 2, 0) + (-1) * mn(p, 0, 1, 5, 0, 5, 1, 0) + (6) * mn(p, 0, 1, 5, 0, 3, 3, 1) + (-3) * mn(p, 0, 0, 6, 4, 2, 0, 0) + (3) * mn(p, 0, 0, 6, 3, 2, 1, 1) + (3) * mn(p, 0, 0, 6, 1, 4, 1, 0) + (-3) * mn(p, 0, 0, 6, 0, 4, 2, 1));
}

#[verifier::rlimit(100)]
proof fn am1_prod38(p: Pt)
    ensures
        ((3) * mn(p, 2, 0, 0, 0, 1, 1, 0) + (6) * mn(p, 1, 1, 0, 1, 0, 1, 0) + (1) * mn(p, 1, 1, 0, 0, 2, 0, 0) + (-3) * mn(p, 1, 1, 0, 0, 0, 2, 1) + (6) * mn(p, 1, 0, 1, 1, 1, 0, 0) + (-6) * mn(p, 1, 0, 1, 0, 1, 1, 1) + (1) * mn(p, 0, 2, 0, 1, 1, 0, 0) + (3) * mn(p, 0, 1, 1, 2, 0, 0, 0) + (-6) * mn(p, 0, 1, 1, 1, 0, 1, 1) + (9) * mn(p, 0, 1, 1, 0, 0, 2, 0) + (-3) * mn(p, 0, 0, 2, 1, 1, 0, 1) + (9) * mn(p, 0, 0, 2, 0, 1, 1, 0)) * ((-1) * mn(p, 3, 1, 0, 0, 0, 4, 0) + (2) * mn(p, 3, 0, 1, 0, 1, 3, 0) + (-3) * mn(p, 2, 0, 2, 1, 1, 2, 0) + (3) * mn(p, 1, 1, 2, 2, 0, 2, 0) + (1) * mn(p, 0, 3, 1, 0, 0, 4, 0) + (-3) * mn(p, 0, 2, 2, 0, 1, 3, 0) + (-2) * mn(p, 0, 1, 3, 3, 0, 1, 0) + (3) * mn(p, 0, 1, 3, 0, 2, 2, 0) + (1) * mn(p, 0, 0, 4, 3, 1, 0, 0) + (-1) * mn(p, 0, 0, 4, 0, 3, 1, 0)) == (-3) * mn(p, 5, 1, 0, 0, 1, 5, 0) + (6) * mn(p, 5, 0, 1, 0, 2, 4, 0) + (-6) * mn(p, 4, 2, 0, 1, 0, 5, 0) + (-1) * mn(p, 4, 2, 0, 0, 2, 4, 0) + (3) * mn(p, 4, 2, 0, 0, 0, 6, 1) + (6) * mn(p, 4, 1, 1, 1, 1, 4, 0) + (2) * mn(p, 4, 1, 1, 0, 3, 3, 0) + (3) * mn(p, 4, 0, 2, 1, 2, 3, 0) + (-12) * mn(p, 4, 0, 2, 0, 2, 4, 1) + (-1) * mn(p, 3, 3, 0, 1, 1, 4, 0) + (-3) * mn(p, 3, 2, 1, 2, 0, 4, 0) + (2) * mn(p, 3, 2, 1, 1, 2, 3, 0) + (6) * mn(p, 3, 2, 1, 1, 0, 5, 1) + (-9) * mn(p, 3, 2, 1, 0, 0, 6, 0) + (-3) * mn(p, 3, 1, 2, 2, 1, 3, 0) + (-3) * mn(p, 3, 1, 2, 1, 3, 2, 0) + (9) * mn(p, 3, 1, 2, 0, 1, 5, 0) + (-18) * mn(p, 3, 0, 3, 2, 2, 2, 0) + (12) * mn(p, 3, 0, 3, 1, 2, 3, 1) + (18) * mn(p, 3, 0, 3, 0, 2, 4, 0) + (3) * mn(p, 2, 3, 1, 0, 1, 5, 0) + (18) * mn(p, 2, 2, 2, 3, 0, 3, 0) + (-9) * mn(p, 2, 2, 2, 2, 0, 4, 1) + (-9) * mn(p, 2, 2, 2, 0, 2, 4, 0) + (3) * mn(p, 2, 1, 3, 3, 1, 2, 0) + (-27) * mn(p, 2, 1, 3, 1, 1, 4, 0) + (9) * mn(p, 2, 1, 3, 0, 3, 3, 0) + (3) * mn(p, 2, 0, 4, 3, 2, 1, 0) + (9) * mn(p, 2, 0, 4, 2, 2, 2, 1) + (-27) * mn(p, 2, 0, 4, 1, 2, 3, 0) + (-3) * mn(p, 2, 0, 4, 0, 4, 2, 0) + (6) * mn(p, 1, 4, 1, 1, 0, 5, 0) + (1) * mn(p, 1, 4, 1, 0, 2, 4, 0) + (-3) * mn(p, 1, 4, 1, 0, 0, 6, 1) + (3) * mn(p, 1, 3, 2, 3, 1, 2, 0) + (-12) * mn(p, 1, 3, 2, 1, 1, 4, 0) + (-3) * mn(p, 1, 3, 2, 0, 3, 3, 0) + (3) * mn(p, 1, 3, 2, 0, 1, 5, 1) + (-3) * mn(p, 1, 2, 3, 4, 0, 2, 0) + (-2) * mn(p, 1, 2, 3, 3, 2, 1, 0) + (-12) * mn(p, 1, 2, 3, 3, 0, 3, 1) + (27) * mn(p, 1, 2, 3, 2, 0, 4, 0) + (3) * mn(p, 1, 2, 3, 0, 4, 2, 0) + (9) * mn(p, 1, 2, 3, 0, 2, 4, 1) + (-6) * mn(p, 1, 1, 4, 4, 1, 1, 0) + (1) * mn(p, 1, 1, 4, 3, 3, 0, 0) + (27) * mn(p, 1, 1, 4, 2, 1, 3, 0) + (12) * mn(p, 1, 1, 4, 1, 3, 2, 0) + (-1) * mn(p, 1, 1, 4, 0, 5, 1, 0) + (-15) * mn(p, 1, 1, 4, 0, 3, 3, 1) + (6) * mn(p, 1, 0, 5, 4, 2, 0, 0) + (-6) * mn(p, 1, 0, 5, 3, 2, 1, 1) + (-6) * mn(p, 1, 0, 5, 1, 4, 1, 0) + (6) * mn(p, 1, 0, 5, 0, 4, 2, 1) + (1) * mn(p, 0, 5, 1, 1, 1, 4, 0) + (3) * mn(p, 0, 4, 2, 2, 0, 4, 0) + (-3) * mn(p, 0, 4, 2, 1, 2, 3, 0) + (-6) * mn(p, 0, 4, 2, 1, 0, 5, 1) + (9) * mn(p, 0, 4, 2, 0, 0, 6, 0) + (-2) * mn(p, 0, 3, 3, 4, 1, 1, 0) + (-9) * mn(p, 0, 3, 3, 2, 1, 3, 0) + (3) * mn(p, 0, 3, 3, 1, 3, 2, 0) + (15) * mn(p, 0, 3, 3, 1, 1, 4, 1) + (-18) * mn(p, 0, 3, 3, 0, 1, 5, 0) + (-6) * mn(p, 0, 2, 4, 5, 0, 1, 0) + (1) * mn(p, 0, 2, 4, 4, 2, 0, 0) + (12) * mn(p, 0, 2, 4, 4, 0, 2, 1) + (-18) * mn(p, 0, 2, 4, 3, 0, 3, 0) + (9) * mn(p, 0, 2, 4, 2, 2, 2, 0) + (-1) * mn(p, 0, 2, 4, 1, 4, 1, 0) + (-9) * mn(p, 0, 2, 4, 1, 2, 3, 1) + (3) * mn(p, 0, 1, 5, 5, 1, 0, 0) + (-9) * mn(p, 0, 1, 5, 3, 1, 2, 0) + (-3) * mn(p, 0, 1, 5, 2, 3, 1, 0) + (-3) * mn(p, 0, 1, 5, 1, 3, 2, 1) + (18) * mn(p, 0, 1, 5, 0, 3, 3, 0) + (-3) * mn(p, 0, 0, 6, 4, 2, 0, 1) + (9) * mn(p, 0, 0, 6, 3, 2, 1, 0) + (3) * mn(p, 0, 0, 6, 1, 4, 1, 1) + (-9) * mn(p, 0, 0, 6, 0, 4, 2, 0),
{
    let t0 = (3) * mn(p, 2, 0, 0, 0, 1, 1, 0);
    let t1 = (6) * mn(p, 1, 1, 0, 1, 0, 1, 0);
    let t2 = (1) * mn(p, 1, 1, 0, 0, 2, 0, 0);
    let t3 = (-3) * mn(p, 1, 1, 0, 0, 0, 2, 1);
    let t4 = (6) * mn(p, 1, 0, 1, 1, 1, 0, 0);
    let t5 = (-6) * mn(p, 1, 0, 1, 0, 1, 1, 1);
    let t6 = (1) * mn(p, 0, 2, 0, 1, 1, 0, 0);
    let t7 = (3) * mn(p, 0, 1, 1, 2, 0, 0, 0);
    let t8 = (-6) * mn(p, 0, 1, 1, 1, 0, 1, 1);
    let t9 = (9) * mn(p, 0, 1, 1, 0, 0, 2, 0);
    let t10 = (-3) * mn(p, 0, 0, 2, 1, 1, 0, 1);
    let t11 = (9) * mn(p, 0, 0, 2, 0, 1, 1, 0);
    let s0 = (-1) * mn(p, 3, 1, 0, 0, 0, 4, 0);
    let s1 = (2) * mn(p, 3, 0, 1, 0, 1, 3, 0);
    let s2 = (-3) * mn(p, 2, 0, 2, 1, 1, 2, 0);
    let s3 = (3) * mn(p, 1, 1, 2, 2, 0, 2, 0);
    let s4 = (1) * mn(p, 0, 3, 1, 0, 0, 4, 0);
    let s5 = (-3) * mn(p, 0, 2, 2, 0, 1, 3, 0);
    let s6 = (-2) * mn(p, 0, 1, 3, 3, 0, 1, 0);
    let s7 = (3) * mn(p, 0, 1, 3, 0, 2, 2, 0);
    let s8 = (1) * mn(p, 0, 0, 4, 3, 1, 0, 0);
    let s9 = (-1) * mn(p, 0, 0, 4, 0, 3, 1, 0);
    let pp0 = t0;
    let pp1 = pp0 + t1;
    let pp2 = pp1 + t2;
    let pp3 = pp2 + t3;
    let pp4 = pp3 + t4;
    let pp5 = pp4 + t5;
    let pp6 = pp5 + t6;
    let pp7 = pp6 + t7;
    let pp8 = pp7 + t8;
    let pp9 = pp8 + t9;
    let pp10 = pp9 + t10;
    let pp11 = pp10 + t11;
    let qq0 = s0;
    let qq1 = qq0 + s1;
    let qq2 = qq1 + s2;
    let qq3 = qq2 + s3;
    let qq4 = qq3 + s4;
    let qq5 = qq4 + s5;
    let qq6 = qq5 + s6;
    let qq7 = qq6 + s7;
    let qq8 = qq7 + s8;
    let qq9 = qq8 + s9;
    let q = qq9;
    lemma_mul_is_distributive_add_other_way(q, pp0, t1);
    lemma_mul_is_distributive_add_other_way(q, pp1, t2);
    lemma_mul_is_distributive_add_other_way(q, pp2, t3);
    lemma_mul_is_distributive_add_other_way(q, pp3, t4);
    lemma_mul_is_distributive_add_other_way(q, pp4, t5);
    lemma_mul_is_distributive_add_other_way(q, pp5, t6);
    lemma_mul_is_distributive_add_other_way(q, pp6, t7);
    lemma_mul_is_distributive_add_other_way(q, pp7, t8);
    lemma_mul_is_distributive_add_other_way(q, pp8, t9);
    lemma_mul_is_distributive_add_other_way(q, pp9, t10);
    lemma_mul_is_distributive_add_other_way(q, pp10, t11);
    lemma_mul_is_distributive_add(t0, qq0, s1);
    lemma_mul_is_distributive_add(t0, qq1, s2);
    lemma_mul_is_distributive_add(t0, qq2, s3);
    lemma_mul_is_distributive_add(t0, qq3, s4);
    lemma_mul_is_distributive_add(t0, qq4, s5);
    lemma_mul_is_distributive_add(t0, qq5, s6);
    lemma_mul_is_distributive_add(t0, qq6, s7);
    lemma_mul_is_distributive_add(t0, qq7, s8);
    lemma_mul_is_distributive_add(t0, qq8, s9);
    lemma_mul_is_distributive_add(t1, qq0, s1);
    lemma_mul_is_distributive_add(t1, qq1, s2);
    lemma_mul_is_distributive_add(t1, qq2, s3);
    lemma_mul_is_distributive_add(t1, qq3, s4);
    lemma_mul_is_distributive_add(t1, qq4, s5);
    lemma_mul_is_distributive_add(t1, qq5, s6);
    lemma_mul_is_distributive_add(t1, qq6, s7);
    lemma_mul_is_distributive_add(t1, qq7, s8);
    lemma_mul_is_distributive_add(t1, qq8, s9);
    lemma_mul_is_distributive_add(t2, qq0, s1);
    lemma_mul_is_distributive_add(t2, qq1, s2);
    lemma_mul_is_distributive_add(t2, qq2, s3);
    lemma_mul_is_distributive_add(t2, qq3, s4);
    lemma_mul_is_distributive_add(t2, qq4, s5);
    lemma_mul_is_distributive_add(t2, qq5, s6);
    lemma_mul_is_distributive_add(t2, qq6, s7);
    lemma_mul_is_distributive_add(t2, qq7, s8);
    lemma_mul_is_distributive_add(t2, qq8, s9);
    lemma_mul_is_distributive_add(t3, qq0, s1);
    lemma_mul_is_distributive_add(t3, qq1, s2);
    lemma_mul_is_distributive_add(t3, qq2, s3);
    lemma_mul_is_distributive_add(t3, qq3, s4);
    lemma_mul_is_distributive_add(t3, qq4, s5);
    lemma_mul_is_distributive_add(t3, qq5, s6);
    lemma_mul_is_distributive_add(t3, qq6, s7);
    lemma_mul_is_distributive_add(t3, qq7, s8);
    lemma_mul_is_distributive_add(t3, qq8, s9);
    lemma_mul_is_distributive_add(t4, qq0, s1);
    lemma_mul_is_distributive_add(t4, qq1, s2);
    lemma_mul_is_distributive_add(t4, qq2, s3);
    lemma_mul_is_distributive_add(t4, qq3, s4);
    lemma_mul_is_distributive_add(t4, qq4, s5);
    lemma_mul_is_distributive_add(t4, qq5, s6);
    lemma_mul_is_distributive_add(t4, qq6, s7);
    lemma_mul_is_distributive_add(t4, qq7, s8);
    lemma_mul_is_distributive_add(t4, qq8, s9);
    lemma_mul_is_distributive_add(t5, qq0, s1);
    lemma_mul_is_distributive_add(t5, qq1, s2);
    lemma_mul_is_distributive_add(t5, qq2, s3);
    lemma_mul_is_distributive_add(t5, qq3, s4);
    lemma_mul_is_distributive_add(t5, qq4, s5);
    lemma_mul_is_distributive_add(t5, qq5, s6);
    lemma_mul_is_distributive_add(t5, qq6, s7);
    lemma_mul_is_distributive_add(t5, qq7, s8);
    lemma_mul_is_distributive_add(t5, qq8, s9);
    lemma_mul_is_distributive_add(t6, qq0, s1);
    lemma_mul_is_distributive_add(t6, qq1, s2);
    lemma_mul_is_distributive_add(t6, qq2, s3);
    lemma_mul_is_distributive_add(t6, qq3, s4);
    lemma_mul_is_distributive_add(t6, qq4, s5);
    lemma_mul_is_distributive_add(t6, qq5, s6);
    lemma_mul_is_distributive_add(t6, qq6, s7);
    lemma_mul_is_distributive_add(t6, qq7, s8);
    lemma_mul_is_distributive_add(t6, qq8, s9);
    lemma_mul_is_distributive_add(t7, qq0, s1);
    lemma_mul_is_distributive_add(t7, qq1, s2);
    lemma_mul_is_distributive_add(t7, qq2, s3);
    lemma_mul_is_distributive_add(t7, qq3, s4);
    lemma_mul_is_distributive_add(t7, qq4, s5);
    lemma_mul_is_distributive_add(t7, qq5, s6);
    lemma_mul_is_distributive_add(t7, qq6, s7);
    lemma_mul_is_distributive_add(t7, qq7, s8);
    lemma_mul_is_distributive_add(t7, qq8, s9);
    lemma_mul_is_distributive_add(t8, qq0, s1);
    lemma_mul_is_distributive_add(t8, qq1, s2);
    lemma_mul_is_distributive_add(t8, qq2, s3);
    lemma_mul_is_distributive_add(t8, qq3, s4);
    lemma_mul_is_distributive_add(t8, qq4, s5);
    lemma_mul_is_distributive_add(t8, qq5, s6);
    lemma_mul_is_distributive_add(t8, qq6, s7);
    lemma_mul_is_distributive_add(t8, qq7, s8);
    lemma_mul_is_distributive_add(t8, qq8, s9);
    lemma_mul_is_distributive_add(t9, qq0, s1);
    lemma_mul_is_distributive_add(t9, qq1, s2);
    lemma_mul_is_distributive_add(t9, qq2, s3);
    lemma_mul_is_distributive_add(t9, qq3, s4);
    lemma_mul_is_distributive_add(t9, qq4, s5);
    lemma_mul_is_distributive_add(t9, qq5, s6);
    lemma_mul_is_distributive_add(t9, qq6, s7);
    lemma_mul_is_distributive_add(t9, qq7, s8);
    lemma_mul_is_distributive_add(t9, qq8, s9);
    lemma_mul_is_distributive_add(t10, qq0, s1);
    lemma_mul_is_distributive_add(t10, qq1, s2);
    lemma_mul_is_distributive_add(t10, qq2, s3);
    lemma_mul_is_distributive_add(t10, qq3, s4);
    lemma_mul_is_distributive_add(t10, qq4, s5);
    lemma_mul_is_distributive_add(t10, qq5, s6);
    lemma_mul_is_distributive_add(t10, qq6, s7);
    lemma_mul_is_distributive_add(t10, qq7, s8);
    lemma_mul_is_distributive_add(t10, qq8, s9);
    lemma_mul_is_distributive_add(t11, qq0, s1);
    lemma_mul_is_distributive_add(t11, qq1, s2);
    lemma_mul_is_distributive_add(t11, qq2, s3);
    lemma_mul_is_distributive_add(t11, qq3, s4);
    lemma_mul_is_distributive_add(t11, qq4, s5);
    lemma_mul_is_distributive_add(t11, qq5, s6);
    lemma_mul_is_distributive_add(t11, qq6, s7);
    lemma_mul_is_distributive_add(t11, qq7, s8);
    lemma_mul_is_distributive_add(t11, qq8, s9);
    lemma_tm(p, 3, 2, 0, 0, 0, 1, 1, 0, -1, 3, 1, 0, 0, 0, 4, 0);
    assert(t0 * s0 == (-3) * mn(p, 5, 1, 0, 0, 1, 5, 0));
    lemma_tm(p, 3, 2, 0, 0, 0, 1, 1, 0, 2, 3, 0, 1, 0, 1, 3, 0);
    assert(t0 * s1 == (6) * mn(p, 5, 0, 1, 0, 2, 4, 0));
    lemma_tm(p, 3, 2, 0, 0, 0, 1, 1, 0, -3, 2, 0, 2, 1, 1, 2, 0);
    assert(t0 * s2 == (-9) * mn(p, 4, 0, 2, 1, 2, 3, 0));
    lemma_tm(p, 3, 2, 0, 0, 0, 1, 1, 0, 3, 1, 1, 2, 2, 0, 2, 0);
    assert(t0 * s3 == (9) * mn(p, 3, 1, 2, 2, 1, 3, 0));
    lemma_tm(p, 3, 2, 0, 0, 0, 1, 1, 0, 1, 0, 3, 1, 0, 0, 4, 0);
    assert(t0 * s4 == (3) * mn(p, 2, 3, 1, 0, 1, 5, 0));
    lemma_tm(p, 3, 2, 0, 0, 0, 1, 1, 0, -3, 0, 2, 2, 0, 1, 3, 0);
    assert(t0 * s5 == (-9) * mn(p, 2, 2, 2, 0, 2, 4, 0));
    lemma_tm(p, 3, 2, 0, 0, 0, 1, 1, 0, -2, 0, 1, 3, 3, 0, 1, 0);
    assert(t0 * s6 == (-6) * mn(p, 2, 1, 3, 3, 1, 2, 0));
    lemma_tm(p, 3, 2, 0, 0, 0, 1, 1, 0, 3, 0, 1, 3, 0, 2, 2, 0);
    assert(t0 * s7 == (9) * mn(p, 2, 1, 3, 0, 3, 3, 0));
    lemma_tm(p, 3, 2, 0, 0, 0, 1, 1, 0, 1, 0, 0, 4, 3, 1, 0, 0);
    assert(t0 * s8 == (3) * mn(p, 2, 0, 4, 3, 2, 1, 0));
    lemma_tm(p, 3, 2, 0, 0, 0, 1, 1, 0, -1, 0, 0, 4, 0, 3, 1, 0);
    assert(t0 * s9 == (-3) * mn(p, 2, 0, 4, 0, 4, 2, 0));
    assert(t0 * q == (-3) * mn(p, 5, 1, 0, 0, 1, 5, 0) + (6) * mn(p, 5, 0, 1, 0, 2, 4, 0) + (-9) * mn(p, 4, 0, 2, 1, 2, 3, 0) + (9) * mn(p, 3, 1, 2, 2, 1, 3, 0) + (3) * mn(p, 2, 3, 1, 0, 1, 5, 0) + (-9) * mn(p, 2, 2, 2, 0, 2, 4, 0) + (-6) * mn(p, 2, 1, 3, 3, 1, 2, 0) + (9) * mn(p, 2, 1, 3, 0, 3, 3, 0) + (3) * mn(p, 2, 0, 4, 3, 2, 1, 0) + (-3) * mn(p, 2, 0, 4, 0, 4, 2, 0));
    lemma_tm(p, 6, 1, 1, 0, 1, 0, 1, 0, -1, 3, 1, 0, 0, 0, 4, 0);
    assert(t1 * s0 == (-6) * mn(p, 4, 2, 0, 1, 0, 5, 0));
    lemma_tm(p, 6, 1, 1, 0, 1, 0, 1, 0, 2, 3, 0, 1, 0, 1, 3, 0);
    assert(t1 * s1 == (12) * mn(p, 4, 1, 1, 1, 1, 4, 0));
    lemma_tm(p, 6, 1, 1, 0, 1, 0, 1, 0, -3, 2, 0, 2, 1, 1, 2, 0);
    assert(t1 * s2 == (-18) * mn(p, 3, 1, 2, 2, 1, 3, 0));
    lemma_tm(p, 6, 1, 1, 0, 1, 0, 1, 0, 3, 1, 1, 2, 2, 0, 2, 0);
    assert(t1 * s3 == (18) * mn(p, 2, 2, 2, 3, 0, 3, 0));
    lemma_tm(p, 6, 1, 1, 0, 1, 0, 1, 0, 1, 0, 3, 1, 0, 0, 4, 0);
    assert(t1 * s4 == (6) * mn(p, 1, 4, 1, 1, 0, 5, 0));
    lemma_tm(p, 6, 1, 1, 0, 1, 0, 1, 0, -3, 0, 2, 2, 0, 1, 3, 0);
    assert(t1 * s5 == (-18) * mn(p, 1, 3, 2, 1, 1, 4, 0));
    lemma_tm(p, 6, 1, 1, 0, 1, 0, 1, 0, -2, 0, 1, 3, 3, 0, 1, 0);
    assert(t1 * s6 == (-12) * mn(p, 1, 2, 3, 4, 0, 2, 0));
    lemma_tm(p, 6, 1, 1, 0, 1, 0, 1, 0, 3, 0, 1, 3, 0, 2, 2, 0);
    assert(t1 * s7 == (18) * mn(p, 1, 2, 3, 1, 2, 3, 0));
    lemma_tm(p, 6, 1, 1, 0, 1, 0, 1, 0, 1, 0, 0, 4, 3, 1, 0, 0);
    assert(t1 * s8 == (6) * mn(p, 1, 1, 4, 4, 1, 1, 0));
    lemma_tm(p, 6, 1, 1, 0, 1, 0, 1, 0, -1, 0, 0, 4, 0, 3, 1, 0);
    assert(t1 * s9 == (-6) * mn(p, 1, 1, 4, 1, 3, 2, 0));
    assert(t1 * q == (-6) * mn(p, 4, 2, 0, 1, 0, 5, 0) + (12) * mn(p, 4, 1, 1, 1, 1, 4, 0) + (-18) * mn(p, 3, 1, 2, 2, 1, 3, 0) + (18) * mn(p, 2, 2, 2, 3, 0, 3, 0) + (6) * mn(p, 1, 4, 1, 1, 0, 5, 0) + (-18) * mn(p, 1, 3, 2, 1, 1, 4, 0) + (-12) * mn(p, 1, 2, 3, 4, 0, 2, 0) + (18) * mn(p, 1, 2, 3, 1, 2, 3, 0) + (6) * mn(p, 1, 1, 4, 4, 1, 1, 0) + (-6) * mn(p, 1, 1, 4, 1, 3, 2, 0));
    lemma_tm(p, 1, 1, 1, 0, 0, 2, 0, 0, -1, 3, 1, 0, 0, 0, 4, 0);
    assert(t2 * s0 == (-1) * mn(p, 4, 2, 0, 0, 2, 4, 0));
    lemma_tm(p, 1, 1, 1, 0, 0, 2, 0, 0, 2, 3, 0, 1, 0, 1, 3, 0);
    assert(t2 * s1 == (2) * mn(p, 4, 1, 1, 0, 3, 3, 0));
    lemma_tm(p, 1, 1, 1, 0, 0, 2, 0, 0, -3, 2, 0, 2, 1, 1, 2, 0);
    assert(t2 * s2 == (-3) * mn(p, 3, 1, 2, 1, 3, 2, 0));
    lemma_tm(p, 1, 1, 1, 0, 0, 2, 0, 0, 3, 1, 1, 2, 2, 0, 2, 0);
    assert(t2 * s3 == (3) * mn(p, 2, 2, 2, 2, 2, 2, 0));
    lemma_tm(p, 1, 1, 1, 0, 0, 2, 0, 0, 1, 0, 3, 1, 0, 0, 4, 0);
    assert(t2 * s4 == (1) * mn(p, 1, 4, 1, 0, 2, 4, 0));
    lemma_tm(p, 1, 1, 1, 0, 0, 2, 0, 0, -3, 0, 2, 2, 0, 1, 3, 0);
    assert(t2 * s5 == (-3) * mn(p, 1, 3, 2, 0, 3, 3, 0));
    lemma_tm(p, 1, 1, 1, 0, 0, 2, 0, 0, -2, 0, 1, 3, 3, 0, 1, 0);
    assert(t2 * s6 == (-2) * mn(p, 1, 2, 3, 3, 2, 1, 0));
    lemma_tm(p, 1, 1, 1, 0, 0, 2, 0, 0, 3, 0, 1, 3, 0, 2, 2, 0);
    assert(t2 * s7 == (3) * mn(p, 1, 2, 3, 0, 4, 2, 0));
    lemma_tm(p, 1, 1, 1, 0, 0, 2, 0, 0, 1, 0, 0, 4, 3, 1, 0, 0);
    assert(t2 * s8 == (1) * mn(p, 1, 1, 4, 3, 3, 0, 0));
    lemma_tm(p, 1, 1, 1, 0, 0, 2, 0, 0, -1, 0, 0, 4, 0, 3, 1, 0);
    assert(t2 * s9 == (-1) * mn(p, 1, 1, 4, 0, 5, 1, 0));
    assert(t2 * q == (-1) * mn(p, 4, 2, 0, 0, 2, 4, 0) + (2) * mn(p, 4, 1, 1, 0, 3, 3, 0) + (-3) * mn(p, 3, 1, 2, 1, 3, 2, 0) + (3) * mn(p, 2, 2, 2, 2, 2, 2, 0) + (1) * mn(p, 1, 4, 1, 0, 2, 4, 0) + (-3) * mn(p, 1, 3, 2, 0, 3, 3, 0) + (-2) * mn(p, 1, 2, 3, 3, 2, 1, 0) + (3) * mn(p, 1, 2, 3, 0, 4, 2, 0) + (1) * mn(p, 1, 1, 4, 3, 3, 0, 0) + (-1) * mn(p, 1, 1, 4, 0, 5, 1, 0));
    lemma_tm(p, -3, 1, 1, 0, 0, 0, 2, 1, -1, 3, 1, 0, 0, 0, 4, 0);
    assert(t3 * s0 == (3) * mn(p, 4, 2, 0, 0, 0, 6, 1));
    lemma_tm(p, -3, 1, 1, 0, 0, 0, 2, 1, 2, 3, 0, 1, 0, 1, 3, 0);
    assert(t3 * s1 == (-6) * mn(p, 4, 1, 1, 0, 1, 5, 1));
    lemma_tm(p, -3, 1, 1, 0, 0, 0, 2, 1, -3, 2, 0, 2, 1, 1, 2, 0);
    assert(t3 * s2 == (9) * mn(p, 3, 1, 2, 1, 1, 4, 1));
    lemma_tm(p, -3, 1, 1, 0, 0, 0, 2, 1, 3, 1, 1, 2, 2, 0, 2, 0);
    assert(t3 * s3 == (-9) * mn(p, 2, 2, 2, 2, 0, 4, 1));
    lemma_tm(p, -3, 1, 1, 0, 0, 0, 2, 1, 1, 0, 3, 1, 0, 0, 4, 0);
    assert(t3 * s4 == (-3) * mn(p, 1, 4, 1, 0, 0, 6, 1));
    lemma_tm(p, -3, 1, 1, 0, 0, 0, 2, 1, -3, 0, 2, 2, 0, 1, 3, 0);
    assert(t3 * s5 == (9) * mn(p, 1, 3, 2, 0, 1, 5, 1));
    lemma_tm(p, -3, 1, 1, 0, 0, 0, 2, 1, -2, 0, 1, 3, 3, 0, 1, 0);
    assert(t3 * s6 == (6) * mn(p, 1, 2, 3, 3, 0, 3, 1));
    lemma_tm(p, -3, 1, 1, 0, 0, 0, 2, 1, 3, 0, 1, 3, 0, 2, 2, 0);
    assert(t3 * s7 == (-9) * mn(p, 1, 2, 3, 0, 2, 4, 1));
    lemma_tm(p, -3, 1, 1, 0, 0, 0, 2, 1, 1, 0, 0, 4, 3, 1, 0, 0);
    assert(t3 * s8 == (-3) * mn(p, 1, 1, 4, 3, 1, 2, 1));
    lemma_tm(p, -3, 1, 1, 0, 0, 0, 2, 1, -1, 0, 0, 4, 0, 3, 1, 0);
    assert(t3 * s9 == (3) * mn(p, 1, 1, 4, 0, 3, 3, 1));
    assert(t3 * q == (3) * mn(p, 4, 2, 0, 0, 0, 6, 1) + (-6) * mn(p, 4, 1, 1, 0, 1, 5, 1) + (9) * mn(p, 3, 1, 2, 1, 1, 4, 1) + (-9) * mn(p, 2, 2, 2, 2, 0, 4, 1) + (-3) * mn(p, 1, 4, 1, 0, 0, 6, 1) + (9) * mn(p, 1, 3, 2, 0, 1, 5, 1) + (6) * mn(p, 1, 2, 3, 3, 0, 3, 1) + (-9) * mn(p, 1, 2, 3, 0, 2, 4, 1) + (-3) * mn(p, 1, 1, 4, 3, 1, 2, 1) + (3) * mn(p, 1, 1, 4, 0, 3, 3, 1));
    lemma_tm(p, 6, 1, 0, 1, 1, 1, 0, 0, -1, 3, 1, 0, 0, 0, 4, 0);
    assert(t4 * s0 == (-6) * mn(p, 4, 1, 1, 1, 1, 4, 0));
    lemma_tm(p, 6, 1, 0, 1, 1, 1, 0, 0, 2, 3, 0, 1, 0, 1, 3, 0);
    assert(t4 * s1 == (12) * mn(p, 4, 0, 2, 1, 2, 3, 0));
    lemma_tm(p, 6, 1, 0, 1, 1, 1, 0, 0, -3, 2, 0, 2, 1, 1, 2, 0);
    assert(t4 * s2 == (-18) * mn(p, 3, 0, 3, 2, 2, 2, 0));
    lemma_tm(p, 6, 1, 0, 1, 1, 1, 0, 0, 3, 1, 1, 2, 2, 0, 2, 0);
    assert(t4 * s3 == (18) * mn(p, 2, 1, 3, 3, 1, 2, 0));
    lemma_tm(p, 6, 1, 0, 1, 1, 1, 0, 0, 1, 0, 3, 1, 0, 0, 4, 0);
    assert(t4 * s4 == (6) * mn(p, 1, 3, 2, 1, 1, 4, 0));
    lemma_tm(p, 6, 1, 0, 1, 1, 1, 0, 0, -3, 0, 2, 2, 0, 1, 3, 0);
    assert(t4 * s5 == (-18) * mn(p, 1, 2, 3, 1, 2, 3, 0));
    lemma_tm(p, 6, 1, 0, 1, 1, 1, 0, 0, -2, 0, 1, 3, 3, 0, 1, 0);
    assert(t4 * s6 == (-12) * mn(p, 1, 1, 4, 4, 1, 1, 0));
    lemma_tm(p, 6, 1, 0, 1, 1, 1, 0, 0, 3, 0, 1, 3, 0, 2, 2, 0);
    assert(t4 * s7 == (18) * mn(p, 1, 1, 4, 1, 3, 2, 0));
    lemma_tm(p, 6, 1, 0, 1, 1, 1, 0, 0, 1, 0, 0, 4, 3, 1, 0, 0);
    assert(t4 * s8 == (6) * mn(p, 1, 0, 5, 4, 2, 0, 0));
    lemma_tm(p, 6, 1, 0, 1, 1, 1, 0, 0, -1, 0, 0, 4, 0, 3, 1, 0);
    assert(t4 * s9 == (-6) * mn(p, 1, 0, 5, 1, 4, 1, 0));
    assert(t4 * q == (-6) * mn(p, 4, 1, 1, 1, 1, 4, 0) + (12) * mn(p, 4, 0, 2, 1, 2, 3, 0) + (-18) * mn(p, 3, 0, 3, 2, 2, 2, 0) + (18) * mn(p, 2, 1, 3, 3, 1, 2, 0) + (6) * mn(p, 1, 3, 2, 1, 1, 4, 0) + (-18) * mn(p, 1, 2, 3, 1, 2, 3, 0) + (-12) * mn(p, 1, 1, 4, 4, 1, 1, 0) + (18) * mn(p, 1, 1, 4, 1, 3, 2, 0) + (6) * mn(p, 1, 0, 5, 4, 2, 0, 0) + (-6) * mn(p, 1, 0, 5, 1, 4, 1, 0));
    lemma_tm(p, -6, 1, 0, 1, 0, 1, 1, 1, -1, 3, 1, 0, 0, 0, 4, 0);
    assert(t5 * s0 == (6) * mn(p, 4, 1, 1, 0, 1, 5, 1));
    lemma_tm(p, -6, 1, 0, 1, 0, 1, 1, 1, 2, 3, 0, 1, 0, 1, 3, 0);
    assert(t5 * s1 == (-12) * mn(p, 4, 0, 2, 0, 2, 4, 1));
    lemma_tm(p, -6, 1, 0, 1, 0, 1, 1, 1, -3, 2, 0, 2, 1, 1, 2, 0);
    assert(t5 * s2 == (18) * mn(p, 3, 0, 3, 1, 2, 3, 1));
    lemma_tm(p, -6, 1, 0, 1, 0, 1, 1, 1, 3, 1, 1, 2, 2, 0, 2, 0);
    assert(t5 * s3 == (-18) * mn(p, 2, 1, 3, 2, 1, 3, 1));
    lemma_tm(p, -6, 1, 0, 1, 0, 1, 1, 1, 1, 0, 3, 1, 0, 0, 4, 0);
    assert(t5 * s4 == (-6) * mn(p, 1, 3, 2, 0, 1, 5, 1));
    lemma_tm(p, -6, 1, 0, 1, 0, 1, 1, 1, -3, 0, 2, 2, 0, 1, 3, 0);
    assert(t5 * s5 == (18) * mn(p, 1, 2, 3, 0, 2, 4, 1));
    lemma_tm(p, -6, 1, 0, 1, 0, 1, 1, 1, -2, 0, 1, 3, 3, 0, 1, 0);
    assert(t5 * s6 == (12) * mn(p, 1, 1, 4, 3, 1, 2, 1));
    lemma_tm(p, -6, 1, 0, 1, 0, 1, 1, 1, 3, 0, 1, 3, 0, 2, 2, 0);
    assert(t5 * s7 == (-18) * mn(p, 1, 1, 4, 0, 3, 3, 1));
    lemma_tm(p, -6, 1, 0, 1, 0, 1, 1, 1, 1, 0, 0, 4, 3, 1, 0, 0);
    assert(t5 * s8 == (-6) * mn(p, 1, 0, 5, 3, 2, 1, 1));
    lemma_tm(p, -6, 1, 0, 1, 0, 1, 1, 1, -1, 0, 0, 4, 0, 3, 1, 0);
    assert(t5 * s9 == (6) * mn(p, 1, 0, 5, 0, 4, 2, 1));
    assert(t5 * q == (6) * mn(p, 4, 1, 1, 0, 1, 5, 1) + (-12) * mn(p, 4, 0, 2, 0, 2, 4, 1) + (18) * mn(p, 3, 0, 3, 1, 2, 3, 1) + (-18) * mn(p, 2, 1, 3, 2, 1, 3, 1) + (-6) * mn(p, 1, 3, 2, 0, 1, 5, 1) + (18) * mn(p, 1, 2, 3, 0, 2, 4, 1) + (12) * mn(p, 1, 1, 4, 3, 1, 2, 1) + (-18) * mn(p, 1, 1, 4, 0, 3, 3, 1) + (-6) * mn(p, 1, 0, 5, 3, 2, 1, 1) + (6) * mn(p, 1, 0, 5, 0, 4, 2, 1));
    lemma_tm(p, 1, 0, 2, 0, 1, 1, 0, 0, -1, 3, 1, 0, 0, 0, 4, 0);
    assert(t6 * s0 == (-1) * mn(p, 3, 3, 0, 1, 1, 4, 0));
    lemma_tm(p, 1, 0, 2, 0, 1, 1, 0, 0, 2, 3, 0, 1, 0, 1, 3, 0);
    assert(t6 * s1 == (2) * mn(p, 3, 2, 1, 1, 2, 3, 0));
    lemma_tm(p, 1, 0, 2, 0, 1, 1, 0, 0, -3, 2, 0, 2, 1, 1, 2, 0);
    assert(t6 * s2 == (-3) * mn(p, 2, 2, 2, 2, 2, 2, 0));
    lemma_tm(p, 1, 0, 2, 0, 1, 1, 0, 0, 3, 1, 1, 2, 2, 0, 2, 0);
    assert(t6 * s3 == (3) * mn(p, 1, 3, 2, 3, 1, 2, 0));
    lemma_tm(p, 1, 0, 2, 0, 1, 1, 0, 0, 1, 0, 3, 1, 0, 0, 4, 0);
    assert(t6 * s4 == (1) * mn(p, 0, 5, 1, 1, 1, 4, 0));
    lemma_tm(p, 1, 0, 2, 0, 1, 1, 0, 0, -3, 0, 2, 2, 0, 1, 3, 0);
    assert(t6 * s5 == (-3) * mn(p, 0, 4, 2, 1, 2, 3, 0));
    lemma_tm(p, 1, 0, 2, 0, 1, 1, 0, 0, -2, 0, 1, 3, 3, 0, 1, 0);
    assert(t6 * s6 == (-2) * mn(p, 0, 3, 3, 4, 1, 1, 0));
    lemma_tm(p, 1, 0, 2, 0, 1, 1, 0, 0, 3, 0, 1, 3, 0, 2, 2, 0);
    assert(t6 * s7 == (3) * mn(p, 0, 3, 3, 1, 3, 2, 0));
    lemma_tm(p, 1, 0, 2, 0, 1, 1, 0, 0, 1, 0, 0, 4, 3, 1, 0, 0);
    assert(t6 * s8 == (1) * mn(p, 0, 2, 4, 4, 2, 0, 0));
    lemma_tm(p, 1, 0, 2, 0, 1, 1, 0, 0, -1, 0, 0, 4, 0, 3, 1, 0);
    assert(t6 * s9 == (-1) * mn(p, 0, 2, 4, 1, 4, 1, 0));
    assert(t6 * q == (-1) * mn(p, 3, 3, 0, 1, 1, 4, 0) + (2) * mn(p, 3, 2, 1, 1, 2, 3, 0) + (-3) * mn(p, 2, 2, 2, 2, 2, 2, 0) + (3) * mn(p, 1, 3, 2, 3, 1, 2, 0) + (1) * mn(p, 0, 5, 1, 1, 1, 4, 0) + (-3) * mn(p, 0, 4, 2, 1, 2, 3, 0) + (-2) * mn(p, 0, 3, 3, 4, 1, 1, 0) + (3) * mn(p, 0, 3, 3, 1, 3, 2, 0) + (1) * mn(p, 0, 2, 4, 4, 2, 0, 0) + (-1) * mn(p, 0, 2, 4, 1, 4, 1, 0));
    lemma_tm(p, 3, 0, 1, 1, 2, 0, 0, 0, -1, 3, 1, 0, 0, 0, 4, 0);
    assert(t7 * s0 == (-3) * mn(p, 3, 2, 1, 2, 0, 4, 0));
    lemma_tm(p, 3, 0, 1, 1, 2, 0, 0, 0, 2, 3, 0, 1, 0, 1, 3, 0);
    assert(t7 * s1 == (6) * mn(p, 3, 1, 2, 2, 1, 3, 0));
    lemma_tm(p, 3, 0, 1, 1, 2, 0, 0, 0, -3, 2, 0, 2, 1, 1, 2, 0);
    assert(t7 * s2 == (-9) * mn(p, 2, 1, 3, 3, 1, 2, 0));
    lemma_tm(p, 3, 0, 1, 1, 2, 0, 0, 0, 3, 1, 1, 2, 2, 0, 2, 0);
    assert(t7 * s3 == (9) * mn(p, 1, 2, 3, 4, 0, 2, 0));
    lemma_tm(p, 3, 0, 1, 1, 2, 0, 0, 0, 1, 0, 3, 1, 0, 0, 4, 0);
    assert(t7 * s4 == (3) * mn(p, 0, 4, 2, 2, 0, 4, 0));
    lemma_tm(p, 3, 0, 1, 1, 2, 0, 0, 0, -3, 0, 2, 2, 0, 1, 3, 0);
    assert(t7 * s5 == (-9) * mn(p, 0, 3, 3, 2, 1, 3, 0));
    lemma_tm(p, 3, 0, 1, 1, 2, 0, 0, 0, -2, 0, 1, 3, 3, 0, 1, 0);
    assert(t7 * s6 == (-6) * mn(p, 0, 2, 4, 5, 0, 1, 0));
    lemma_tm(p, 3, 0, 1, 1, 2, 0, 0, 0, 3, 0, 1, 3, 0, 2, 2, 0);
    assert(t7 * s7 == (9) * mn(p, 0, 2, 4, 2, 2, 2, 0));
    lemma_tm(p, 3, 0, 1, 1, 2, 0, 0, 0, 1, 0, 0, 4, 3, 1, 0, 0);
    assert(t7 * s8 == (3) * mn(p, 0, 1, 5, 5, 1, 0, 0));
    lemma_tm(p, 3, 0, 1, 1, 2, 0, 0, 0, -1, 0, 0, 4, 0, 3, 1, 0);
    assert(t7 * s9 == (-3) * mn(p, 0, 1, 5, 2, 3, 1, 0));
    assert(t7 * q == (-3) * mn(p, 3, 2, 1, 2, 0, 4, 0) + (6) * mn(p, 3, 1, 2, 2, 1, 3, 0) + (-9) * mn(p, 2, 1, 3, 3, 1, 2, 0) + (9) * mn(p, 1, 2, 3, 4, 0, 2, 0) + (3) * mn(p, 0, 4, 2, 2, 0, 4, 0) + (-9) * mn(p, 0, 3, 3, 2, 1, 3, 0) + (-6) * mn(p, 0, 2, 4, 5, 0, 1, 0) + (9) * mn(p, 0, 2, 4, 2, 2, 2, 0) + (3) * mn(p, 0, 1, 5, 5, 1, 0, 0) + (-3) * mn(p, 0, 1, 5, 2, 3, 1, 0));
    lemma_tm(p, -6, 0, 1, 1, 1, 0, 1, 1, -1, 3, 1, 0, 0, 0, 4, 0);
    assert(t8 * s0 == (6) * mn(p, 3, 2, 1, 1, 0, 5, 1));
    lemma_tm(p, -6, 0, 1, 1, 1, 0, 1, 1, 2, 3, 0, 1, 0, 1, 3, 0);
    assert(t8 * s1 == (-12) * mn(p, 3, 1, 2, 1, 1, 4, 1));
    lemma_tm(p, -6, 0, 1, 1, 1, 0, 1, 1, -3, 2, 0, 2, 1, 1, 2, 0);
    assert(t8 * s2 == (18) * mn(p, 2, 1, 3, 2, 1, 3, 1));
    lemma_tm(p, -6, 0, 1, 1, 1, 0, 1, 1, 3, 1, 1, 2, 2, 0, 2, 0);
    assert(t8 * s3 == (-18) * mn(p, 1, 2, 3, 3, 0, 3, 1));
    lemma_tm(p, -6, 0, 1, 1, 1, 0, 1, 1, 1, 0, 3, 1, 0, 0, 4, 0);
    assert(t8 * s4 == (-6) * mn(p, 0, 4, 2, 1, 0, 5, 1));
    lemma_tm(p, -6, 0, 1, 1, 1, 0, 1, 1, -3, 0, 2, 2, 0, 1, 3, 0);
    assert(t8 * s5 == (18) * mn(p, 0, 3, 3, 1, 1, 4, 1));
    lemma_tm(p, -6, 0, 1, 1, 1, 0, 1, 1, -2, 0, 1, 3, 3, 0, 1, 0);
    assert(t8 * s6 == (12) * mn(p, 0, 2, 4, 4, 0, 2, 1));
    lemma_tm(p, -6, 0, 1, 1, 1, 0, 1, 1, 3, 0, 1, 3, 0, 2, 2, 0);
    assert(t8 * s7 == (-18) * mn(p, 0, 2, 4, 1, 2, 3, 1));
    lemma_tm(p, -6, 0, 1, 1, 1, 0, 1, 1, 1, 0, 0, 4, 3, 1, 0, 0);
    assert(t8 * s8 == (-6) * mn(p, 0, 1, 5, 4, 1, 1, 1));
    lemma_tm(p, -6, 0, 1, 1, 1, 0, 1, 1, -1, 0, 0, 4, 0, 3, 1, 0);
    assert(t8 * s9 == (6) * mn(p, 0, 1, 5, 1, 3, 2, 1));
    assert(t8 * q == (6) * mn(p, 3, 2, 1, 1, 0, 5, 1) + (-12) * mn(p, 3, 1, 2, 1, 1, 4, 1) + (18) * mn(p, 2, 1, 3, 2, 1, 3, 1) + (-18) * mn(p, 1, 2, 3, 3, 0, 3, 1) + (-6) * mn(p, 0, 4, 2, 1, 0, 5, 1) + (18) * mn(p, 0, 3, 3, 1, 1, 4, 1) + (12) * mn(p, 0, 2, 4, 4, 0, 2, 1) + (-18) * mn(p, 0, 2, 4, 1, 2, 3, 1) + (-6) * mn(p, 0, 1, 5, 4, 1, 1, 1) + (6) * mn(p, 0, 1, 5, 1, 3, 2, 1));
    lemma_tm(p, 9, 0, 1, 1, 0, 0, 2, 0, -1, 3, 1, 0, 0, 0, 4, 0);
    assert(t9 * s0 == (-9) * mn(p, 3, 2, 1, 0, 0, 6, 0));
    lemma_tm(p, 9, 0, 1, 1, 0, 0, 2, 0, 2, 3, 0, 1, 0, 1, 3, 0);
    assert(t9 * s1 == (18) * mn(p, 3, 1, 2, 0, 1, 5, 0));
    lemma_tm(p, 9, 0, 1, 1, 0, 0, 2, 0, -3, 2, 0, 2, 1, 1, 2, 0);
    assert(t9 * s2 == (-27) * mn(p, 2, 1, 3, 1, 1, 4, 0));
    lemma_tm(p, 9, 0, 1, 1, 0, 0, 2, 0, 3, 1, 1, 2, 2, 0, 2, 0);
    assert(t9 * s3 == (27) * mn(p, 1, 2, 3, 2, 0, 4, 0));
    lemma_tm(p, 9, 0, 1, 1, 0, 0, 2, 0, 1, 0, 3, 1, 0, 0, 4, 0);
    assert(t9 * s4 == (9) * mn(p, 0, 4, 2, 0, 0, 6, 0));
    lemma_tm(p, 9, 0, 1, 1, 0, 0, 2, 0, -3, 0, 2, 2, 0, 1, 3, 0);
    assert(t9 * s5 == (-27) * mn(p, 0, 3, 3, 0, 1, 5, 0));
    lemma_tm(p, 9, 0, 1, 1, 0, 0, 2, 0, -2, 0, 1, 3, 3, 0, 1, 0);
    assert(t9 * s6 == (-18) * mn(p, 0, 2, 4, 3, 0, 3, 0));
    lemma_tm(p, 9, 0, 1, 1, 0, 0, 2, 0, 3, 0, 1, 3, 0, 2, 2, 0);
    assert(t9 * s7 == (27) * mn(p, 0, 2, 4, 0, 2, 4, 0));
    lemma_tm(p, 9, 0, 1, 1, 0, 0, 2, 0, 1, 0, 0, 4, 3, 1, 0, 0);
    assert(t9 * s8 == (9) * mn(p, 0, 1, 5, 3, 1, 2, 0));
    lemma_tm(p, 9, 0, 1, 1, 0, 0, 2, 0, -1, 0, 0, 4, 0, 3, 1, 0);
    assert(t9 * s9 == (-9) * mn(p, 0, 1, 5, 0, 3, 3, 0));
    assert(t9 * q == (-9) * mn(p, 3, 2, 1, 0, 0, 6, 0) + (18) * mn(p, 3, 1, 2, 0, 1, 5, 0) + (-27) * mn(p, 2, 1, 3, 1, 1, 4, 0) + (27) * mn(p, 1, 2, 3, 2, 0, 4, 0) + (9) * mn(p, 0, 4, 2, 0, 0, 6, 0) + (-27) * mn(p, 0, 3, 3, 0, 1, 5, 0) + (-18) * mn(p, 0, 2, 4, 3, 0, 3, 0) + (27) * mn(p, 0, 2, 4, 0, 2, 4, 0) + (9) * mn(p, 0, 1, 5, 3, 1, 2, 0) + (-9) * mn(p, 0, 1, 5, 0, 3, 3, 0));
    lemma_tm(p, -3, 0, 0, 2, 1, 1, 0, 1, -1, 3, 1, 0, 0, 0, 4, 0);
    assert(t10 * s0 == (3) * mn(p, 3, 1, 2, 1, 1, 4, 1));
    lemma_tm(p, -3, 0, 0, 2, 1, 1, 0, 1, 2, 3, 0, 1, 0, 1, 3, 0);
    assert(t10 * s1 == (-6) * mn(p, 3, 0, 3, 1, 2, 3, 1));
    lemma_tm(p, -3, 0, 0, 2, 1, 1, 0, 1, -3, 2, 0, 2, 1, 1, 2, 0);
    assert(t10 * s2 == (9) * mn(p, 2, 0, 4, 2, 2, 2, 1));
    lemma_tm(p, -3, 0, 0, 2, 1, 1, 0, 1, 3, 1, 1, 2, 2, 0, 2, 0);
    assert(t10 * s3 == (-9) * mn(p, 1, 1, 4, 3, 1, 2, 1));
    lemma_tm(p, -3, 0, 0, 2, 1, 1, 0, 1, 1, 0, 3, 1, 0, 0, 4, 0);
    assert(t10 * s4 == (-3) * mn(p, 0, 3, 3, 1, 1, 4, 1));
    lemma_tm(p, -3, 0, 0, 2, 1, 1, 0, 1, -3, 0, 2, 2, 0, 1, 3, 0);
    assert(t10 * s5 == (9) * mn(p, 0, 2, 4, 1, 2, 3, 1));
    lemma_tm(p, -3, 0, 0, 2, 1, 1, 0, 1, -2, 0, 1, 3, 3, 0, 1, 0);
    assert(t10 * s6 == (6) * mn(p, 0, 1, 5, 4, 1, 1, 1));
    lemma_tm(p, -3, 0, 0, 2, 1, 1, 0, 1, 3, 0, 1, 3, 0, 2, 2, 0);
    assert(t10 * s7 == (-9) * mn(p, 0, 1, 5, 1, 3, 2, 1));
    lemma_tm(p, -3, 0, 0, 2, 1, 1, 0, 1, 1, 0, 0, 4, 3, 1, 0, 0);
    assert(t10 * s8 == (-3) * mn(p, 0, 0, 6, 4, 2, 0, 1));
    lemma_tm(p, -3, 0, 0, 2, 1, 1, 0, 1, -1, 0, 0, 4, 0, 3, 1, 0);
    assert(t10 * s9 == (3) * mn(p, 0, 0, 6, 1, 4, 1, 1));
    assert(t10 * q == (3) * mn(p, 3, 1, 2, 1, 1, 4, 1) + (-6) * mn(p, 3, 0, 3, 1, 2, 3, 1) + (9) * mn(p, 2, 0, 4, 2, 2, 2, 1) + (-9) * mn(p, 1, 1, 4, 3, 1, 2, 1) + (-3) * mn(p, 0, 3, 3, 1, 1, 4, 1) + (9) * mn(p, 0, 2, 4, 1, 2, 3, 1) + (6) * mn(p, 0, 1, 5, 4, 1, 1, 1) + (-9) * mn(p, 0, 1, 5, 1, 3, 2, 1) + (-3) * mn(p, 0, 0, 6, 4, 2, 0, 1) + (3) * mn(p, 0, 0, 6, 1, 4, 1, 1));
    lemma_tm(p, 9, 0, 0, 2, 0, 1, 1, 0, -1, 3, 1, 0, 0, 0, 4, 0);
    assert(t11 * s0 == (-9) * mn(p, 3, 1, 2, 0, 1, 5, 0));
    lemma_tm(p, 9, 0, 0, 2, 0, 1, 1, 0, 2, 3, 0, 1, 0, 1, 3, 0);
    assert(t11 * s1 == (18) * mn(p, 3, 0, 3, 0, 2, 4, 0));
    lemma_tm(p, 9, 0, 0, 2, 0, 1, 1, 0, -3, 2, 0, 2, 1, 1, 2, 0);
    assert(t11 * s2 == (-27) * mn(p, 2, 0, 4, 1, 2, 3, 0));
    lemma_tm(p, 9, 0, 0, 2, 0, 1, 1, 0, 3, 1, 1, 2, 2, 0, 2, 0);
    assert(t11 * s3 == (27) * mn(p, 1, 1, 4, 2, 1, 3, 0));
    lemma_tm(p, 9, 0, 0, 2, 0, 1, 1, 0, 1, 0, 3, 1, 0, 0, 4, 0);
    assert(t11 * s4 == (9) * mn(p, 0, 3, 3, 0, 1, 5, 0));
    lemma_tm(p, 9, 0, 0, 2, 0, 1, 1, 0, -3, 0, 2, 2, 0, 1, 3, 0);
    assert(t11 * s5 == (-27) * mn(p, 0, 2, 4, 0, 2, 4, 0));
    lemma_tm(p, 9, 0, 0, 2, 0, 1, 1, 0, -2, 0, 1, 3, 3, 0, 1, 0);
    assert(t11 * s6 == (-18) * mn(p, 0, 1, 5, 3, 1, 2, 0));
    lemma_tm(p, 9, 0, 0, 2, 0, 1, 1, 0, 3, 0, 1, 3, 0, 2, 2, 0);
    assert(t11 * s7 == (27) * mn(p, 0, 1, 5, 0, 3, 3, 0));
    lemma_tm(p, 9, 0, 0, 2, 0, 1, 1, 0, 1, 0, 0, 4, 3, 1, 0, 0);
    assert(t11 * s8 == (9) * mn(p, 0, 0, 6, 3, 2, 1, 0));
    lemma_tm(p, 9, 0, 0, 2, 0, 1, 1, 0, -1, 0, 0, 4, 0, 3, 1, 0);
    assert(t11 * s9 == (-9) * mn(p, 0, 0, 6, 0, 4, 2, 0));
    assert(t11 * q == (-9) * mn(p, 3, 1, 2, 0, 1, 5, 0) + (18) * mn(p, 3, 0, 3, 0, 2, 4, 0) + (-27) * mn(p, 2, 0, 4, 1, 2, 3, 0) + (27) * mn(p, 1, 1, 4, 2, 1, 3, 0) + (9) * mn(p, 0, 3, 3, 0, 1, 5, 0) + (-27) * mn(p, 0, 2, 4, 0, 2, 4, 0) + (-18) * mn(p, 0, 1, 5, 3, 1, 2, 0) + (27) * mn(p, 0, 1, 5, 0, 3, 3, 0) + (9) * mn(p, 0, 0, 6, 3, 2, 1, 0) + (-9) * mn(p, 0, 0, 6, 0, 4, 2, 0));
    assert(pp11 * q == (-3) * mn(p, 5, 1, 0, 0, 1, 5, 0) + (6) * mn(p, 5, 0, 1, 0, 2, 4, 0) + (-6) * mn(p, 4, 2, 0, 1, 0, 5, 0) + (-1) * mn(p, 4, 2, 0, 0, 2, 4, 0) + (3) * mn(p, 4, 2, 0, 0, 0, 6, 1) + (6) * mn(p, 4, 1, 1, 1, 1, 4, 0) + (2) * mn(p, 4, 1, 1, 0, 3, 3, 0) + (3) * mn(p, 4, 0, 2, 1, 2, 3, 0) + (-12) * mn(p, 4, 0, 2, 0, 2, 4, 1) + (-1) * mn(p, 3, 3, 0, 1, 1, 4, 0) + (-3) * mn(p, 3, 2, 1, 2, 0, 4, 0) + (2) * mn(p, 3, 2, 1, 1, 2, 3, 0) + (6) * mn(p, 3, 2, 1, 1, 0, 5, 1) + (-9) * mn(p, 3, 2, 1, 0, 0, 6, 0) + (-3) * mn(p, 3, 1, 2, 2, 1, 3, 0) + (-3) * mn(p, 3, 1, 2, 1, 3, 2, 0) + (9) * mn(p, 3, 1, 2, 0, 1, 5, 0) + (-18) * mn(p, 3, 0, 3, 2, 2, 2, 0) + (12) * mn(p, 3, 0, 3, 1, 2, 3, 1) + (18) * mn(p, 3, 0, 3, 0, 2, 4, 0) + (3) * mn(p, 2, 3, 1, 0, 1, 5, 0) + (18) * mn(p, 2, 2, 2, 3, 0, 3, 0) + (-9) * mn(p, 2, 2, 2, 2, 0, 4, 1) + (-9) * mn(p, 2, 2, 2, 0, 2, 4, 0) + (3) * mn(p, 2, 1, 3, 3, 1, 2, 0) + (-27) * mn(p, 2, 1, 3, 1, 1, 4, 0) + (9) * mn(p, 2, 1, 3, 0, 3, 3, 0) + (3) * mn(p, 2, 0, 4, 3, 2, 1, 0) + (9) * mn(p, 2, 0, 4, 2, 2, 2, 1) + (-27) * mn(p, 2, 0, 4, 1, 2, 3, 0) + (-3) * mn(p, 2, 0, 4, 0, 4, 2, 0) + (6) * mn(p, 1, 4, 1, 1, 0, 5, 0) + (1) * mn(p, 1, 4, 1, 0, 2, 4, 0) + (-3) * mn(p, 1, 4, 1, 0, 0, 6, 1) + (3) * mn(p, 1, 3, 2, 3, 1, 2, 0) + (-12) * mn(p, 1, 3, 2, 1, 1, 4, 0) + (-3) * mn(p, 1, 3, 2, 0, 3, 3, 0) + (3) * mn(p, 1, 3, 2, 0, 1, 5, 1) + (-3) * mn(p, 1, 2, 3, 4, 0, 2, 0) + (-2) * mn(p, 1, 2, 3, 3, 2, 1, 0) + (-12) * mn(p, 1, 2, 3, 3, 0, 3, 1) + (27) * mn(p, 1, 2, 3, 2, 0, 4, 0) + (3) * mn(p, 1, 2, 3, 0, 4, 2, 0) + (9) * mn(p, 1, 2, 3, 0, 2, 4, 1) + (-6) * mn(p, 1, 1, 4, 4, 1, 1, 0) + (1) * mn(p, 1, 1, 4, 3, 3, 0, 0) + (27) * mn(p, 1, 1, 4, 2, 1, 3, 0) + (12) * mn(p, 1, 1, 4, 1, 3, 2, 0) + (-1) * mn(p, 1, 1, 4, 0, 5, 1, 0) + (-15) * mn(p, 1, 1, 4, 0, 3, 3, 1) + (6) * mn(p, 1, 0, 5, 4, 2, 0, 0) + (-6) * mn(p, 1, 0, 5, 3, 2, 1, 1) + (-6) * mn(p, 1, 0, 5, 1, 4, 1, 0) + (6) * mn(p, 1, 0, 5, 0, 4, 2, 1) + (1) * mn(p, 0, 5, 1, 1, 1, 4, 0) + (3) * mn(p, 0, 4, 2, 2, 0, 4, 0) + (-3) * mn(p, 0, 4, 2, 1, 2, 3, 0) + (-6) * mn(p, 0, 4, 2, 1, 0, 5, 1) + (9) * mn(p, 0, 4, 2, 0, 0, 6, 0) + (-2) * mn(p, 0, 3, 3, 4, 1, 1, 0) + (-9) * mn(p, 0, 3, 3, 2, 1, 3, 0) + (3) * mn(p, 0, 3, 3, 1, 3, 2, 0) + (15) * mn(p, 0, 3, 3, 1, 1, 4, 1) + (-18) * mn(p, 0, 3, 3, 0, 1, 5, 0) + (-6) * mn(p, 0, 2, 4, 5, 0, 1, 0) + (1) * mn(p, 0, 2, 4, 4, 2, 0, 0) + (12) * mn(p, 0, 2, 4, 4, 0, 2, 1) + (-18) * mn(p, 0, 2, 4, 3, 0, 3, 0) + (9) * mn(p, 0, 2, 4, 2, 2, 2, 0) + (-1) * mn(p, 0, 2, 4, 1, 4, 1, 0) + (-9) * mn(p, 0, 2, 4, 1, 2, 3, 1) + (3) * mn(p, 0, 1, 5, 5, 1, 0, 0) + (-9) * mn(p, 0, 1, 5, 3, 1, 2, 0) + (-3) * mn(p, 0, 1, 5, 2, 3, 1, 0) + (-3) * mn(p, 0, 1, 5, 1, 3, 2, 1) + (18) * mn(p, 0, 1, 5, 0, 3, 3, 0) + (-3) * mn(p, 0, 0, 6, 4, 2, 0, 1) + (9) * mn(p, 0, 0, 6, 3, 2, 1, 0) + (3) * mn(p, 0, 0, 6, 1, 4, 1, 1) + (-9) * mn(p, 0, 0, 6, 0, 4, 2, 0));
}

#[verifier::rlimit(100)]
proof fn am1_prod39(p: Pt)
    ensures
        ((1) * mn(p, 4, 0, 0, 0, 0, 4, 0) + (-2) * mn(p, 3, 0, 1, 1, 0, 3, 0) + (-1) * mn(p, 1, 2, 1, 0, 0, 4, 0) + (2) * mn(p, 1, 1, 2, 0, 1, 3, 0) + (2) * mn(p, 1, 0, 3, 3, 0, 1, 0) + (-1) * mn(p, 1, 0, 3, 0, 2, 2, 0) + (1) * mn(p, 0, 2, 2, 1, 0, 3, 0) + (-2) * mn(p, 0, 1, 3, 1, 1, 2, 0) + (-1) * mn(p, 0, 0, 4, 4, 0, 0, 0) + (1) * mn(p, 0, 0, 4, 1, 2, 1, 0)) * ((-9) * mn(p, 2, 0, 0, 2, 0, 0, 0) + (9) * mn(p, 2, 0, 0, 1, 0, 1, 1) + (-9) * mn(p, 2, 0, 0, 0, 0, 2, 0) + (9) * mn(p, 1, 0, 1, 2, 0, 0, 1) + (-36) * mn(p, 1, 0, 1, 1, 0, 1, 0) + (9) * mn(p, 1, 0, 1, 0, 0, 2, 1) + (1) * mn(p, 0, 2, 0, 0, 2, 0, 0) + (-9) * mn(p, 0, 0, 2, 2, 0, 0, 0) + (9) * mn(p, 0, 0, 2, 1, 0, 1, 1) + (-9) * mn(p, 0, 0, 2, 0, 0, 2, 2) + (27) * mn(p, 0, 0, 2, 0, 0, 2, 0)) == (-9) * mn(p, 6, 0, 0, 2, 0, 4, 0) + (9) * mn(p, 6, 0, 0, 1, 0, 5, 1) + (-9) * mn(p, 6, 0, 0, 0, 0, 6, 0) + (18) * mn(p, 5, 0, 1, 3, 0, 3, 0) + (-9) * mn(p, 5, 0, 1, 2, 0, 4, 1) + (-18) * mn(p, 5, 0, 1, 1, 0, 5, 0) + (9) * mn(p, 5, 0, 1, 0, 0, 6, 1) + (1) * mn(p, 4, 2, 0, 0, 2, 4, 0) + (-18) * mn(p, 4, 0, 2, 3, 0, 3, 1) + (63) * mn(p, 4, 0, 2, 2, 0, 4, 0) + (-9) * mn(p, 4, 0, 2, 1, 0, 5, 1) + (-9) * mn(p, 4, 0, 2, 0, 0, 6, 2) + (27) * mn(p, 4, 0, 2, 0, 0, 6, 0) + (9) * mn(p, 3, 2, 1, 2, 0, 4, 0) + (-2) * mn(p, 3, 2, 1, 1, 2, 3, 0) + (-9) * mn(p, 3, 2, 1, 1, 0, 5, 1) + (9) * mn(p, 3, 2, 1, 0, 0, 6, 0) + (-18) * mn(p, 3, 1, 2, 2, 1, 3, 0) + (18) * mn(p, 3, 1, 2, 1, 1, 4, 1) + (-18) * mn(p, 3, 1, 2, 0, 1, 5, 0) + (-18) * mn(p, 3, 0, 3, 5, 0, 1, 0) + (18) * mn(p, 3, 0, 3, 4, 0, 2, 1) + (9) * mn(p, 3, 0, 3, 2, 2, 2, 0) + (-18) * mn(p, 3, 0, 3, 2, 0, 4, 1) + (-9) * mn(p, 3, 0, 3, 1, 2, 3, 1) + (18) * mn(p, 3, 0, 3, 1, 0, 5, 2) + (-54) * mn(p, 3, 0, 3, 1, 0, 5, 0) + (9) * mn(p, 3, 0, 3, 0, 2, 4, 0) + (-9) * mn(p, 2, 2, 2, 3, 0, 3, 0) + (27) * mn(p, 2, 2, 2, 1, 0, 5, 0) + (-9) * mn(p, 2, 2, 2, 0, 0, 6, 1) + (18) * mn(p, 2, 1, 3, 3, 1, 2, 0) + (-54) * mn(p, 2, 1, 3, 1, 1, 4, 0) + (18) * mn(p, 2, 1, 3, 0, 1, 5, 1) + (9) * mn(p, 2, 0, 4, 6, 0, 0, 0) + (9) * mn(p, 2, 0, 4, 5, 0, 1, 1) + (-63) * mn(p, 2, 0, 4, 4, 0, 2, 0) + (-9) * mn(p, 2, 0, 4, 3, 2, 1, 0) + (18) * mn(p, 2, 0, 4, 3, 0, 3, 1) + (27) * mn(p, 2, 0, 4, 1, 2, 3, 0) + (-9) * mn(p, 2, 0, 4, 0, 2, 4, 1) + (-1) * mn(p, 1, 4, 1, 0, 2, 4, 0) + (2) * mn(p, 1, 3, 2, 0, 3, 3, 0) + (2) * mn(p, 1, 2, 3, 3, 2, 1, 0) + (9) * mn(p, 1, 2, 3, 3, 0, 3, 1) + (-27) * mn(p, 1, 2, 3, 2, 0, 4, 0) + (-1) * mn(p, 1, 2, 3, 0, 4, 2, 0) + (9) * mn(p, 1, 2, 3, 0, 0, 6, 2) + (-27) * mn(p, 1, 2, 3, 0, 0, 6, 0) + (-18) * mn(p, 1, 1, 4, 3, 1, 2, 1) + (54) * mn(p, 1, 1, 4, 2, 1, 3, 0) + (-18) * mn(p, 1, 1, 4, 0, 1, 5, 2) + (54) * mn(p, 1, 1, 4, 0, 1, 5, 0) + (-9) * mn(p, 1, 0, 5, 6, 0, 0, 1) + (18) * mn(p, 1, 0, 5, 5, 0, 1, 0) + (9) * mn(p, 1, 0, 5, 4, 0, 2, 1) + (9) * mn(p, 1, 0, 5, 3, 2, 1, 1) + (-18) * mn(p, 1, 0, 5, 3, 0, 3, 2) + (54) * mn(p, 1, 0, 5, 3, 0, 3, 0) + (-27) * mn(p, 1, 0, 5, 2, 2, 2, 0) + (9) * mn(p, 1, 0, 5, 0, 2, 4, 2) + (-27) * mn(p, 1, 0, 5, 0, 2, 4, 0) + (1) * mn(p, 0, 4, 2, 1, 2, 3, 0) + (-2) * mn(p, 0, 3, 3, 1, 3, 2, 0) + (-1) * mn(p, 0, 2, 4, 4, 2, 0, 0) + (-9) * mn(p, 0, 2, 4, 3, 0, 3, 0) + (9) * mn(p, 0, 2, 4, 2, 0, 4, 1) + (1) * mn(p, 0, 2, 4, 1, 4, 1, 0) + (-9) * mn(p, 0, 2, 4, 1, 0, 5, 2) + (27) * mn(p, 0, 2, 4, 1, 0, 5, 0) + (18) * mn(p, 0, 1, 5, 3, 1, 2, 0) + (-18) * mn(p, 0, 1, 5, 2, 1, 3, 1) + (18) * mn(p, 0, 1, 5, 1, 1, 4, 2) + (-54) * mn(p, 0, 1, 5, 1, 1, 4, 0) + (9) * mn(p, 0, 0, 6, 6, 0, 0, 0) + (-9) * mn(p, 0, 0, 6, 5, 0, 1, 1) + (9) * mn(p, 0, 0, 6, 4, 0, 2, 2) + (-27) * mn(p, 0, 0, 6, 4, 0, 2, 0) + (-9) * mn(p, 0, 0, 6, 3, 2, 1, 0) + (9) * mn(p, 0, 0, 6, 2, 2, 2, 1) + (-9) * mn(p, 0, 0, 6, 1, 2, 3, 2) + (27) * mn(p, 0, 0, 6, 1, 2, 3, 0),
{
    let t0 = (1) * mn(p, 4, 0, 0, 0, 0, 4, 0);
    let t1 = (-2) * mn(p, 3, 0, 1, 1, 0, 3, 0);
    let t2 = (-1) * mn(p, 1, 2, 1, 0, 0, 4, 0);
    let t3 = (2) * mn(p, 1, 1, 2, 0, 1, 3, 0);
    let t4 = (2) * mn(p, 1, 0, 3, 3, 0, 1, 0);
    let t5 = (-1) * mn(p, 1, 0, 3, 0, 2, 2, 0);
    let t6 = (1) * mn(p, 0, 2, 2, 1, 0, 3, 0);
    let t7 = (-2) * mn(p, 0, 1, 3, 1, 1, 2, 0);
    let t8 = (-1) * mn(p, 0, 0, 4, 4, 0, 0, 0);
    let t9 = (1) * mn(p, 0, 0, 4, 1, 2, 1, 0);
    let s0 = (-9) * mn(p, 2, 0, 0, 2, 0, 0, 0);
    let s1 = (9) * mn(p, 2, 0, 0, 1, 0, 1, 1);
    let s2 = (-9) * mn(p, 2, 0, 0, 0, 0, 2, 0);
    let s3 = (9) * mn(p, 1, 0, 1, 2, 0, 0, 1);
    let s4 = (-36) * mn(p, 1, 0, 1, 1, 0, 1, 0);
    let s5 = (9) * mn(p, 1, 0, 1, 0, 0, 2, 1);
    let s6 = (1) * mn(p, 0, 2, 0, 0, 2, 0, 0);
    let s7 = (-9) * mn(p, 0, 0, 2, 2, 0, 0, 0);
    let s8 = (9) * mn(p, 0, 0, 2, 1, 0, 1, 1);
    let s9 = (-9) * mn(p, 0, 0, 2, 0, 0, 2, 2);
    let s10 = (27) * mn(p, 0, 0, 2, 0, 0, 2, 0);
    let pp0 = t0;
    let pp1 = pp0 + t1;
    let pp2 = pp1 + t2;
    let pp3 = pp2 + t3;
    let pp4 = pp3 + t4;
    let pp5 = pp4 + t5;
    let pp6 = pp5 + t6;
    let pp7 = pp6 + t7;
    let pp8 = pp7 + t8;
    let pp9 = pp8 + t9;
    let qq0 = s0;
    let qq1 = qq0 + s1;
    let qq2 = qq1 + s2;
    let qq3 = qq2 + s3;
    let qq4 = qq3 + s4;
    let qq5 = qq4 + s5;
    let qq6 = qq5 + s6;
    let qq7 = qq6 + s7;
    let qq8 = qq7 + s8;
    let qq9 = qq8 + s9;
    let qq10 = qq9 + s10;
    let q = qq10;
    lemma_mul_is_distributive_add_other_way(q, pp0, t1);
    lemma_mul_is_distributive_add_other_way(q, pp1, t2);
    lemma_mul_is_distributive_add_other_way(q, pp2, t3);
    lemma_mul_is_distributive_add_other_way(q, pp3, t4);
    lemma_mul_is_distributive_add_other_way(q, pp4, t5);
    lemma_mul_is_distributive_add_other_way(q, pp5, t6);
    lemma_mul_is_distributive_add_other_way(q, pp6, t7);
    lemma_mul_is_distributive_add_other_way(q, pp7, t8);
    lemma_mul_is_distributive_add_other_way(q, pp8, t9);
    lemma_mul_is_distributive_add(t0, qq0, s1);
    lemma_mul_is_distributive_add(t0, qq1, s2);
    lemma_mul_is_distributive_add(t0, qq2, s3);
    lemma_mul_is_distributive_add(t0, qq3, s4);
    lemma_mul_is_distributive_add(t0, qq4, s5);
    lemma_mul_is_distributive_add(t0, qq5, s6);
    lemma_mul_is_distributive_add(t0, qq6, s7);
    lemma_mul_is_distributive_add(t0, qq7, s8);
    lemma_mul_is_distributive_add(t0, qq8, s9);
    lemma_mul_is_distributive_add(t0, qq9, s10);
    lemma_mul_is_distributive_add(t1, qq0, s1);
    lemma_mul_is_distributive_add(t1, qq1, s2);
    lemma_mul_is_distributive_add(t1, qq2, s3);
    lemma_mul_is_distributive_add(t1, qq3, s4);
    lemma_mul_is_distributive_add(t1, qq4, s5);
    lemma_mul_is_distributive_add(t1, qq5, s6);
    lemma_mul_is_distributive_add(t1, qq6, s7);
    lemma_mul_is_distributive_add(t1, qq7, s8);
    lemma_mul_is_distributive_add(t1, qq8, s9);
    lemma_mul_is_distributive_add(t1, qq9, s10);
    lemma_mul_is_distributive_add(t2, qq0, s1);
    lemma_mul_is_distributive_add(t2, qq1, s2);
    lemma_mul_is_distributive_add(t2, qq2, s3);
    lemma_mul_is_distributive_add(t2, qq3, s4);
    lemma_mul_is_distributive_add(t2, qq4, s5);
    lemma_mul_is_distributive_add(t2, qq5, s6);
    lemma_mul_is_distributive_add(t2, qq6, s7);
    lemma_mul_is_distributive_add(t2, qq7, s8);
    lemma_mul_is_distributive_add(t2, qq8, s9);
    lemma_mul_is_distributive_add(t2, qq9, s10);
    lemma_mul_is_distributive_add(t3, qq0, s1);
    lemma_mul_is_distributive_add(t3, qq1, s2);
    lemma_mul_is_distributive_add(t3, qq2, s3);
    lemma_mul_is_distributive_add(t3, qq3, s4);
    lemma_mul_is_distributive_add(t3, qq4, s5);
    lemma_mul_is_distributive_add(t3, qq5, s6);
    lemma_mul_is_distributive_add(t3, qq6, s7);
    lemma_mul_is_distributive_add(t3, qq7, s8);
    lemma_mul_is_distributive_add(t3, qq8, s9);
    lemma_mul_is_distributive_add(t3, qq9, s10);
    lemma_mul_is_distributive_add(t4, qq0, s1);
    lemma_mul_is_distributive_add(t4, qq1, s2);
    lemma_mul_is_distributive_add(t4, qq2, s3);
    lemma_mul_is_distributive_add(t4, qq3, s4);
    lemma_mul_is_distributive_add(t4, qq4, s5);
    lemma_mul_is_distributive_add(t4, qq5, s6);
    lemma_mul_is_distributive_add(t4, qq6, s7);
    lemma_mul_is_distributive_add(t4, qq7, s8);
    lemma_mul_is_distributive_add(t4, qq8, s9);
    lemma_mul_is_distributive_add(t4, qq9, s10);
    lemma_mul_is_distributive_add(t5, qq0, s1);
    lemma_mul_is_distributive_add(t5, qq1, s2);
    lemma_mul_is_distributive_add(t5, qq2, s3);
    lemma_mul_is_distributive_add(t5, qq3, s4);
    lemma_mul_is_distributive_add(t5, qq4, s5);
    lemma_mul_is_distributive_add(t5, qq5, s6);
    lemma_mul_is_distributive_add(t5, qq6, s7);
    lemma_mul_is_distributive_add(t5, qq7, s8);
    lemma_mul_is_distributive_add(t5, qq8, s9);
    lemma_mul_is_distributive_add(t5, qq9, s10);
    lemma_mul_is_distributive_add(t6, qq0, s1);
    lemma_mul_is_distributive_add(t6, qq1, s2);
    lemma_mul_is_distributive_add(t6, qq2, s3);
    lemma_mul_is_distributive_add(t6, qq3, s4);
    lemma_mul_is_distributive_add(t6, qq4, s5);
    lemma_mul_is_distributive_add(t6, qq5, s6);
    lemma_mul_is_distributive_add(t6, qq6, s7);
    lemma_mul_is_distributive_add(t6, qq7, s8);
    lemma_mul_is_distributive_add(t6, qq8, s9);
    lemma_mul_is_distributive_add(t6, qq9, s10);
    lemma_mul_is_distributive_add(t7, qq0, s1);
    lemma_mul_is_distributive_add(t7, qq1, s2);
    lemma_mul_is_distributive_add(t7, qq2, s3);
    lemma_mul_is_distributive_add(t7, qq3, s4);
    lemma_mul_is_distributive_add(t7, qq4, s5);
    lemma_mul_is_distributive_add(t7, qq5, s6);
    lemma_mul_is_distributive_add(t7, qq6, s7);
    lemma_mul_is_distributive_add(t7, qq7, s8);
    lemma_mul_is_distributive_add(t7, qq8, s9);
    lemma_mul_is_distributive_add(t7, qq9, s10);
    lemma_mul_is_distributive_add(t8, qq0, s1);
    lemma_mul_is_distributive_add(t8, qq1, s2);
    lemma_mul_is_distributive_add(t8, qq2, s3);
    lemma_mul_is_distributive_add(t8, qq3, s4);
    lemma_mul_is_distributive_add(t8, qq4, s5);
    lemma_mul_is_distributive_add(t8, qq5, s6);
    lemma_mul_is_distributive_add(t8, qq6, s7);
    lemma_mul_is_distributive_add(t8, qq7, s8);
    lemma_mul_is_distributive_add(t8, qq8, s9);
    lemma_mul_is_distributive_add(t8, qq9, s10);
    lemma_mul_is_distributive_add(t9, qq0, s1);
    lemma_mul_is_distributive_add(t9, qq1, s2);
    lemma_mul_is_distributive_add(t9, qq2, s3);
    lemma_mul_is_distributive_add(t9, qq3, s4);
    lemma_mul_is_distributive_add(t9, qq4, s5);
    lemma_mul_is_distributive_add(t9, qq5, s6);
    lemma_mul_is_distributive_add(t9, qq6, s7);
    lemma_mul_is_distributive_add(t9, qq7, s8);
    lemma_mul_is_distributive_add(t9, qq8, s9);
    lemma_mul_is_distributive_add(t9, qq9, s10);
    lemma_tm(p, 1, 4, 0, 0, 0, 0, 4, 0, -9, 2, 0, 0, 2, 0, 0, 0);
    assert(t0 * s0 == (-9) * mn(p, 6, 0, 0, 2, 0, 4, 0));
    lemma_tm(p, 1, 4, 0, 0, 0, 0, 4, 0, 9, 2, 0, 0, 1, 0, 1, 1);
    assert(t0 * s1 == (9) * mn(p, 6, 0, 0, 1, 0, 5, 1));
    lemma_tm(p, 1, 4, 0, 0, 0, 0, 4, 0, -9, 2, 0, 0, 0, 0, 2, 0);
    assert(t0 * s2 == (-9) * mn(p, 6, 0, 0, 0, 0, 6, 0));
    lemma_tm(p, 1, 4, 0, 0, 0, 0, 4, 0, 9, 1, 0, 1, 2, 0, 0, 1);
    assert(t0 * s3 == (9) * mn(p, 5, 0, 1, 2, 0, 4, 1));
    lemma_tm(p, 1, 4, 0, 0, 0, 0, 4, 0, -36, 1, 0, 1, 1, 0, 1, 0);
    assert(t0 * s4 == (-36) * mn(p, 5, 0, 1, 1, 0, 5, 0));
    lemma_tm(p, 1, 4, 0, 0, 0, 0, 4, 0, 9, 1, 0, 1, 0, 0, 2, 1);
    assert(t0 * s5 == (9) * mn(p, 5, 0, 1, 0, 0, 6, 1));
    lemma_tm(p, 1, 4, 0, 0, 0, 0, 4, 0, 1, 0, 2, 0, 0, 2, 0, 0);
    assert(t0 * s6 == (1) * mn(p, 4, 2, 0, 0, 2, 4, 0));
    lemma_tm(p, 1, 4, 0, 0, 0, 0, 4, 0, -9, 0, 0, 2, 2, 0, 0, 0);
    assert(t0 * s7 == (-9) * mn(p, 4, 0, 2, 2, 0, 4, 0));
    lemma_tm(p, 1, 4, 0, 0, 0, 0, 4, 0, 9, 0, 0, 2, 1, 0, 1, 1);
    assert(t0 * s8 == (9) * mn(p, 4, 0, 2, 1, 0, 5, 1));
    lemma_tm(p, 1, 4, 0, 0, 0, 0, 4, 0, -9, 0, 0, 2, 0, 0, 2, 2);
    assert(t0 * s9 == (-9) * mn(p, 4, 0, 2, 0, 0, 6, 2));
    lemma_tm(p, 1, 4, 0, 0, 0, 0, 4, 0, 27, 0, 0, 2, 0, 0, 2, 0);
    assert(t0 * s10 == (27) * mn(p, 4, 0, 2, 0, 0, 6, 0));
    assert(t0 * q == (-9) * mn(p, 6, 0, 0, 2, 0, 4, 0) + (9) * mn(p, 6, 0, 0, 1, 0, 5, 1) + (-9) * mn(p, 6, 0, 0, 0, 0, 6, 0) + (9) * mn(p, 5, 0, 1, 2, 0, 4, 1) + (-36) * mn(p, 5, 0, 1, 1, 0, 5, 0) + (9) * mn(p, 5, 0, 1, 0, 0, 6, 1) + (1) * mn(p, 4, 2, 0, 0, 2, 4, 0) + (-9) * mn(p, 4, 0, 2, 2, 0, 4, 0) + (9) * mn(p, 4, 0, 2, 1, 0, 5, 1) + (-9) * mn(p, 4, 0, 2, 0, 0, 6, 2) + (27) * mn(p, 4, 0, 2, 0, 0, 6, 0));
    lemma_tm(p, -2, 3, 0, 1, 1, 0, 3, 0, -9, 2, 0, 0, 2, 0, 0, 0);
    assert(t1 * s0 == (18) * mn(p, 5, 0, 1, 3, 0, 3, 0));
    lemma_tm(p, -2, 3, 0, 1, 1, 0, 3, 0, 9, 2, 0, 0, 1, 0, 1, 1);
    assert(t1 * s1 == (-18) * mn(p, 5, 0, 1, 2, 0, 4, 1));
    lemma_tm(p, -2, 3, 0, 1, 1, 0, 3, 0, -9, 2, 0, 0, 0, 0, 2, 0);
    assert(t1 * s2 == (18) * mn(p, 5, 0, 1, 1, 0, 5, 0));
    lemma_tm(p, -2, 3, 0, 1, 1, 0, 3, 0, 9, 1, 0, 1, 2, 0, 0, 1);
    assert(t1 * s3 == (-18) * mn(p, 4, 0, 2, 3, 0, 3, 1));
    lemma_tm(p, -2, 3, 0, 1, 1, 0, 3, 0, -36, 1, 0, 1, 1, 0, 1, 0);
    assert(t1 * s4 == (72) * mn(p, 4, 0, 2, 2, 0, 4, 0));
    lemma_tm(p, -2, 3, 0, 1, 1, 0, 3, 0, 9, 1, 0, 1, 0, 0, 2, 1);
    assert(t1 * s5 == (-18) * mn(p, 4, 0, 2, 1, 0, 5, 1));
    lemma_tm(p, -2, 3, 0, 1, 1, 0, 3, 0, 1, 0, 2, 0, 0, 2, 0, 0);
    assert(t1 * s6 == (-2) * mn(p, 3, 2, 1, 1, 2, 3, 0));
    lemma_tm(p, -2, 3, 0, 1, 1, 0, 3, 0, -9, 0, 0, 2, 2, 0, 0, 0);
    assert(t1 * s7 == (18) * mn(p, 3, 0, 3, 3, 0, 3, 0));
    lemma_tm(p, -2, 3, 0, 1, 1, 0, 3, 0, 9, 0, 0, 2, 1, 0, 1, 1);
    assert(t1 * s8 == (-18) * mn(p, 3, 0, 3, 2, 0, 4, 1));
    lemma_tm(p, -2, 3, 0, 1, 1, 0, 3, 0, -9, 0, 0, 2, 0, 0, 2, 2);
    assert(t1 * s9 == (18) * mn(p, 3, 0, 3, 1, 0, 5, 2));
    lemma_tm(p, -2, 3, 0, 1, 1, 0, 3, 0, 27, 0, 0, 2, 0, 0, 2, 0);
    assert(t1 * s10 == (-54) * mn(p, 3, 0, 3, 1, 0, 5, 0));
    assert(t1 * q == (18) * mn(p, 5, 0, 1, 3, 0, 3, 0) + (-18) * mn(p, 5, 0, 1, 2, 0, 4, 1) + (18) * mn(p, 5, 0, 1, 1, 0, 5, 0) + (-18) * mn(p, 4, 0, 2, 3, 0, 3, 1) + (72) * mn(p, 4, 0, 2, 2, 0, 4, 0) + (-18) * mn(p, 4, 0, 2, 1, 0, 5, 1) + (-2) * mn(p, 3, 2, 1, 1, 2, 3, 0) + (18) * mn(p, 3, 0, 3, 3, 0, 3, 0) + (-18) * mn(p, 3, 0, 3, 2, 0, 4, 1) + (18) * mn(p, 3, 0, 3, 1, 0, 5, 2) + (-54) * mn(p, 3, 0, 3, 1, 0, 5, 0));
    lemma_tm(p, -1, 1, 2, 1, 0, 0, 4, 0, -9, 2, 0, 0, 2, 0, 0, 0);
    assert(t2 * s0 == (9) * mn(p, 3, 2, 1, 2, 0, 4, 0));
    lemma_tm(p, -1, 1, 2, 1, 0, 0, 4, 0, 9, 2, 0, 0, 1, 0, 1, 1);
    assert(t2 * s1 == (-9) * mn(p, 3, 2, 1, 1, 0, 5, 1));
    lemma_tm(p, -1, 1, 2, 1, 0, 0, 4, 0, -9, 2, 0, 0, 0, 0, 2, 0);
    assert(t2 * s2 == (9) * mn(p, 3, 2, 1, 0, 0, 6, 0));
    lemma_tm(p, -1, 1, 2, 1, 0, 0, 4, 0, 9, 1, 0, 1, 2, 0, 0, 1);
    assert(t2 * s3 == (-9) * mn(p, 2, 2, 2, 2, 0, 4, 1));
    lemma_tm(p, -1, 1, 2, 1, 0, 0, 4, 0, -36, 1, 0, 1, 1, 0, 1, 0);
    assert(t2 * s4 == (36) * mn(p, 2, 2, 2, 1, 0, 5, 0));
    lemma_tm(p, -1, 1, 2, 1, 0, 0, 4, 0, 9, 1, 0, 1, 0, 0, 2, 1);
    assert(t2 * s5 == (-9) * mn(p, 2, 2, 2, 0, 0, 6, 1));
    lemma_tm(p, -1, 1, 2, 1, 0, 0, 4, 0, 1, 0, 2, 0, 0, 2, 0, 0);
    assert(t2 * s6 == (-1) * mn(p, 1, 4, 1, 0, 2, 4, 0));
    lemma_tm(p, -1, 1, 2, 1, 0, 0, 4, 0, -9, 0, 0, 2, 2, 0, 0, 0);
    assert(t2 * s7 == (9) * mn(p, 1, 2, 3, 2, 0, 4, 0));
    lemma_tm(p, -1, 1, 2, 1, 0, 0, 4, 0, 9, 0, 0, 2, 1, 0, 1, 1);
    assert(t2 * s8 == (-9) * mn(p, 1, 2, 3, 1, 0, 5, 1));
    lemma_tm(p, -1, 1, 2, 1, 0, 0, 4, 0, -9, 0, 0, 2, 0, 0, 2, 2);
    assert(t2 * s9 == (9) * mn(p, 1, 2, 3, 0, 0, 6, 2));
    lemma_tm(p, -1, 1, 2, 1, 0, 0, 4, 0, 27, 0, 0, 2, 0, 0, 2, 0);
    assert(t2 * s10 == (-27) * mn(p, 1, 2, 3, 0, 0, 6, 0));
    assert(t2 * q == (9) * mn(p, 3, 2, 1, 2, 0, 4, 0) + (-9) * mn(p, 3, 2, 1, 1, 0, 5, 1) + (9) * mn(p, 3, 2, 1, 0, 0, 6, 0) + (-9) * mn(p, 2, 2, 2, 2, 0, 4, 1) + (36) * mn(p, 2, 2, 2, 1, 0, 5, 0) + (-9) * mn(p, 2, 2, 2, 0, 0, 6, 1) + (-1) * mn(p, 1, 4, 1, 0, 2, 4, 0) + (9) * mn(p, 1, 2, 3, 2, 0, 4, 0) + (-9) * mn(p, 1, 2, 3, 1, 0, 5, 1) + (9) * mn(p, 1, 2, 3, 0, 0, 6, 2) + (-27) * mn(p, 1, 2, 3, 0, 0, 6, 0));
    lemma_tm(p, 2, 1, 1, 2, 0, 1, 3, 0, -9, 2, 0, 0, 2, 0, 0, 0);
    assert(t3 * s0 == (-18) * mn(p, 3, 1, 2, 2, 1, 3, 0));
    lemma_tm(p, 2, 1, 1, 2, 0, 1, 3, 0, 9, 2, 0, 0, 1, 0, 1, 1);
    assert(t3 * s1 == (18) * mn(p, 3, 1, 2, 1, 1, 4, 1));
    lemma_tm(p, 2, 1, 1, 2, 0, 1, 3, 0, -9, 2, 0, 0, 0, 0, 2, 0);
    assert(t3 * s2 == (-18) * mn(p, 3, 1, 2, 0, 1, 5, 0));
    lemma_tm(p, 2, 1, 1, 2, 0, 1, 3, 0, 9, 1, 0, 1, 2, 0, 0, 1);
    assert(t3 * s3 == (18) * mn(p, 2, 1, 3, 2, 1, 3, 1));
    lemma_tm(p, 2, 1, 1, 2, 0, 1, 3, 0, -36, 1, 0, 1, 1, 0, 1, 0);
    assert(t3 * s4 == (-72) * mn(p, 2, 1, 3, 1, 1, 4, 0));
    lemma_tm(p, 2, 1, 1, 2, 0, 1, 3, 0, 9, 1, 0, 1, 0, 0, 2, 1);
    assert(t3 * s5 == (18) * mn(p, 2, 1, 3, 0, 1, 5, 1));
    lemma_tm(p, 2, 1, 1, 2, 0, 1, 3, 0, 1, 0, 2, 0, 0, 2, 0, 0);
    assert(t3 * s6 == (2) * mn(p, 1, 3, 2, 0, 3, 3, 0));
    lemma_tm(p, 2, 1, 1, 2, 0, 1, 3, 0, -9, 0, 0, 2, 2, 0, 0, 0);
    assert(t3 * s7 == (-18) * mn(p, 1, 1, 4, 2, 1, 3, 0));
    lemma_tm(p, 2, 1, 1, 2, 0, 1, 3, 0, 9, 0, 0, 2, 1, 0, 1, 1);
    assert(t3 * s8 == (18) * mn(p, 1, 1, 4, 1, 1, 4, 1));
    lemma_tm(p, 2, 1, 1, 2, 0, 1, 3, 0, -9, 0, 0, 2, 0, 0, 2, 2);
    assert(t3 * s9 == (-18) * mn(p, 1, 1, 4, 0, 1, 5, 2));
    lemma_tm(p, 2, 1, 1, 2, 0, 1, 3, 0, 27, 0, 0, 2, 0, 0, 2, 0);
    assert(t3 * s10 == (54) * mn(p, 1, 1, 4, 0, 1, 5, 0));
    assert(t3 * q == (-18) * mn(p, 3, 1, 2, 2, 1, 3, 0) + (18) * mn(p, 3, 1, 2, 1, 1, 4, 1) + (-18) * mn(p, 3, 1, 2, 0, 1, 5, 0) + (18) * mn(p, 2, 1, 3, 2, 1, 3, 1) + (-72) * mn(p, 2, 1, 3, 1, 1, 4, 0) + (18) * mn(p, 2, 1, 3, 0, 1, 5, 1) + (2) * mn(p, 1, 3, 2, 0, 3, 3, 0) + (-18) * mn(p, 1, 1, 4, 2, 1, 3, 0) + (18) * mn(p, 1, 1, 4, 1, 1, 4, 1) + (-18) * mn(p, 1, 1, 4, 0, 1, 5, 2) + (54) * mn(p, 1, 1, 4, 0, 1, 5, 0));
    lemma_tm(p, 2, 1, 0, 3, 3, 0, 1, 0, -9, 2, 0, 0, 2, 0, 0, 0);
    assert(t4 * s0 == (-18) * mn(p, 3, 0, 3, 5, 0, 1, 0));
    lemma_tm(p, 2, 1, 0, 3, 3, 0, 1, 0, 9, 2, 0, 0, 1, 0, 1, 1);
    assert(t4 * s1 == (18) * mn(p, 3, 0, 3, 4, 0, 2, 1));
    lemma_tm(p, 2, 1, 0, 3, 3, 0, 1, 0, -9, 2, 0, 0, 0, 0, 2, 0);
    assert(t4 * s2 == (-18) * mn(p, 3, 0, 3, 3, 0, 3, 0));
    lemma_tm(p, 2, 1, 0, 3, 3, 0, 1, 0, 9, 1, 0, 1, 2, 0, 0, 1);
    assert(t4 * s3 == (18) * mn(p, 2, 0, 4, 5, 0, 1, 1));
    lemma_tm(p, 2, 1, 0, 3, 3, 0, 1, 0, -36, 1, 0, 1, 1, 0, 1, 0);
    assert(t4 * s4 == (-72) * mn(p, 2, 0, 4, 4, 0, 2, 0));
    lemma_tm(p, 2, 1, 0, 3, 3, 0, 1, 0, 9, 1, 0, 1, 0, 0, 2, 1);
    assert(t4 * s5 == (18) * mn(p, 2, 0, 4, 3, 0, 3, 1));
    lemma_tm(p, 2, 1, 0, 3, 3, 0, 1, 0, 1, 0, 2, 0, 0, 2, 0, 0);
    assert(t4 * s6 == (2) * mn(p, 1, 2, 3, 3, 2, 1, 0));
    lemma_tm(p, 2, 1, 0, 3, 3, 0, 1, 0, -9, 0, 0, 2, 2, 0, 0, 0);
    assert(t4 * s7 == (-18) * mn(p, 1, 0, 5, 5, 0, 1, 0));
    lemma_tm(p, 2, 1, 0, 3, 3, 0, 1, 0, 9, 0, 0, 2, 1, 0, 1, 1);
    assert(t4 * s8 == (18) * mn(p, 1, 0, 5, 4, 0, 2, 1));
    lemma_tm(p, 2, 1, 0, 3, 3, 0, 1, 0, -9, 0, 0, 2, 0, 0, 2, 2);
    assert(t4 * s9 == (-18) * mn(p, 1, 0, 5, 3, 0, 3, 2));
    lemma_tm(p, 2, 1, 0, 3, 3, 0, 1, 0, 27, 0, 0, 2, 0, 0, 2, 0);
    assert(t4 * s10 == (54) * mn(p, 1, 0, 5, 3, 0, 3, 0));
    assert(t4 * q == (-18) * mn(p, 3, 0, 3, 5, 0, 1, 0) + (18) * mn(p, 3, 0, 3, 4, 0, 2, 1) + (-18) * mn(p, 3, 0, 3, 3, 0, 3, 0) + (18) * mn(p, 2, 0, 4, 5, 0, 1, 1) + (-72) * mn(p, 2, 0, 4, 4, 0, 2, 0) + (18) * mn(p, 2, 0, 4, 3, 0, 3, 1) + (2) * mn(p, 1, 2, 3, 3, 2, 1, 0) + (-18) * mn(p, 1, 0, 5, 5, 0, 1, 0) + (18) * mn(p, 1, 0, 5, 4, 0, 2, 1) + (-18) * mn(p, 1, 0, 5, 3, 0, 3, 2) + (54) * mn(p, 1, 0, 5, 3, 0, 3, 0));
    lemma_tm(p, -1, 1, 0, 3, 0, 2, 2, 0, -9, 2, 0, 0, 2, 0, 0, 0);
    assert(t5 * s0 == (9) * mn(p, 3, 0, 3, 2, 2, 2, 0));
    lemma_tm(p, -1, 1, 0, 3, 0, 2, 2, 0, 9, 2, 0, 0, 1, 0, 1, 1);
    assert(t5 * s1 == (-9) * mn(p, 3, 0, 3, 1, 2, 3, 1));
    lemma_tm(p, -1, 1, 0, 3, 0, 2, 2, 0, -9, 2, 0, 0, 0, 0, 2, 0);
    assert(t5 * s2 == (9) * mn(p, 3, 0, 3, 0, 2, 4, 0));
    lemma_tm(p, -1, 1, 0, 3, 0, 2, 2, 0, 9, 1, 0, 1, 2, 0, 0, 1);
    assert(t5 * s3 == (-9) * mn(p, 2, 0, 4, 2, 2, 2, 1));
    lemma_tm(p, -1, 1, 0, 3, 0, 2, 2, 0, -36, 1, 0, 1, 1, 0, 1, 0);
    assert(t5 * s4 == (36) * mn(p, 2, 0, 4, 1, 2, 3, 0));
    lemma_tm(p, -1, 1, 0, 3, 0, 2, 2, 0, 9, 1, 0, 1, 0, 0, 2, 1);
    assert(t5 * s5 == (-9) * mn(p, 2, 0, 4, 0, 2, 4, 1));
    lemma_tm(p, -1, 1, 0, 3, 0, 2, 2, 0, 1, 0, 2, 0, 0, 2, 0, 0);
    assert(t5 * s6 == (-1) * mn(p, 1, 2, 3, 0, 4, 2, 0));
    lemma_tm(p, -1, 1, 0, 3, 0, 2, 2, 0, -9, 0, 0, 2, 2, 0, 0, 0);
    assert(t5 * s7 == (9) * mn(p, 1, 0, 5, 2, 2, 2, 0));
    lemma_tm(p, -1, 1, 0, 3, 0, 2, 2, 0, 9, 0, 0, 2, 1, 0, 1, 1);
    assert(t5 * s8 == (-9) * mn(p, 1, 0, 5, 1, 2, 3, 1));
    lemma_tm(p, -1, 1, 0, 3, 0, 2, 2, 0, -9, 0, 0, 2, 0, 0, 2, 2);
    assert(t5 * s9 == (9) * mn(p, 1, 0, 5, 0, 2, 4, 2));
    lemma_tm(p, -1, 1, 0, 3, 0, 2, 2, 0, 27, 0, 0, 2, 0, 0, 2, 0);
    assert(t5 * s10 == (-27) * mn(p, 1, 0, 5, 0, 2, 4, 0));
    assert(t5 * q == (9) * mn(p, 3, 0, 3, 2, 2, 2, 0) + (-9) * mn(p, 3, 0, 3, 1, 2, 3, 1) + (9) * mn(p, 3, 0, 3, 0, 2, 4, 0) + (-9) * mn(p, 2, 0, 4, 2, 2, 2, 1) + (36) * mn(p, 2, 0, 4, 1, 2, 3, 0) + (-9) * mn(p, 2, 0, 4, 0, 2, 4, 1) + (-1) * mn(p, 1, 2, 3, 0, 4, 2, 0) + (9) * mn(p, 1, 0, 5, 2, 2, 2, 0) + (-9) * mn(p, 1, 0, 5, 1, 2, 3, 1) + (9) * mn(p, 1, 0, 5, 0, 2, 4, 2) + (-27) * mn(p, 1, 0, 5, 0, 2, 4, 0));
    lemma_tm(p, 1, 0, 2, 2, 1, 0, 3, 0, -9, 2, 0, 0, 2, 0, 0, 0);
    assert(t6 * s0 == (-9) * mn(p, 2, 2, 2, 3, 0, 3, 0));
    lemma_tm(p, 1, 0, 2, 2, 1, 0, 3, 0, 9, 2, 0, 0, 1, 0, 1, 1);
    assert(t6 * s1 == (9) * mn(p, 2, 2, 2, 2, 0, 4, 1));
    lemma_tm(p, 1, 0, 2, 2, 1, 0, 3, 0, -9, 2, 0, 0, 0, 0, 2, 0);
    assert(t6 * s2 == (-9) * mn(p, 2, 2, 2, 1, 0, 5, 0));
    lemma_tm(p, 1, 0, 2, 2, 1, 0, 3, 0, 9, 1, 0, 1, 2, 0, 0, 1);
    assert(t6 * s3 == (9) * mn(p, 1, 2, 3, 3, 0, 3, 1));
    lemma_tm(p, 1, 0, 2, 2, 1, 0, 3, 0, -36, 1, 0, 1, 1, 0, 1, 0);
    assert(t6 * s4 == (-36) * mn(p, 1, 2, 3, 2, 0, 4, 0));
    lemma_tm(p, 1, 0, 2, 2, 1, 0, 3, 0, 9, 1, 0, 1, 0, 0, 2, 1);
    assert(t6 * s5 == (9) * mn(p, 1, 2, 3, 1, 0, 5, 1));
    lemma_tm(p, 1, 0, 2, 2, 1, 0, 3, 0, 1, 0, 2, 0, 0, 2, 0, 0);
    assert(t6 * s6 == (1) * mn(p, 0, 4, 2, 1, 2, 3, 0));
    lemma_tm(p, 1, 0, 2, 2, 1, 0, 3, 0, -9, 0, 0, 2, 2, 0, 0, 0);
    assert(t6 * s7 == (-9) * mn(p, 0, 2, 4, 3, 0, 3, 0));
    lemma_tm(p, 1, 0, 2, 2, 1, 0, 3, 0, 9, 0, 0, 2, 1, 0, 1, 1);
    assert(t6 * s8 == (9) * mn(p, 0, 2, 4, 2, 0, 4, 1));
    lemma_tm(p, 1, 0, 2, 2, 1, 0, 3, 0, -9, 0, 0, 2, 0, 0, 2, 2);
    assert(t6 * s9 == (-9) * mn(p, 0, 2, 4, 1, 0, 5, 2));
    lemma_tm(p, 1, 0, 2, 2, 1, 0, 3, 0, 27, 0, 0, 2, 0, 0, 2, 0);
    assert(t6 * s10 == (27) * mn(p, 0, 2, 4, 1, 0, 5, 0));
    assert(t6 * q == (-9) * mn(p, 2, 2, 2, 3, 0, 3, 0) + (9) * mn(p, 2, 2, 2, 2, 0, 4, 1) + (-9) * mn(p, 2, 2, 2, 1, 0, 5, 0) + (9) * mn(p, 1, 2, 3, 3, 0, 3, 1) + (-36) * mn(p, 1, 2, 3, 2, 0, 4, 0) + (9) * mn(p, 1, 2, 3, 1, 0, 5, 1) + (1) * mn(p, 0, 4, 2, 1, 2, 3, 0) + (-9) * mn(p, 0, 2, 4, 3, 0, 3, 0) + (9) * mn(p, 0, 2, 4, 2, 0, 4, 1) + (-9) * mn(p, 0, 2, 4, 1, 0, 5, 2) + (27) * mn(p, 0, 2, 4, 1, 0, 5, 0));
    lemma_tm(p, -2, 0, 1, 3, 1, 1, 2, 0, -9, 2, 0, 0, 2, 0, 0, 0);
    assert(t7 * s0 == (18) * mn(p, 2, 1, 3, 3, 1, 2, 0));
    lemma_tm(p, -2, 0, 1, 3, 1, 1, 2, 0, 9, 2, 0, 0, 1, 0, 1, 1);
    assert(t7 * s1 == (-18) * mn(p, 2, 1, 3, 2, 1, 3, 1));
    lemma_tm(p, -2, 0, 1, 3, 1, 1, 2, 0, -9, 2, 0, 0, 0, 0, 2, 0);
    assert(t7 * s2 == (18) * mn(p, 2, 1, 3, 1, 1, 4, 0));
    lemma_tm(p, -2, 0, 1, 3, 1, 1, 2, 0, 9, 1, 0, 1, 2, 0, 0, 1);
    assert(t7 * s3 == (-18) * mn(p, 1, 1, 4, 3, 1, 2, 1));
    lemma_tm(p, -2, 0, 1, 3, 1, 1, 2, 0, -36, 1, 0, 1, 1, 0, 1, 0);
    assert(t7 * s4 == (72) * mn(p, 1, 1, 4, 2, 1, 3, 0));
    lemma_tm(p, -2, 0, 1, 3, 1, 1, 2, 0, 9, 1, 0, 1, 0, 0, 2, 1);
    assert(t7 * s5 == (-18) * mn(p, 1, 1, 4, 1, 1, 4, 1));
    lemma_tm(p, -2, 0, 1, 3, 1, 1, 2, 0, 1, 0, 2, 0, 0, 2, 0, 0);
    assert(t7 * s6 == (-2) * mn(p, 0, 3, 3, 1, 3, 2, 0));
    lemma_tm(p, -2, 0, 1, 3, 1, 1, 2, 0, -9, 0, 0, 2, 2, 0, 0, 0);
    assert(t7 * s7 == (18) * mn(p, 0, 1, 5, 3, 1, 2, 0));
    lemma_tm(p, -2, 0, 1, 3, 1, 1, 2, 0, 9, 0, 0, 2, 1, 0, 1, 1);
    assert(t7 * s8 == (-18) * mn(p, 0, 1, 5, 2, 1, 3, 1));
    lemma_tm(p, -2, 0, 1, 3, 1, 1, 2, 0, -9, 0, 0, 2, 0, 0, 2, 2);
    assert(t7 * s9 == (18) * mn(p, 0, 1, 5, 1, 1, 4, 2));
    lemma_tm(p, -2, 0, 1, 3, 1, 1, 2, 0, 27, 0, 0, 2, 0, 0, 2, 0);
    assert(t7 * s10 == (-54) * mn(p, 0, 1, 5, 1, 1, 4, 0));
    assert(t7 * q == (18) * mn(p, 2, 1, 3, 3, 1, 2, 0) + (-18) * mn(p, 2, 1, 3, 2, 1, 3, 1) + (18) * mn(p, 2, 1, 3, 1, 1, 4, 0) + (-18) * mn(p, 1, 1, 4, 3, 1, 2, 1) + (72) * mn(p, 1, 1, 4, 2, 1, 3, 0) + (-18) * mn(p, 1, 1, 4, 1, 1, 4, 1) + (-2) * mn(p, 0, 3, 3, 1, 3, 2, 0) + (18) * mn(p, 0, 1, 5, 3, 1, 2, 0) + (-18) * mn(p, 0, 1, 5, 2, 1, 3, 1) + (18) * mn(p, 0, 1, 5, 1, 1, 4, 2) + (-54) * mn(p, 0, 1, 5, 1, 1, 4, 0));
    lemma_tm(p, -1, 0, 0, 4, 4, 0, 0, 0, -9, 2, 0, 0, 2, 0, 0, 0);
    assert(t8 * s0 == (9) * mn(p, 2, 0, 4, 6, 0, 0, 0));
    lemma_tm(p, -1, 0, 0, 4, 4, 0, 0, 0, 9, 2, 0, 0, 1, 0, 1, 1);
    assert(t8 * s1 == (-9) * mn(p, 2, 0, 4, 5, 0, 1, 1));
    lemma_tm(p, -1, 0, 0, 4, 4, 0, 0, 0, -9, 2, 0, 0, 0, 0, 2, 0);
    assert(t8 * s2 == (9) * mn(p, 2, 0, 4, 4, 0, 2, 0));
    lemma_tm(p, -1, 0, 0, 4, 4, 0, 0, 0, 9, 1, 0, 1, 2, 0, 0, 1);
    assert(t8 * s3 == (-9) * mn(p, 1, 0, 5, 6, 0, 0, 1));
    lemma_tm(p, -1, 0, 0, 4, 4, 0, 0, 0, -36, 1, 0, 1, 1, 0, 1, 0);
    assert(t8 * s4 == (36) * mn(p, 1, 0, 5, 5, 0, 1, 0));
    lemma_tm(p, -1, 0, 0, 4, 4, 0, 0, 0, 9, 1, 0, 1, 0, 0, 2, 1);
    assert(t8 * s5 == (-9) * mn(p, 1, 0, 5, 4, 0, 2, 1));
    lemma_tm(p, -1, 0, 0, 4, 4, 0, 0, 0, 1, 0, 2, 0, 0, 2, 0, 0);
    assert(t8 * s6 == (-1) * mn(p, 0, 2, 4, 4, 2, 0, 0));
    lemma_tm(p, -1, 0, 0, 4, 4, 0, 0, 0, -9, 0, 0, 2, 2, 0, 0, 0);
    assert(t8 * s7 == (9) * mn(p, 0, 0, 6, 6, 0, 0, 0));
    lemma_tm(p, -1, 0, 0, 4, 4, 0, 0, 0, 9, 0, 0, 2, 1, 0, 1, 1);
    assert(t8 * s8 == (-9) * mn(p, 0, 0, 6, 5, 0, 1, 1));
    lemma_tm(p, -1, 0, 0, 4, 4, 0, 0, 0, -9, 0, 0, 2, 0, 0, 2, 2);
    assert(t8 * s9 == (9) * mn(p, 0, 0, 6, 4, 0, 2, 2));
    lemma_tm(p, -1, 0, 0, 4, 4, 0, 0, 0, 27, 0, 0, 2, 0, 0, 2, 0);
    assert(t8 * s10 == (-27) * mn(p, 0, 0, 6, 4, 0, 2, 0));
    assert(t8 * q == (9) * mn(p, 2, 0, 4, 6, 0, 0, 0) + (-9) * mn(p, 2, 0, 4, 5, 0, 1, 1) + (9) * mn(p, 2, 0, 4, 4, 0, 2, 0) + (-9) * mn(p, 1, 0, 5, 6, 0, 0, 1) + (36) * mn(p, 1, 0, 5, 5, 0, 1, 0) + (-9) * mn(p, 1, 0, 5, 4, 0, 2, 1) + (-1) * mn(p, 0, 2, 4, 4, 2, 0, 0) + (9) * mn(p, 0, 0, 6, 6, 0, 0, 0) + (-9) * mn(p, 0, 0, 6, 5, 0, 1, 1) + (9) * mn(p, 0, 0, 6, 4, 0, 2, 2) + (-27) * mn(p, 0, 0, 6, 4, 0, 2, 0));
    lemma_tm(p, 1, 0, 0, 4, 1, 2, 1, 0, -9, 2, 0, 0, 2, 0, 0, 0);
    assert(t9 * s0 == (-9) * mn(p, 2, 0, 4, 3, 2, 1, 0));
    lemma_tm(p, 1, 0, 0, 4, 1, 2, 1, 0, 9, 2, 0, 0, 1, 0, 1, 1);
    assert(t9 * s1 == (9) * mn(p, 2, 0, 4, 2, 2, 2, 1));
    lemma_tm(p, 1, 0, 0, 4, 1, 2, 1, 0, -9, 2, 0, 0, 0, 0, 2, 0);
    assert(t9 * s2 == (-9) * mn(p, 2, 0, 4, 1, 2, 3, 0));
    lemma_tm(p, 1, 0, 0, 4, 1, 2, 1, 0, 9, 1, 0, 1, 2, 0, 0, 1);
    assert(t9 * s3 == (9) * mn(p, 1, 0, 5, 3, 2, 1, 1));
    lemma_tm(p, 1, 0, 0, 4, 1, 2, 1, 0, -36, 1, 0, 1, 1, 0, 1, 0);
    assert(t9 * s4 == (-36) * mn(p, 1, 0, 5, 2, 2, 2, 0));
    lemma_tm(p, 1, 0, 0, 4, 1, 2, 1, 0, 9, 1, 0, 1, 0, 0, 2, 1);
    assert(t9 * s5 == (9) * mn(p, 1, 0, 5, 1, 2, 3, 1));
    lemma_tm(p, 1, 0, 0, 4, 1, 2, 1, 0, 1, 0, 2, 0, 0, 2, 0, 0);
    assert(t9 * s6 == (1) * mn(p, 0, 2, 4, 1, 4, 1, 0));
    lemma_tm(p, 1, 0, 0, 4, 1, 2, 1, 0, -9, 0, 0, 2, 2, 0, 0, 0);
    assert(t9 * s7 == (-9) * mn(p, 0, 0, 6, 3, 2, 1, 0));
    lemma_tm(p, 1, 0, 0, 4, 1, 2, 1, 0, 9, 0, 0, 2, 1, 0, 1, 1);
    assert(t9 * s8 == (9) * mn(p, 0, 0, 6, 2, 2, 2, 1));
    lemma_tm(p, 1, 0, 0, 4, 1, 2, 1, 0, -9, 0, 0, 2, 0, 0, 2, 2);
    assert(t9 * s9 == (-9) * mn(p, 0, 0, 6, 1, 2, 3, 2));
    lemma_tm(p, 1, 0, 0, 4, 1, 2, 1, 0, 27, 0, 0, 2, 0, 0, 2, 0);
    assert(t9 * s10 == (27) * mn(p, 0, 0, 6, 1, 2, 3, 0));
    assert(t9 * q == (-9) * mn(p, 2, 0, 4, 3, 2, 1, 0) + (9) * mn(p, 2, 0, 4, 2, 2, 2, 1) + (-9) * mn(p, 2, 0, 4, 1, 2, 3, 0) + (9) * mn(p, 1, 0, 5, 3, 2, 1, 1) + (-36) * mn(p, 1, 0, 5, 2, 2, 2, 0) + (9) * mn(p, 1, 0, 5, 1, 2, 3, 1) + (1) * mn(p, 0, 2, 4, 1, 4, 1, 0) + (-9) * mn(p, 0, 0, 6, 3, 2, 1, 0) + (9) * mn(p, 0, 0, 6, 2, 2, 2, 1) + (-9) * mn(p, 0, 0, 6, 1, 2, 3, 2) + (27) * mn(p, 0, 0, 6, 1, 2, 3, 0));
    assert(pp9 * q == (-9) * mn(p, 6, 0, 0, 2, 0, 4, 0) + (9) * mn(p, 6, 0, 0, 1, 0, 5, 1) + (-9) * mn(p, 6, 0, 0, 0, 0, 6, 0) + (18) * mn(p, 5, 0, 1, 3, 0, 3, 0) + (-9) * mn(p, 5, 0, 1, 2, 0, 4, 1) + (-18) * mn(p, 5, 0, 1, 1, 0, 5, 0) + (9) * mn(p, 5, 0, 1, 0, 0, 6, 1) + (1) * mn(p, 4, 2, 0, 0, 2, 4, 0) + (-18) * mn(p, 4, 0, 2, 3, 0, 3, 1) + (63) * mn(p, 4, 0, 2, 2, 0, 4, 0) + (-9) * mn(p, 4, 0, 2, 1, 0, 5, 1) + (-9) * mn(p, 4, 0, 2, 0, 0, 6, 2) + (27) * mn(p, 4, 0, 2, 0, 0, 6, 0) + (9) * mn(p, 3, 2, 1, 2, 0, 4, 0) + (-2) * mn(p, 3, 2, 1, 1, 2, 3, 0) + (-9) * mn(p, 3, 2, 1, 1, 0, 5, 1) + (9) * mn(p, 3, 2, 1, 0, 0, 6, 0) + (-18) * mn(p, 3, 1, 2, 2, 1, 3, 0) + (18) * mn(p, 3, 1, 2, 1, 1, 4, 1) + (-18) * mn(p, 3, 1, 2, 0, 1, 5, 0) + (-18) * mn(p, 3, 0, 3, 5, 0, 1, 0) + (18) * mn(p, 3, 0, 3, 4, 0, 2, 1) + (9) * mn(p, 3, 0, 3, 2, 2, 2, 0) + (-18) * mn(p, 3, 0, 3, 2, 0, 4, 1) + (-9) * mn(p, 3, 0, 3, 1, 2, 3, 1) + (18) * mn(p, 3, 0, 3, 1, 0, 5, 2) + (-54) * mn(p, 3, 0, 3, 1, 0, 5, 0) + (9) * mn(p, 3, 0, 3, 0, 2, 4, 0) + (-9) * mn(p, 2, 2, 2, 3, 0, 3, 0) + (27) * mn(p, 2, 2, 2, 1, 0, 5, 0) + (-9) * mn(p, 2, 2, 2, 0, 0, 6, 1) + (18) * mn(p, 2, 1, 3, 3, 1, 2, 0) + (-54) * mn(p, 2, 1, 3, 1, 1, 4, 0) + (18) * mn(p, 2, 1, 3, 0, 1, 5, 1) + (9) * mn(p, 2, 0, 4, 6, 0, 0, 0) + (9) * mn(p, 2, 0, 4, 5, 0, 1, 1) + (-63) * mn(p, 2, 0, 4, 4, 0, 2, 0) + (-9) * mn(p, 2, 0, 4, 3, 2, 1, 0) + (18) * mn(p, 2, 0, 4, 3, 0, 3, 1) + (27) * mn(p, 2, 0, 4, 1, 2, 3, 0) + (-9) * mn(p, 2, 0, 4, 0, 2, 4, 1) + (-1) * mn(p, 1, 4, 1, 0, 2, 4, 0) + (2) * mn(p, 1, 3, 2, 0, 3, 3, 0) + (2) * mn(p, 1, 2, 3, 3, 2, 1, 0) + (9) * mn(p, 1, 2, 3, 3, 0, 3, 1) + (-27) * mn(p, 1, 2, 3, 2, 0, 4, 0) + (-1) * mn(p, 1, 2, 3, 0, 4, 2, 0) + (9) * mn(p, 1, 2, 3, 0, 0, 6, 2) + (-27) * mn(p, 1, 2, 3, 0, 0, 6, 0) + (-18) * mn(p, 1, 1, 4, 3, 1, 2, 1) + (54) * mn(p, 1, 1, 4, 2, 1, 3, 0) + (-18) * mn(p, 1, 1, 4, 0, 1, 5, 2) + (54) * mn(p, 1, 1, 4, 0, 1, 5, 0) + (-9) * mn(p, 1, 0, 5, 6, 0, 0, 1) + (18) * mn(p, 1, 0, 5, 5, 0, 1, 0) + (9) * mn(p, 1, 0, 5, 4, 0, 2, 1) + (9) * mn(p, 1, 0, 5, 3, 2, 1, 1) + (-18) * mn(p, 1, 0, 5, 3, 0, 3, 2) + (54) * mn(p, 1, 0, 5, 3, 0, 3, 0) + (-27) * mn(p, 1, 0, 5, 2, 2, 2, 0) + (9) * mn(p, 1, 0, 5, 0, 2, 4, 2) + (-27) * mn(p, 1, 0, 5, 0, 2, 4, 0) + (1) * mn(p, 0, 4, 2, 1, 2, 3, 0) + (-2) * mn(p, 0, 3, 3, 1, 3, 2, 0) + (-1) * mn(p, 0, 2, 4, 4, 2, 0, 0) + (-9) * mn(p, 0, 2, 4, 3, 0, 3, 0) + (9) * mn(p, 0, 2, 4, 2, 0, 4, 1) + (1) * mn(p, 0, 2, 4, 1, 4, 1, 0) + (-9) * mn(p, 0, 2, 4, 1, 0, 5, 2) + (27) * mn(p, 0, 2, 4, 1, 0, 5, 0) + (18) * mn(p, 0, 1, 5, 3, 1, 2, 0) + (-18) * mn(p, 0, 1, 5, 2, 1, 3, 1) + (18) * mn(p, 0, 1, 5, 1, 1, 4, 2) + (-54) * mn(p, 0, 1, 5, 1, 1, 4, 0) + (9) * mn(p, 0, 0, 6, 6, 0, 0, 0) + (-9) * mn(p, 0, 0, 6, 5, 0, 1, 1) + (9) * mn(p, 0, 0, 6, 4, 0, 2, 2) + (-27) * mn(p, 0, 0, 6, 4, 0, 2, 0) + (-9) * mn(p, 0, 0, 6, 3, 2, 1, 0) + (9) * mn(p, 0, 0, 6, 2, 2, 2, 1) + (-9) * mn(p, 0, 0, 6, 1, 2, 3, 2) + (27) * mn(p, 0, 0, 6, 1, 2, 3, 0));
}

#[verifier::rlimit(100)]
proof fn am1_prod40(p: Pt)
    ensures
        ((1) * mn(p, 0, 1, 0, 0, 0, 0, 0)) * ((1) * mn(p, 0, 1, 0, 0, 0, 0, 0)) == (1) * mn(p, 0, 2, 0, 0, 0, 0, 0),
{
    let t0 = (1) * mn(p, 0, 1, 0, 0, 0, 0, 0);
    let s0 = (1) * mn(p, 0, 1, 0, 0, 0, 0, 0);
    let pp0 = t0;
    let qq0 = s0;
    let q = qq0;
    lemma_tm(p, 1, 0, 1, 0, 0, 0, 0, 0, 1, 0, 1, 0, 0, 0, 0, 0);
    assert(t0 * s0 == (1) * mn(p, 0, 2, 0, 0, 0, 0, 0));
    assert(t0 * q == (1) * mn(p, 0, 2, 0, 0, 0, 0, 0));
    assert(pp0 * q == (1) * mn(p, 0, 2, 0, 0, 0, 0, 0));
}

#[verifier::rlimit(100)]
proof fn am1_prod41(p: Pt)
    ensures
        ((1) * mn(p, 0, 2, 0, 0, 0, 0, 0)) * ((1) * mn(p, 0, 0, 1, 0, 0, 0, 0)) == (1) * mn(p, 0, 2, 1, 0, 0, 0, 0),
{
    let t0 = (1) * mn(p, 0, 2, 0, 0, 0, 0, 0);
    let s0 = (1) * mn(p, 0, 0, 1, 0, 0, 0, 0);
    let pp0 = t0;
    let qq0 = s0;
    let q = qq0;
    lemma_tm(p, 1, 0, 2, 0, 0, 0, 0, 0, 1, 0, 0, 1, 0, 0, 0, 0);
    assert(t0 * s0 == (1) * mn(p, 0, 2, 1, 0, 0, 0, 0));
    assert(t0 * q == (1) * mn(p, 0, 2, 1, 0, 0, 0, 0));
    assert(pp0 * q == (1) * mn(p, 0, 2, 1, 0, 0, 0, 0));
}

#[verifier::rlimit(100)]
proof fn am1_prod42(p: Pt)
    ensures
        ((1) * mn(p, 1, 0, 0, 0, 0, 0, 0)) * ((1) * mn(p, 1, 0, 0, 0, 0, 0, 0)) == (1) * mn(p, 2, 0, 0, 0, 0, 0, 0),
{
    let t0 = (1) * mn(p, 1, 0, 0, 0, 0, 0, 0);
    let s0 = (1) * mn(p, 1, 0, 0, 0, 0, 0, 0);
    let pp0 = t0;
    let qq0 = s0;
    let q = qq0;
    lemma_tm(p, 1, 1, 0, 0, 0, 0, 0, 0, 1, 1, 0, 0, 0, 0, 0, 0);
    assert(t0 * s0 == (1) * mn(p, 2, 0, 0, 0, 0, 0, 0));
    assert(t0 * q == (1) * mn(p, 2, 0, 0, 0, 0, 0, 0));
    assert(pp0 * q == (1) * mn(p, 2, 0, 0, 0, 0, 0, 0));
}

#[verifier::rlimit(100)]
proof fn am1_prod43(p: Pt)
    ensures
        ((1) * mn(p, 2, 0, 0, 0, 0, 0, 0)) * ((1) * mn(p, 1, 0, 0, 0, 0, 0, 0)) == (1) * mn(p, 3, 0, 0, 0, 0, 0, 0),
{
    let t0 = (1) * mn(p, 2, 0, 0, 0, 0, 0, 0);
    let s0 = (1) * mn(p, 1, 0, 0, 0, 0, 0, 0);
    let pp0 = t0;
    let qq0 = s0;
    let q = qq0;
    lemma_tm(p, 1, 2, 0, 0, 0, 0, 0, 0, 1, 1, 0, 0, 0, 0, 0, 0);
    assert(t0 * s0 == (1) * mn(p, 3, 0, 0, 0, 0, 0, 0));
    assert(t0 * q == (1) * mn(p, 3, 0, 0, 0, 0, 0, 0));
    assert(pp0 * q == (1) * mn(p, 3, 0, 0, 0, 0, 0, 0));
}

#[verifier::rlimit(100)]
proof fn am1_prod44(p: Pt)
    ensures
        ((1) * mn(p, 1, 0, 0, 0, 0, 0, 0)) * ((1) * mn(p, 0, 0, 1, 0, 0, 0, 0)) == (1) * mn(p, 1, 0, 1, 0, 0, 0, 0),
{
    let t0 = (1) * mn(p, 1, 0, 0, 0, 0, 0, 0);
    let s0 = (1) * mn(p, 0, 0, 1, 0, 0, 0, 0);
    let pp0 = t0;
    let qq0 = s0;
    let q = qq0;
    lemma_tm(p, 1, 1, 0, 0, 0, 0, 0, 0, 1, 0, 0, 1, 0, 0, 0, 0);
    assert(t0 * s0 == (1) * mn(p, 1, 0, 1, 0, 0, 0, 0));
    assert(t0 * q == (1) * mn(p, 1, 0, 1, 0, 0, 0, 0));
    assert(pp0 * q == (1) * mn(p, 1, 0, 1, 0, 0, 0, 0));
}

#[verifier::rlimit(100)]
proof fn am1_prod45(p: Pt)
    ensures
        ((1) * mn(p, 1, 0, 1, 0, 0, 0, 0)) * ((1) * mn(p, 0, 0, 1, 0, 0, 0, 0)) == (1) * mn(p, 1, 0, 2, 0, 0, 0, 0),
{
    let t0 = (1) * mn(p, 1, 0, 1, 0, 0, 0, 0);
    let s0 = (1) * mn(p, 0, 0, 1, 0, 0, 0, 0);
    let pp0 = t0;
    let qq0 = s0;
    let q = qq0;
    lemma_tm(p, 1, 1, 0, 1, 0, 0, 0, 0, 1, 0, 0, 1, 0, 0, 0, 0);
    assert(t0 * s0 == (1) * mn(p, 1, 0, 2, 0, 0, 0, 0));
    assert(t0 * q == (1) * mn(p, 1, 0, 2, 0, 0, 0, 0));
    assert(pp0 * q == (1) * mn(p, 1, 0, 2, 0, 0, 0, 0));
}

#[verifier::rlimit(100)]
proof fn am1_prod46(p: Pt)
    ensures
        ((1) * mn(p, 0, 0, 1, 0, 0, 0, 0)) * ((1) * mn(p, 0, 0, 1, 0, 0, 0, 0)) == (1) * mn(p, 0, 0, 2, 0, 0, 0, 0),
{
    let t0 = (1) * mn(p, 0, 0, 1, 0, 0, 0, 0);
    let s0 = (1) * mn(p, 0, 0, 1, 0, 0, 0, 0);
    let pp0 = t0;
    let qq0 = s0;
    let q = qq0;
    lemma_tm(p, 1, 0, 0, 1, 0, 0, 0, 0, 1, 0, 0, 1, 0, 0, 0, 0);
    assert(t0 * s0 == (1) * mn(p, 0, 0, 2, 0, 0, 0, 0));
    assert(t0 * q == (1) * mn(p, 0, 0, 2, 0, 0, 0, 0));
    assert(pp0 * q == (1) * mn(p, 0, 0, 2, 0, 0, 0, 0));
}

#[verifier::rlimit(100)]
proof fn am1_prod47(p: Pt)
    ensures
        ((1) * mn(p, 0, 0, 2, 0, 0, 0, 0)) * ((1) * mn(p, 0, 0, 1, 0, 0, 0, 0)) == (1) * mn(p, 0, 0, 3, 0, 0, 0, 0),
{
    let t0 = (1) * mn(p, 0, 0, 2, 0, 0, 0, 0);
    let s0 = (1) * mn(p, 0, 0, 1, 0, 0, 0, 0);
    let pp0 = t0;
    let qq0 = s0;
    let q = qq0;
    lemma_tm(p, 1, 0, 0, 2, 0, 0, 0, 0, 1, 0, 0, 1, 0, 0, 0, 0);
    assert(t0 * s0 == (1) * mn(p, 0, 0, 3, 0, 0, 0, 0));
    assert(t0 * q == (1) * mn(p, 0, 0, 3, 0, 0, 0, 0));
    assert(pp0 * q == (1) * mn(p, 0, 0, 3, 0, 0, 0, 0));
}

#[verifier::rlimit(100)]
proof fn am1_prod48(p: Pt)
    ensures
        ((1) * mn(p, 0, 0, 0, 0, 0, 0, 1)) * ((1) * mn(p, 0, 0, 3, 0, 0, 0, 0)) == (1) * mn(p, 0, 0, 3, 0, 0, 0, 1),
{
    let t0 = (1) * mn(p, 0, 0, 0, 0, 0, 0, 1);
    let s0 = (1) * mn(p, 0, 0, 3, 0, 0, 0, 0);
    let pp0 = t0;
    let qq0 = s0;
    let q = qq0;
    lemma_tm(p, 1, 0, 0, 0, 0, 0, 0, 1, 1, 0, 0, 3, 0, 0, 0, 0);
    assert(t0 * s0 == (1) * mn(p, 0, 0, 3, 0, 0, 0, 1));
    assert(t0 * q == (1) * mn(p, 0, 0, 3, 0, 0, 0, 1));
    assert(pp0 * q == (1) * mn(p, 0, 0, 3, 0, 0, 0, 1));
}

#[verifier::rlimit(100)]
proof fn am1_prod49(p: Pt)
    ensures
        ((1) * mn(p, 0, 0, 0, 0, 1, 0, 0)) * ((1) * mn(p, 0, 0, 0, 0, 1, 0, 0)) == (1) * mn(p, 0, 0, 0, 0, 2, 0, 0),
{
    let t0 = (1) * mn(p, 0, 0, 0, 0, 1, 0, 0);
    let s0 = (1) * mn(p, 0, 0, 0, 0, 1, 0, 0);
    let pp0 = t0;
    let qq0 = s0;
    let q = qq0;
    lemma_tm(p, 1, 0, 0, 0, 0, 1, 0, 0, 1, 0, 0, 0, 0, 1, 0, 0);
    assert(t0 * s0 == (1) * mn(p, 0, 0, 0, 0, 2, 0, 0));
    assert(t0 * q == (1) * mn(p, 0, 0, 0, 0, 2, 0, 0));
    assert(pp0 * q == (1) * mn(p, 0, 0, 0, 0, 2, 0, 0));
}

#[verifier::rlimit(100)]
proof fn am1_prod50(p: Pt)
    ensures
        ((1) * mn(p, 0, 0, 0, 0, 2, 0, 0)) * ((1) * mn(p, 0, 0, 0, 0, 0, 1, 0)) == (1) * mn(p, 0, 0, 0, 0, 2, 1, 0),
{
    let t0 = (1) * mn(p, 0, 0, 0, 0, 2, 0, 0);
    let s0 = (1) * mn(p, 0, 0, 0, 0, 0, 1, 0);
    let pp0 = t0;
    let qq0 = s0;
    let q = qq0;
    lemma_tm(p, 1, 0, 0, 0, 0, 2, 0, 0, 1, 0, 0, 0, 0, 0, 1, 0);
    assert(t0 * s0 == (1) * mn(p, 0, 0, 0, 0, 2, 1, 0));
    assert(t0 * q == (1) * mn(p, 0, 0, 0, 0, 2, 1, 0));
    assert(pp0 * q == (1) * mn(p, 0, 0, 0, 0, 2, 1, 0));
}

#[verifier::rlimit(100)]
proof fn am1_prod51(p: Pt)
    ensures
        ((1) * mn(p, 0, 0, 0, 1, 0, 0, 0)) * ((1) * mn(p, 0, 0, 0, 1, 0, 0, 0)) == (1) * mn(p, 0, 0, 0, 2, 0, 0, 0),
{
    let t0 = (1) * mn(p, 0, 0, 0, 1, 0, 0, 0);
    let s0 = (1) * mn(p, 0, 0, 0, 1, 0, 0, 0);
    let pp0 = t0;
    let qq0 = s0;
    let q = qq0;
    lemma_tm(p, 1, 0, 0, 0, 1, 0, 0, 0, 1, 0, 0, 0, 1, 0, 0, 0);
    assert(t0 * s0 == (1) * mn(p, 0, 0, 0, 2, 0, 0, 0));
    assert(t0 * q == (1) * mn(p, 0, 0, 0, 2, 0, 0, 0));
    assert(pp0 * q == (1) * mn(p, 0, 0, 0, 2, 0, 0, 0));
}

#[verifier::rlimit(100)]
proof fn am1_prod52(p: Pt)
    ensures
        ((1) * mn(p, 0, 0, 0, 2, 0, 0, 0)) * ((1) * mn(p, 0, 0, 0, 1, 0, 0, 0)) == (1) * mn(p, 0, 0, 0, 3, 0, 0, 0),
{
    let t0 = (1) * mn(p, 0, 0, 0, 2, 0, 0, 0);
    let s0 = (1) * mn(p, 0, 0, 0, 1, 0, 0, 0);
    let pp0 = t0;
    let qq0 = s0;
    let q = qq0;
    lemma_tm(p, 1, 0, 0, 0, 2, 0, 0, 0, 1, 0, 0, 0, 1, 0, 0, 0);
    assert(t0 * s0 == (1) * mn(p, 0, 0, 0, 3, 0, 0, 0));
    assert(t0 * q == (1) * mn(p, 0, 0, 0, 3, 0, 0, 0));
    assert(pp0 * q == (1) * mn(p, 0, 0, 0, 3, 0, 0, 0));
}

#[verifier::rlimit(100)]
proof fn am1_prod53(p: Pt)
    ensures
        ((1) * mn(p, 0, 0, 0, 1, 0, 0, 0)) * ((1) * mn(p, 0, 0, 0, 0, 0, 1, 0)) == (1) * mn(p, 0, 0, 0, 1, 0, 1, 0),
{
    let t0 = (1) * mn(p, 0, 0, 0, 1, 0, 0, 0);
    let s0 = (1) * mn(p, 0, 0, 0, 0, 0, 1, 0);
    let pp0 = t0;
    let qq0 = s0;
    let q = qq0;
    lemma_tm(p, 1, 0, 0, 0, 1, 0, 0, 0, 1, 0, 0, 0, 0, 0, 1, 0);
    assert(t0 * s0 == (1) * mn(p, 0, 0, 0, 1, 0, 1, 0));
    assert(t0 * q == (1) * mn(p, 0, 0, 0, 1, 0, 1, 0));
    assert(pp0 * q == (1) * mn(p, 0, 0, 0, 1, 0, 1, 0));
}

#[verifier::rlimit(100)]
proof fn am1_prod54(p: Pt)
    ensures
        ((1) * mn(p, 0, 0, 0, 1, 0, 1, 0)) * ((1) * mn(p, 0, 0, 0, 0, 0, 1, 0)) == (1) * mn(p, 0, 0, 0, 1, 0, 2, 0),
{
    let t0 = (1) * mn(p, 0, 0, 0, 1, 0, 1, 0);
    let s0 = (1) * mn(p, 0, 0, 0, 0, 0, 1, 0);
    let pp0 = t0;
    let qq0 = s0;
    let q = qq0;
    lemma_tm(p, 1, 0, 0, 0, 1, 0, 1, 0, 1, 0, 0, 0, 0, 0, 1, 0);
    assert(t0 * s0 == (1) * mn(p, 0, 0, 0, 1, 0, 2, 0));
    assert(t0 * q == (1) * mn(p, 0, 0, 0, 1, 0, 2, 0));
    assert(pp0 * q == (1) * mn(p, 0, 0, 0, 1, 0, 2, 0));
}

#[verifier::rlimit(100)]
proof fn am1_prod55(p: Pt)
    ensures
        ((1) * mn(p, 0, 0, 0, 0, 0, 1, 0)) * ((1) * mn(p, 0, 0, 0, 0, 0, 1, 0)) == (1) * mn(p, 0, 0, 0, 0, 0, 2, 0),
{
    let t0 = (1) * mn(p, 0, 0, 0, 0, 0, 1, 0);
    let s0 = (1) * mn(p, 0, 0, 0, 0, 0, 1, 0);
    let pp0 = t0;
    let qq0 = s0;
    let q = qq0;
    lemma_tm(p, 1, 0, 0, 0, 0, 0, 1, 0, 1, 0, 0, 0, 0, 0, 1, 0);
    assert(t0 * s0 == (1) * mn(p, 0, 0, 0, 0, 0, 2, 0));
    assert(t0 * q == (1) * mn(p, 0, 0, 0, 0, 0, 2, 0));
    assert(pp0 * q == (1) * mn(p, 0, 0, 0, 0, 0, 2, 0));
}

#[verifier::rlimit(100)]
proof fn am1_prod56(p: Pt)
    ensures
        ((1) * mn(p, 0, 0, 0, 0, 0, 2, 0)) * ((1) * mn(p, 0, 0, 0, 0, 0, 1, 0)) == (1) * mn(p, 0, 0, 0, 0, 0, 3, 0),
{
    let t0 = (1) * mn(p, 0, 0, 0, 0, 0, 2, 0);
    let s0 = (1) * mn(p, 0, 0, 0, 0, 0, 1, 0);
    let pp0 = t0;
    let qq0 = s0;
    let q = qq0;
    lemma_tm(p, 1, 0, 0, 0, 0, 0, 2, 0, 1, 0, 0, 0, 0, 0, 1, 0);
    assert(t0 * s0 == (1) * mn(p, 0, 0, 0, 0, 0, 3, 0));
    assert(t0 * q == (1) * mn(p, 0, 0, 0, 0, 0, 3, 0));
    assert(pp0 * q == (1) * mn(p, 0, 0, 0, 0, 0, 3, 0));
}

#[verifier::rlimit(100)]
proof fn am1_prod57(p: Pt)
    ensures
        ((1) * mn(p, 0, 0, 0, 0, 0, 0, 1)) * ((1) * mn(p, 0, 0, 0, 0, 0, 3, 0)) == (1) * mn(p, 0, 0, 0, 0, 0, 3, 1),
{
    let t0 = (1) * mn(p, 0, 0, 0, 0, 0, 0, 1);
    let s0 = (1) * mn(p, 0, 0, 0, 0, 0, 3, 0);
    let pp0 = t0;
    let qq0 = s0;
    let q = qq0;
    lemma_tm(p, 1, 0, 0, 0, 0, 0, 0, 1, 1, 0, 0, 0, 0, 0, 3, 0);
    assert(t0 * s0 == (1) * mn(p, 0, 0, 0, 0, 0, 3, 1));
    assert(t0 * q == (1) * mn(p, 0, 0, 0, 0, 0, 3, 1));
    assert(pp0 * q == (1) * mn(p, 0, 0, 0, 0, 0, 3, 1));
}

#[verifier::rlimit(100)]
proof fn am1_prod58(p: Pt)
    ensures
        ((-3) * mn(p, 2, 1, 0, 1, 1, 4, 0) + (-9) * mn(p, 2, 0, 1, 2, 0, 4, 0) + (6) * mn(p, 2, 0, 1, 1, 2, 3, 0) + (9) * mn(p, 2, 0, 1, 1, 0, 5, 1) + (-9) * mn(p, 2, 0, 1, 0, 0, 6, 0) + (-3) * mn(p, 1, 2, 0, 2, 0, 4, 0) + (3) * mn(p, 1, 2, 0, 0, 0, 6, 0) + (6) * mn(p, 1, 1, 1, 2, 1, 3, 0) + (27) * mn(p, 1, 0, 2, 3, 0, 3, 0) + (-9) * mn(p, 1, 0, 2, 2, 2, 2, 0) + (-18) * mn(p, 1, 0, 2, 2, 0, 4, 1) + (-9) * mn(p, 1, 0, 2, 1, 0, 5, 0) + (-12) * mn(p, 1, 0, 2, 0, 2, 4, 0) + (9) * mn(p, 1, 0, 2, 0, 0, 6, 1) + (-1) * mn(p, 0, 3, 0, 0, 1, 5, 0) + (6) * mn(p, 0, 2, 1, 1, 0, 5, 0) + (2) * mn(p, 0, 2, 1, 0, 2, 4, 0) + (-3) * mn(p, 0, 2, 1, 0, 0, 6, 1) + (-9) * mn(p, 0, 1, 2, 1, 1, 4, 0) + (2) * mn(p, 0, 1, 2, 0, 3, 3, 0) + (3) * mn(p, 0, 1, 2, 0, 1, 5, 1) + (-27) * mn(p, 0, 0, 3, 4, 0, 2, 0) + (45) * mn(p, 0, 0, 3, 2, 0, 4, 0) + (30) * mn(p, 0, 0, 3, 1, 2, 3, 0) + (9) * mn(p, 0, 0, 3, 1, 0, 5, 1) + (6) * mn(p, 0, 0, 3, 0, 2, 4, 1) + (-9) * mn(p, 0, 0, 3, 0, 0, 6, 2)) * ((-1) * mn(p, 3, 0, 0, 0, 0, 0, 0) + (3) * mn(p, 1, 0, 2, 0, 0, 0, 0) + (1) * mn(p, 0, 2, 1, 0, 0, 0, 0) + (-1) * mn(p, 0, 0, 3, 0, 0, 0, 1)) == (3) * mn(p, 5, 1, 0, 1, 1, 4, 0) + (9) * mn(p, 5, 0, 1, 2, 0, 4, 0) + (-6) * mn(p, 5, 0, 1, 1, 2, 3, 0) + (-9) * mn(p, 5, 0, 1, 1, 0, 5, 1) + (9) * mn(p, 5, 0, 1, 0, 0, 6, 0) + (3) * mn(p, 4, 2, 0, 2, 0, 4, 0) + (-3) * mn(p, 4, 2, 0, 0, 0, 6, 0) + (-6) * mn(p, 4, 1, 1, 2, 1, 3, 0) + (-27) * mn(p, 4, 0, 2, 3, 0, 3, 0) + (9) * mn(p, 4, 0, 2, 2, 2, 2, 0) + (18) * mn(p, 4, 0, 2, 2, 0, 4, 1) + (9) * mn(p, 4, 0, 2, 1, 0, 5, 0) + (12) * mn(p, 4, 0, 2, 0, 2, 4, 0) + (-9) * mn(p, 4, 0, 2, 0, 0, 6, 1) + (1) * mn(p, 3, 3, 0, 0, 1, 5, 0) + (-6) * mn(p, 3, 2, 1, 1, 0, 5, 0) + (-2) * mn(p, 3, 2, 1, 0, 2, 4, 0) + (3) * mn(p, 3, 2, 1, 0, 0, 6, 1) + (-2) * mn(p, 3, 1, 2, 0, 3, 3, 0) + (-3) * mn(p, 3, 1, 2, 0, 1, 5, 1) + (27) * mn(p, 3, 0, 3, 4, 0, 2, 0) + (-72) * mn(p, 3, 0, 3, 2, 0, 4, 0) + (-12) * mn(p, 3, 0, 3, 1, 2, 3, 0) + (18) * mn(p, 3, 0, 3, 1, 0, 5, 1) + (-6) * mn(p, 3, 0, 3, 0, 2, 4, 1) + (9) * mn(p, 3, 0, 3, 0, 0, 6, 2) + (-27) * mn(p, 3, 0, 3, 0, 0, 6, 0) + (-3) * mn(p, 2, 3, 1, 1, 1, 4, 0) + (-18) * mn(p, 2, 2, 2, 2, 0, 4, 0) + (6) * mn(p, 2, 2, 2, 1, 2, 3, 0) + (9) * mn(p, 2, 2, 2, 1, 0, 5, 1) + (18) * mn(p, 2, 1, 3, 2, 1, 3, 0) + (3) * mn(p, 2, 1, 3, 1, 1, 4, 1) + (81) * mn(p, 2, 0, 4, 3, 0, 3, 0) + (-27) * mn(p, 2, 0, 4, 2, 2, 2, 0) + (-45) * mn(p, 2, 0, 4, 2, 0, 4, 1) + (-6) * mn(p, 2, 0, 4, 1, 2, 3, 1) + (-9) * mn(p, 2, 0, 4, 1, 0, 5, 2) + (-27) * mn(p, 2, 0, 4, 1, 0, 5, 0) + (-36) * mn(p, 2, 0, 4, 0, 2, 4, 0) + (36) * mn(p, 2, 0, 4, 0, 0, 6, 1) + (-3) * mn(p, 1, 4, 1, 2, 0, 4, 0) + (3) * mn(p, 1, 4, 1, 0, 0, 6, 0) + (6) * mn(p, 1, 3, 2, 2, 1, 3, 0) + (-3) * mn(p, 1, 3, 2, 0, 1, 5, 0) + (27) * mn(p, 1, 2, 3, 3, 0, 3, 0) + (-9) * mn(p, 1, 2, 3, 2, 2, 2, 0) + (-15) * mn(p, 1, 2, 3, 2, 0, 4, 1) + (9) * mn(p, 1, 2, 3, 1, 0, 5, 0) + (-6) * mn(p, 1, 2, 3, 0, 2, 4, 0) + (-3) * mn(p, 1, 2, 3, 0, 0, 6, 1) + (-6) * mn(p, 1, 1, 4, 2, 1, 3, 1) + (-27) * mn(p, 1, 1, 4, 1, 1, 4, 0) + (6) * mn(p, 1, 1, 4, 0, 3, 3, 0) + (9) * mn(p, 1, 1, 4, 0, 1, 5, 1) + (-81) * mn(p, 1, 0, 5, 4, 0, 2, 0) + (-27) * mn(p, 1, 0, 5, 3, 0, 3, 1) + (9) * mn(p, 1, 0, 5, 2, 2, 2, 1) + (18) * mn(p, 1, 0, 5, 2, 0, 4, 2) + (135) * mn(p, 1, 0, 5, 2, 0, 4, 0) + (90) * mn(p, 1, 0, 5, 1, 2, 3, 0) + (36) * mn(p, 1, 0, 5, 1, 0, 5, 1) + (30) * mn(p, 1, 0, 5, 0, 2, 4, 1) + (-36) * mn(p, 1, 0, 5, 0, 0, 6, 2) + (-1) * mn(p, 0, 5, 1, 0, 1, 5, 0) + (6) * mn(p, 0, 4, 2, 1, 0, 5, 0) + (2) * mn(p, 0, 4, 2, 0, 2, 4, 0) + (-3) * mn(p, 0, 4, 2, 0, 0, 6, 1) + (-9) * mn(p, 0, 3, 3, 1, 1, 4, 0) + (2) * mn(p, 0, 3, 3, 0, 3, 3, 0) + (4) * mn(p, 0, 3, 3, 0, 1, 5, 1) + (-27) * mn(p, 0, 2, 4, 4, 0, 2, 0) + (45) * mn(p, 0, 2, 4, 2, 0, 4, 0) + (30) * mn(p, 0, 2, 4, 1, 2, 3, 0) + (3) * mn(p, 0, 2, 4, 1, 0, 5, 1) + (4) * mn(p, 0, 2, 4, 0, 2, 4, 1) + (-6) * mn(p, 0, 2, 4, 0, 0, 6, 2) + (9) * mn(p, 0, 1, 5, 1, 1, 4, 1) + (-2) * mn(p, 0, 1, 5, 0, 3, 3, 1) + (-3) * mn(p, 0, 1, 5, 0, 1, 5, 2) + (27) * mn(p, 0, 0, 6, 4, 0, 2, 1) + (-45) * mn(p, 0, 0, 6, 2, 0, 4, 1) + (-30) * mn(p, 0, 0, 6, 1, 2, 3, 1) + (-9) * mn(p, 0, 0, 6, 1, 0, 5, 2) + (-6) * mn(p, 0, 0, 6, 0, 2, 4, 2) + (9) * mn(p, 0, 0, 6, 0, 0, 6, 3),
{
    let t0 = (-3) * mn(p, 2, 1, 0, 1, 1, 4, 0);
    let t1 = (-9) * mn(p, 2, 0, 1, 2, 0, 4, 0);
    let t2 = (6) * mn(p, 2, 0, 1, 1, 2, 3, 0);
    let t3 = (9) * mn(p, 2, 0, 1, 1, 0, 5, 1);
    let t4 = (-9) * mn(p, 2, 0, 1, 0, 0, 6, 0);
    let t5 = (-3) * mn(p, 1, 2, 0, 2, 0, 4, 0);
    let t6 = (3) * mn(p, 1, 2, 0, 0, 0, 6, 0);
    let t7 = (6) * mn(p, 1, 1, 1, 2, 1, 3, 0);
    let t8 = (27) * mn(p, 1, 0, 2, 3, 0, 3, 0);
    let t9 = (-9) * mn(p, 1, 0, 2, 2, 2, 2, 0);
    let t10 = (-18) * mn(p, 1, 0, 2, 2, 0, 4, 1);
    let t11 = (-9) * mn(p, 1, 0, 2, 1, 0, 5, 0);
    let t12 = (-12) * mn(p, 1, 0, 2, 0, 2, 4, 0);
    let t13 = (9) * mn(p, 1, 0, 2, 0, 0, 6, 1);
    let t14 = (-1) * mn(p, 0, 3, 0, 0, 1, 5, 0);
    let t15 = (6) * mn(p, 0, 2, 1, 1, 0, 5, 0);
    let t16 = (2) * mn(p, 0, 2, 1, 0, 2, 4, 0);
    let t17 = (-3) * mn(p, 0, 2, 1, 0, 0, 6, 1);
    let t18 = (-9) * mn(p, 0, 1, 2, 1, 1, 4, 0);
    let t19 = (2) * mn(p, 0, 1, 2, 0, 3, 3, 0);
    let t20 = (3) * mn(p, 0, 1, 2, 0, 1, 5, 1);
    let t21 = (-27) * mn(p, 0, 0, 3, 4, 0, 2, 0);
    let t22 = (45) * mn(p, 0, 0, 3, 2, 0, 4, 0);
    let t23 = (30) * mn(p, 0, 0, 3, 1, 2, 3, 0);
    let t24 = (9) * mn(p, 0, 0, 3, 1, 0, 5, 1);
    let t25 = (6) * mn(p, 0, 0, 3, 0, 2, 4, 1);
    let t26 = (-9) * mn(p, 0, 0, 3, 0, 0, 6, 2);
    let s0 = (-1) * mn(p, 3, 0, 0, 0, 0, 0, 0);
    let s1 = (3) * mn(p, 1, 0, 2, 0, 0, 0, 0);
    let s2 = (1) * mn(p, 0, 2, 1, 0, 0, 0, 0);
    let s3 = (-1) * mn(p, 0, 0, 3, 0, 0, 0, 1);
    let pp0 = t0;
    let pp1 = pp0 + t1;
    let pp2 = pp1 + t2;
    let pp3 = pp2 + t3;
    let pp4 = pp3 + t4;
    let pp5 = pp4 + t5;
    let pp6 = pp5 + t6;
    let pp7 = pp6 + t7;
    let pp8 = pp7 + t8;
    let pp9 = pp8 + t9;
    let pp10 = pp9 + t10;
    let pp11 = pp10 + t11;
    let pp12 = pp11 + t12;
    let pp13 = pp12 + t13;
    let pp14 = pp13 + t14;
    let pp15 = pp14 + t15;
    let pp16 = pp15 + t16;
    let pp17 = pp16 + t17;
    let pp18 = pp17 + t18;
    let pp19 = pp18 + t19;
    let pp20 = pp19 + t20;
    let pp21 = pp20 + t21;
    let pp22 = pp21 + t22;
    let pp23 = pp22 + t23;
    let pp24 = pp23 + t24;
    let pp25 = pp24 + t25;
    let pp26 = pp25 + t26;
    let qq0 = s0;
    let qq1 = qq0 + s1;
    let qq2 = qq1 + s2;
    let qq3 = qq2 + s3;
    let q = qq3;
    lemma_mul_is_distributive_add_other_way(q, pp0, t1);
    lemma_mul_is_distributive_add_other_way(q, pp1, t2);
    lemma_mul_is_distributive_add_other_way(q, pp2, t3);
    lemma_mul_is_distributive_add_other_way(q, pp3, t4);
    lemma_mul_is_distributive_add_other_way(q, pp4, t5);
    lemma_mul_is_distributive_add_other_way(q, pp5, t6);
    lemma_mul_is_distributive_add_other_way(q, pp6, t7);
    lemma_mul_is_distributive_add_other_way(q, pp7, t8);
    lemma_mul_is_distributive_add_other_way(q, pp8, t9);
    lemma_mul_is_distributive_add_other_way(q, pp9, t10);
    lemma_mul_is_distributive_add_other_way(q, pp10, t11);
    lemma_mul_is_distributive_add_other_way(q, pp11, t12);
    lemma_mul_is_distributive_add_other_way(q, pp12, t13);
    lemma_mul_is_distributive_add_other_way(q, pp13, t14);
    lemma_mul_is_distributive_add_other_way(q, pp14, t15);
    lemma_mul_is_distributive_add_other_way(q, pp15, t16);
    lemma_mul_is_distributive_add_other_way(q, pp16, t17);
    lemma_mul_is_distributive_add_other_way(q, pp17, t18);
    lemma_mul_is_distributive_add_other_way(q, pp18, t19);
    lemma_mul_is_distributive_add_other_way(q, pp19, t20);
    lemma_mul_is_distributive_add_other_way(q, pp20, t21);
    lemma_mul_is_distributive_add_other_way(q, pp21, t22);
    lemma_mul_is_distributive_add_other_way(q, pp22, t23);
    lemma_mul_is_distributive_add_other_way(q, pp23, t24);
    lemma_mul_is_distributive_add_other_way(q, pp24, t25);
    lemma_mul_is_distributive_add_other_way(q, pp25, t26);
    lemma_mul_is_distributive_add(t0, qq0, s1);
    lemma_mul_is_distributive_add(t0, qq1, s2);
    lemma_mul_is_distributive_add(t0, qq2, s3);
    lemma_mul_is_distributive_add(t1, qq0, s1);
    lemma_mul_is_distributive_add(t1, qq1, s2);
    lemma_mul_is_distributive_add(t1, qq2, s3);
    lemma_mul_is_distributive_add(t2, qq0, s1);
    lemma_mul_is_distributive_add(t2, qq1, s2);
    lemma_mul_is_distributive_add(t2, qq2, s3);
    lemma_mul_is_distributive_add(t3, qq0, s1);
    lemma_mul_is_distributive_add(t3, qq1, s2);
    lemma_mul_is_distributive_add(t3, qq2, s3);
    lemma_mul_is_distributive_add(t4, qq0, s1);
    lemma_mul_is_distributive_add(t4, qq1, s2);
    lemma_mul_is_distributive_add(t4, qq2, s3);
    lemma_mul_is_distributive_add(t5, qq0, s1);
    lemma_mul_is_distributive_add(t5, qq1, s2);
    lemma_mul_is_distributive_add(t5, qq2, s3);
    lemma_mul_is_distributive_add(t6, qq0, s1);
    lemma_mul_is_distributive_add(t6, qq1, s2);
    lemma_mul_is_distributive_add(t6, qq2, s3);
    lemma_mul_is_distributive_add(t7, qq0, s1);
    lemma_mul_is_distributive_add(t7, qq1, s2);
    lemma_mul_is_distributive_add(t7, qq2, s3);
    lemma_mul_is_distributive_add(t8, qq0, s1);
    lemma_mul_is_distributive_add(t8, qq1, s2);
    lemma_mul_is_distributive_add(t8, qq2, s3);
    lemma_mul_is_distributive_add(t9, qq0, s1);
    lemma_mul_is_distributive_add(t9, qq1, s2);
    lemma_mul_is_distributive_add(t9, qq2, s3);
    lemma_mul_is_distributive_add(t10, qq0, s1);
    lemma_mul_is_distributive_add(t10, qq1, s2);
    lemma_mul_is_distributive_add(t10, qq2, s3);
    lemma_mul_is_distributive_add(t11, qq0, s1);
    lemma_mul_is_distributive_add(t11, qq1, s2);
    lemma_mul_is_distributive_add(t11, qq2, s3);
    lemma_mul_is_distributive_add(t12, qq0, s1);
    lemma_mul_is_distributive_add(t12, qq1, s2);
    lemma_mul_is_distributive_add(t12, qq2, s3);
    lemma_mul_is_distributive_add(t13, qq0, s1);
    lemma_mul_is_distributive_add(t13, qq1, s2);
    lemma_mul_is_distributive_add(t13, qq2, s3);
    lemma_mul_is_distributive_add(t14, qq0, s1);
    lemma_mul_is_distributive_add(t14, qq1, s2);
    lemma_mul_is_distributive_add(t14, qq2, s3);
    lemma_mul_is_distributive_add(t15, qq0, s1);
    lemma_mul_is_distributive_add(t15, qq1, s2);
    lemma_mul_is_distributive_add(t15, qq2, s3);
    lemma_mul_is_distributive_add(t16, qq0, s1);
    lemma_mul_is_distributive_add(t16, qq1, s2);
    lemma_mul_is_distributive_add(t16, qq2, s3);
    lemma_mul_is_distributive_add(t17, qq0, s1);
    lemma_mul_is_distributive_add(t17, qq1, s2);
    lemma_mul_is_distributive_add(t17, qq2, s3);
    lemma_mul_is_distributive_add(t18, qq0, s1);
    lemma_mul_is_distributive_add(t18, qq1, s2);
    lemma_mul_is_distributive_add(t18, qq2, s3);
    lemma_mul_is_distributive_add(t19, qq0, s1);
    lemma_mul_is_distributive_add(t19, qq1, s2);
    lemma_mul_is_distributive_add(t19, qq2, s3);
    lemma_mul_is_distributive_add(t20, qq0, s1);
    lemma_mul_is_distributive_add(t20, qq1, s2);
    lemma_mul_is_distributive_add(t20, qq2, s3);
    lemma_mul_is_distributive_add(t21, qq0, s1);
    lemma_mul_is_distributive_add(t21, qq1, s2);
    lemma_mul_is_distributive_add(t21, qq2, s3);
    lemma_mul_is_distributive_add(t22, qq0, s1);
    lemma_mul_is_distributive_add(t22, qq1, s2);
    lemma_mul_is_distributive_add(t22, qq2, s3);
    lemma_mul_is_distributive_add(t23, qq0, s1);
    lemma_mul_is_distributive_add(t23, qq1, s2);
    lemma_mul_is_distributive_add(t23, qq2, s3);
    lemma_mul_is_distributive_add(t24, qq0, s1);
    lemma_mul_is_distributive_add(t24, qq1, s2);
    lemma_mul_is_distributive_add(t24, qq2, s3);
    lemma_mul_is_distributive_add(t25, qq0, s1);
    lemma_mul_is_distributive_add(t25, qq1, s2);
    lemma_mul_is_distributive_add(t25, qq2, s3);
    lemma_mul_is_distributive_add(t26, qq0, s1);
    lemma_mul_is_distributive_add(t26, qq1, s2);
    lemma_mul_is_distributive_add(t26, qq2, s3);
    lemma_tm(p, -3, 2, 1, 0, 1, 1, 4, 0, -1, 3, 0, 0, 0, 0, 0, 0);
    assert(t0 * s0 == (3) * mn(p, 5, 1, 0, 1, 1, 4, 0));
    lemma_tm(p, -3, 2, 1, 0, 1, 1, 4, 0, 3, 1, 0, 2, 0, 0, 0, 0);
    assert(t0 * s1 == (-9) * mn(p, 3, 1, 2, 1, 1, 4, 0));
    lemma_tm(p, -3, 2, 1, 0, 1, 1, 4, 0, 1, 0, 2, 1, 0, 0, 0, 0);
    assert(t0 * s2 == (-3) * mn(p, 2, 3, 1, 1, 1, 4, 0));
    lemma_tm(p, -3, 2, 1, 0, 1, 1, 4, 0, -1, 0, 0, 3, 0, 0, 0, 1);
    assert(t0 * s3 == (3) * mn(p, 2, 1, 3, 1, 1, 4, 1));
    assert(t0 * q == (3) * mn(p, 5, 1, 0, 1, 1, 4, 0) + (-9) * mn(p, 3, 1, 2, 1, 1, 4, 0) + (-3) * mn(p, 2, 3, 1, 1, 1, 4, 0) + (3) * mn(p, 2, 1, 3, 1, 1, 4, 1));
    lemma_tm(p, -9, 2, 0, 1, 2, 0, 4, 0, -1, 3, 0, 0, 0, 0, 0, 0);
    assert(t1 * s0 == (9) * mn(p, 5, 0, 1, 2, 0, 4, 0));
    lemma_tm(p, -9, 2, 0, 1, 2, 0, 4, 0, 3, 1, 0, 2, 0, 0, 0, 0);
    assert(t1 * s1 == (-27) * mn(p, 3, 0, 3, 2, 0, 4, 0));
    lemma_tm(p, -9, 2, 0, 1, 2, 0, 4, 0, 1, 0, 2, 1, 0, 0, 0, 0);
    assert(t1 * s2 == (-9) * mn(p, 2, 2, 2, 2, 0, 4, 0));
    lemma_tm(p, -9, 2, 0, 1, 2, 0, 4, 0, -1, 0, 0, 3, 0, 0, 0, 1);
    assert(t1 * s3 == (9) * mn(p, 2, 0, 4, 2, 0, 4, 1));
    assert(t1 * q == (9) * mn(p, 5, 0, 1, 2, 0, 4, 0) + (-27) * mn(p, 3, 0, 3, 2, 0, 4, 0) + (-9) * mn(p, 2, 2, 2, 2, 0, 4, 0) + (9) * mn(p, 2, 0, 4, 2, 0, 4, 1));
    lemma_tm(p, 6, 2, 0, 1, 1, 2, 3, 0, -1, 3, 0, 0, 0, 0, 0, 0);
    assert(t2 * s0 == (-6) * mn(p, 5, 0, 1, 1, 2, 3, 0));
    lemma_tm(p, 6, 2, 0, 1, 1, 2, 3, 0, 3, 1, 0, 2, 0, 0, 0, 0);
    assert(t2 * s1 == (18) * mn(p, 3, 0, 3, 1, 2, 3, 0));
    lemma_tm(p, 6, 2, 0, 1, 1, 2, 3, 0, 1, 0, 2, 1, 0, 0, 0, 0);
    assert(t2 * s2 == (6) * mn(p, 2, 2, 2, 1, 2, 3, 0));
    lemma_tm(p, 6, 2, 0, 1, 1, 2, 3, 0, -1, 0, 0, 3, 0, 0, 0, 1);
    assert(t2 * s3 == (-6) * mn(p, 2, 0, 4, 1, 2, 3, 1));
    assert(t2 * q == (-6) * mn(p, 5, 0, 1, 1, 2, 3, 0) + (18) * mn(p, 3, 0, 3, 1, 2, 3, 0) + (6) * mn(p, 2, 2, 2, 1, 2, 3, 0) + (-6) * mn(p, 2, 0, 4, 1, 2, 3, 1));
    lemma_tm(p, 9, 2, 0, 1, 1, 0, 5, 1, -1, 3, 0, 0, 0, 0, 0, 0);
    assert(t3 * s0 == (-9) * mn(p, 5, 0, 1, 1, 0, 5, 1));
    lemma_tm(p, 9, 2, 0, 1, 1, 0, 5, 1, 3, 1, 0, 2, 0, 0, 0, 0);
    assert(t3 * s1 == (27) * mn(p, 3, 0, 3, 1, 0, 5, 1));
    lemma_tm(p, 9, 2, 0, 1, 1, 0, 5, 1, 1, 0, 2, 1, 0, 0, 0, 0);
    assert(t3 * s2 == (9) * mn(p, 2, 2, 2, 1, 0, 5, 1));
    lemma_tm(p, 9, 2, 0, 1, 1, 0, 5, 1, -1, 0, 0, 3, 0, 0, 0, 1);
    assert(t3 * s3 == (-9) * mn(p, 2, 0, 4, 1, 0, 5, 2));
    assert(t3 * q == (-9) * mn(p, 5, 0, 1, 1, 0, 5, 1) + (27) * mn(p, 3, 0, 3, 1, 0, 5, 1) + (9) * mn(p, 2, 2, 2, 1, 0, 5, 1) + (-9) * mn(p, 2, 0, 4, 1, 0, 5, 2));
    lemma_tm(p, -9, 2, 0, 1, 0, 0, 6, 0, -1, 3, 0, 0, 0, 0, 0, 0);
    assert(t4 * s0 == (9) * mn(p, 5, 0, 1, 0, 0, 6, 0));
    lemma_tm(p, -9, 2, 0, 1, 0, 0, 6, 0, 3, 1, 0, 2, 0, 0, 0, 0);
    assert(t4 * s1 == (-27) * mn(p, 3, 0, 3, 0, 0, 6, 0));
    lemma_tm(p, -9, 2, 0, 1, 0, 0, 6, 0, 1, 0, 2, 1, 0, 0, 0, 0);
    assert(t4 * s2 == (-9) * mn(p, 2, 2, 2, 0, 0, 6, 0));
    lemma_tm(p, -9, 2, 0, 1, 0, 0, 6, 0, -1, 0, 0, 3, 0, 0, 0, 1);
    assert(t4 * s3 == (9) * mn(p, 2, 0, 4, 0, 0, 6, 1));
    assert(t4 * q == (9) * mn(p, 5, 0, 1, 0, 0, 6, 0) + (-27) * mn(p, 3, 0, 3, 0, 0, 6, 0) + (-9) * mn(p, 2, 2, 2, 0, 0, 6, 0) + (9) * mn(p, 2, 0, 4, 0, 0, 6, 1));
    lemma_tm(p, -3, 1, 2, 0, 2, 0, 4, 0, -1, 3, 0, 0, 0, 0, 0, 0);
    assert(t5 * s0 == (3) * mn(p, 4, 2, 0, 2, 0, 4, 0));
    lemma_tm(p, -3, 1, 2, 0, 2, 0, 4, 0, 3, 1, 0, 2, 0, 0, 0, 0);
    assert(t5 * s1 == (-9) * mn(p, 2, 2, 2, 2, 0, 4, 0));
    lemma_tm(p, -3, 1, 2, 0, 2, 0, 4, 0, 1, 0, 2, 1, 0, 0, 0, 0);
    assert(t5 * s2 == (-3) * mn(p, 1, 4, 1, 2, 0, 4, 0));
    lemma_tm(p, -3, 1, 2, 0, 2, 0, 4, 0, -1, 0, 0, 3, 0, 0, 0, 1);
    assert(t5 * s3 == (3) * mn(p, 1, 2, 3, 2, 0, 4, 1));
    assert(t5 * q == (3) * mn(p, 4, 2, 0, 2, 0, 4, 0) + (-9) * mn(p, 2, 2, 2, 2, 0, 4, 0) + (-3) * mn(p, 1, 4, 1, 2, 0, 4, 0) + (3) * mn(p, 1, 2, 3, 2, 0, 4, 1));
    lemma_tm(p, 3, 1, 2, 0, 0, 0, 6, 0, -1, 3, 0, 0, 0, 0, 0, 0);
    assert(t6 * s0 == (-3) * mn(p, 4, 2, 0, 0, 0, 6, 0));
    lemma_tm(p, 3, 1, 2, 0, 0, 0, 6, 0, 3, 1, 0, 2, 0, 0, 0, 0);
    assert(t6 * s1 == (9) * mn(p, 2, 2, 2, 0, 0, 6, 0));
    lemma_tm(p, 3, 1, 2, 0, 0, 0, 6, 0, 1, 0, 2, 1, 0, 0, 0, 0);
    assert(t6 * s2 == (3) * mn(p, 1, 4, 1, 0, 0, 6, 0));
    lemma_tm(p, 3, 1, 2, 0, 0, 0, 6, 0, -1, 0, 0, 3, 0, 0, 0, 1);
    assert(t6 * s3 == (-3) * mn(p, 1, 2, 3, 0, 0, 6, 1));
    assert(t6 * q == (-3) * mn(p, 4, 2, 0, 0, 0, 6, 0) + (9) * mn(p, 2, 2, 2, 0, 0, 6, 0) + (3) * mn(p, 1, 4, 1, 0, 0, 6, 0) + (-3) * mn(p, 1, 2, 3, 0, 0, 6, 1));
    lemma_tm(p, 6, 1, 1, 1, 2, 1, 3, 0, -1, 3, 0, 0, 0, 0, 0, 0);
    assert(t7 * s0 == (-6) * mn(p, 4, 1, 1, 2, 1, 3, 0));
    lemma_tm(p, 6, 1, 1, 1, 2, 1, 3, 0, 3, 1, 0, 2, 0, 0, 0, 0);
    assert(t7 * s1 == (18) * mn(p, 2, 1, 3, 2, 1, 3, 0));
    lemma_tm(p, 6, 1, 1, 1, 2, 1, 3, 0, 1, 0, 2, 1, 0, 0, 0, 0);
    assert(t7 * s2 == (6) * mn(p, 1, 3, 2, 2, 1, 3, 0));
    lemma_tm(p, 6, 1, 1, 1, 2, 1, 3, 0, -1, 0, 0, 3, 0, 0, 0, 1);
    assert(t7 * s3 == (-6) * mn(p, 1, 1, 4, 2, 1, 3, 1));
    assert(t7 * q == (-6) * mn(p, 4, 1, 1, 2, 1, 3, 0) + (18) * mn(p, 2, 1, 3, 2, 1, 3, 0) + (6) * mn(p, 1, 3, 2, 2, 1, 3, 0) + (-6) * mn(p, 1, 1, 4, 2, 1, 3, 1));
    lemma_tm(p, 27, 1, 0, 2, 3, 0, 3, 0, -1, 3, 0, 0, 0, 0, 0, 0);
    assert(t8 * s0 == (-27) * mn(p, 4, 0, 2, 3, 0, 3, 0));
    lemma_tm(p, 27, 1, 0, 2, 3, 0, 3, 0, 3, 1, 0, 2, 0, 0, 0, 0);
    assert(t8 * s1 == (81) * mn(p, 2, 0, 4, 3, 0, 3, 0));
    lemma_tm(p, 27, 1, 0, 2, 3, 0, 3, 0, 1, 0, 2, 1, 0, 0, 0, 0);
    assert(t8 * s2 == (27) * mn(p, 1, 2, 3, 3, 0, 3, 0));
    lemma_tm(p, 27, 1, 0, 2, 3, 0, 3, 0, -1, 0, 0, 3, 0, 0, 0, 1);
    assert(t8 * s3 == (-27) * mn(p, 1, 0, 5, 3, 0, 3, 1));
    assert(t8 * q == (-27) * mn(p, 4, 0, 2, 3, 0, 3, 0) + (81) * mn(p, 2, 0, 4, 3, 0, 3, 0) + (27) * mn(p, 1, 2, 3, 3, 0, 3, 0) + (-27) * mn(p, 1, 0, 5, 3, 0, 3, 1));
    lemma_tm(p, -9, 1, 0, 2, 2, 2, 2, 0, -1, 3, 0, 0, 0, 0, 0, 0);
    assert(t9 * s0 == (9) * mn(p, 4, 0, 2, 2, 2, 2, 0));
    lemma_tm(p, -9, 1, 0, 2, 2, 2, 2, 0, 3, 1, 0, 2, 0, 0, 0, 0);
    assert(t9 * s1 == (-27) * mn(p, 2, 0, 4, 2, 2, 2, 0));
    lemma_tm(p, -9, 1, 0, 2, 2, 2, 2, 0, 1, 0, 2, 1, 0, 0, 0, 0);
    assert(t9 * s2 == (-9) * mn(p, 1, 2, 3, 2, 2, 2, 0));
    lemma_tm(p, -9, 1, 0, 2, 2, 2, 2, 0, -1, 0, 0, 3, 0, 0, 0, 1);
    assert(t9 * s3 == (9) * mn(p, 1, 0, 5, 2, 2, 2, 1));
    assert(t9 * q == (9) * mn(p, 4, 0, 2, 2, 2, 2, 0) + (-27) * mn(p, 2, 0, 4, 2, 2, 2, 0) + (-9) * mn(p, 1, 2, 3, 2, 2, 2, 0) + (9) * mn(p, 1, 0, 5, 2, 2, 2, 1));
    lemma_tm(p, -18, 1, 0, 2, 2, 0, 4, 1, -1, 3, 0, 0, 0, 0, 0, 0);
    assert(t10 * s0 == (18) * mn(p, 4, 0, 2, 2, 0, 4, 1));
    lemma_tm(p, -18, 1, 0, 2, 2, 0, 4, 1, 3, 1, 0, 2, 0, 0, 0, 0);
    assert(t10 * s1 == (-54) * mn(p, 2, 0, 4, 2, 0, 4, 1));
    lemma_tm(p, -18, 1, 0, 2, 2, 0, 4, 1, 1, 0, 2, 1, 0, 0, 0, 0);
    assert(t10 * s2 == (-18) * mn(p, 1, 2, 3, 2, 0, 4, 1));
    lemma_tm(p, -18, 1, 0, 2, 2, 0, 4, 1, -1, 0, 0, 3, 0, 0, 0, 1);
    assert(t10 * s3 == (18) * mn(p, 1, 0, 5, 2, 0, 4, 2));
    assert(t10 * q == (18) * mn(p, 4, 0, 2, 2, 0, 4, 1) + (-54) * mn(p, 2, 0, 4, 2, 0, 4, 1) + (-18) * mn(p, 1, 2, 3, 2, 0, 4, 1) + (18) * mn(p, 1, 0, 5, 2, 0, 4, 2));
    lemma_tm(p, -9, 1, 0, 2, 1, 0, 5, 0, -1, 3, 0, 0, 0, 0, 0, 0);
    assert(t11 * s0 == (9) * mn(p, 4, 0, 2, 1, 0, 5, 0));
    lemma_tm(p, -9, 1, 0, 2, 1, 0, 5, 0, 3, 1, 0, 2, 0, 0, 0, 0);
    assert(t11 * s1 == (-27) * mn(p, 2, 0, 4, 1, 0, 5, 0));
    lemma_tm(p, -9, 1, 0, 2, 1, 0, 5, 0, 1, 0, 2, 1, 0, 0, 0, 0);
    assert(t11 * s2 == (-9) * mn(p, 1, 2, 3, 1, 0, 5, 0));
    lemma_tm(p, -9, 1, 0, 2, 1, 0, 5, 0, -1, 0, 0, 3, 0, 0, 0, 1);
    assert(t11 * s3 == (9) * mn(p, 1, 0, 5, 1, 0, 5, 1));
    assert(t11 * q == (9) * mn(p, 4, 0, 2, 1, 0, 5, 0) + (-27) * mn(p, 2, 0, 4, 1, 0, 5, 0) + (-9) * mn(p, 1, 2, 3, 1, 0, 5, 0) + (9) * mn(p, 1, 0, 5, 1, 0, 5, 1));
    lemma_tm(p, -12, 1, 0, 2, 0, 2, 4, 0, -1, 3, 0, 0, 0, 0, 0, 0);
    assert(t12 * s0 == (12) * mn(p, 4, 0, 2, 0, 2, 4, 0));
    lemma_tm(p, -12, 1, 0, 2, 0, 2, 4, 0, 3, 1, 0, 2, 0, 0, 0, 0);
    assert(t12 * s1 == (-36) * mn(p, 2, 0, 4, 0, 2, 4, 0));
    lemma_tm(p, -12, 1, 0, 2, 0, 2, 4, 0, 1, 0, 2, 1, 0, 0, 0, 0);
    assert(t12 * s2 == (-12) * mn(p, 1, 2, 3, 0, 2, 4, 0));
    lemma_tm(p, -12, 1, 0, 2, 0, 2, 4, 0, -1, 0, 0, 3, 0, 0, 0, 1);
    assert(t12 * s3 == (12) * mn(p, 1, 0, 5, 0, 2, 4, 1));
    assert(t12 * q == (12) * mn(p, 4, 0, 2, 0, 2, 4, 0) + (-36) * mn(p, 2, 0, 4, 0, 2, 4, 0) + (-12) * mn(p, 1, 2, 3, 0, 2, 4, 0) + (12) * mn(p, 1, 0, 5, 0, 2, 4, 1));
    lemma_tm(p, 9, 1, 0, 2, 0, 0, 6, 1, -1, 3, 0, 0, 0, 0, 0, 0);
    assert(t13 * s0 == (-9) * mn(p, 4, 0, 2, 0, 0, 6, 1));
    lemma_tm(p, 9, 1, 0, 2, 0, 0, 6, 1, 3, 1, 0, 2, 0, 0, 0, 0);
    assert(t13 * s1 == (27) * mn(p, 2, 0, 4, 0, 0, 6, 1));
    lemma_tm(p, 9, 1, 0, 2, 0, 0, 6, 1, 1, 0, 2, 1, 0, 0, 0, 0);
    assert(t13 * s2 == (9) * mn(p, 1, 2, 3, 0, 0, 6, 1));
    lemma_tm(p, 9, 1, 0, 2, 0, 0, 6, 1, -1, 0, 0, 3, 0, 0, 0, 1);
    assert(t13 * s3 == (-9) * mn(p, 1, 0, 5, 0, 0, 6, 2));
    assert(t13 * q == (-9) * mn(p, 4, 0, 2, 0, 0, 6, 1) + (27) * mn(p, 2, 0, 4, 0, 0, 6, 1) + (9) * mn(p, 1, 2, 3, 0, 0, 6, 1) + (-9) * mn(p, 1, 0, 5, 0, 0, 6, 2));
    lemma_tm(p, -1, 0, 3, 0, 0, 1, 5, 0, -1, 3, 0, 0, 0, 0, 0, 0);
    assert(t14 * s0 == (1) * mn(p, 3, 3, 0, 0, 1, 5, 0));
    lemma_tm(p, -1, 0, 3, 0, 0, 1, 5, 0, 3, 1, 0, 2, 0, 0, 0, 0);
    assert(t14 * s1 == (-3) * mn(p, 1, 3, 2, 0, 1, 5, 0));
    lemma_tm(p, -1, 0, 3, 0, 0, 1, 5, 0, 1, 0, 2, 1, 0, 0, 0, 0);
    assert(t14 * s2 == (-1) * mn(p, 0, 5, 1, 0, 1, 5, 0));
    lemma_tm(p, -1, 0, 3, 0, 0, 1, 5, 0, -1, 0, 0, 3, 0, 0, 0, 1);
    assert(t14 * s3 == (1) * mn(p, 0, 3, 3, 0, 1, 5, 1));
    assert(t14 * q == (1) * mn(p, 3, 3, 0, 0, 1, 5, 0) + (-3) * mn(p, 1, 3, 2, 0, 1, 5, 0) + (-1) * mn(p, 0, 5, 1, 0, 1, 5, 0) + (1) * mn(p, 0, 3, 3, 0, 1, 5, 1));
    lemma_tm(p, 6, 0, 2, 1, 1, 0, 5, 0, -1, 3, 0, 0, 0, 0, 0, 0);
    assert(t15 * s0 == (-6) * mn(p, 3, 2, 1, 1, 0, 5, 0));
    lemma_tm(p, 6, 0, 2, 1, 1, 0, 5, 0, 3, 1, 0, 2, 0, 0, 0, 0);
    assert(t15 * s1 == (18) * mn(p, 1, 2, 3, 1, 0, 5, 0));
    lemma_tm(p, 6, 0, 2, 1, 1, 0, 5, 0, 1, 0, 2, 1, 0, 0, 0, 0);
    assert(t15 * s2 == (6) * mn(p, 0, 4, 2, 1, 0, 5, 0));
    lemma_tm(p, 6, 0, 2, 1, 1, 0, 5, 0, -1, 0, 0, 3, 0, 0, 0, 1);
    assert(t15 * s3 == (-6) * mn(p, 0, 2, 4, 1, 0, 5, 1));
    assert(t15 * q == (-6) * mn(p, 3, 2, 1, 1, 0, 5, 0) + (18) * mn(p, 1, 2, 3, 1, 0, 5, 0) + (6) * mn(p, 0, 4, 2, 1, 0, 5, 0) + (-6) * mn(p, 0, 2, 4, 1, 0, 5, 1));
    lemma_tm(p, 2, 0, 2, 1, 0, 2, 4, 0, -1, 3, 0, 0, 0, 0, 0, 0);
    assert(t16 * s0 == (-2) * mn(p, 3, 2, 1, 0, 2, 4, 0));
    lemma_tm(p, 2, 0, 2, 1, 0, 2, 4, 0, 3, 1, 0, 2, 0, 0, 0, 0);
    assert(t16 * s1 == (6) * mn(p, 1, 2, 3, 0, 2, 4, 0));
    lemma_tm(p, 2, 0, 2, 1, 0, 2, 4, 0, 1, 0, 2, 1, 0, 0, 0, 0);
    assert(t16 * s2 == (2) * mn(p, 0, 4, 2, 0, 2, 4, 0));
    lemma_tm(p, 2, 0, 2, 1, 0, 2, 4, 0, -1, 0, 0, 3, 0, 0, 0, 1);
    assert(t16 * s3 == (-2) * mn(p, 0, 2, 4, 0, 2, 4, 1));
    assert(t16 * q == (-2) * mn(p, 3, 2, 1, 0, 2, 4, 0) + (6) * mn(p, 1, 2, 3, 0, 2, 4, 0) + (2) * mn(p, 0, 4, 2, 0, 2, 4, 0) + (-2) * mn(p, 0, 2, 4, 0, 2, 4, 1));
    lemma_tm(p, -3, 0, 2, 1, 0, 0, 6, 1, -1, 3, 0, 0, 0, 0, 0, 0);
    assert(t17 * s0 == (3) * mn(p, 3, 2, 1, 0, 0, 6, 1));
    lemma_tm(p, -3, 0, 2, 1, 0, 0, 6, 1, 3, 1, 0, 2, 0, 0, 0, 0);
    assert(t17 * s1 == (-9) * mn(p, 1, 2, 3, 0, 0, 6, 1));
    lemma_tm(p, -3, 0, 2, 1, 0, 0, 6, 1, 1, 0, 2, 1, 0, 0, 0, 0);
    assert(t17 * s2 == (-3) * mn(p, 0, 4, 2, 0, 0, 6, 1));
    lemma_tm(p, -3, 0, 2, 1, 0, 0, 6, 1, -1, 0, 0, 3, 0, 0, 0, 1);
    assert(t17 * s3 == (3) * mn(p, 0, 2, 4, 0, 0, 6, 2));
    assert(t17 * q == (3) * mn(p, 3, 2, 1, 0, 0, 6, 1) + (-9) * mn(p, 1, 2, 3, 0, 0, 6, 1) + (-3) * mn(p, 0, 4, 2, 0, 0, 6, 1) + (3) * mn(p, 0, 2, 4, 0, 0, 6, 2));
    lemma_tm(p, -9, 0, 1, 2, 1, 1, 4, 0, -1, 3, 0, 0, 0, 0, 0, 0);
    assert(t18 * s0 == (9) * mn(p, 3, 1, 2, 1, 1, 4, 0));
    lemma_tm(p, -9, 0, 1, 2, 1, 1, 4, 0, 3, 1, 0, 2, 0, 0, 0, 0);
    assert(t18 * s1 == (-27) * mn(p, 1, 1, 4, 1, 1, 4, 0));
    lemma_tm(p, -9, 0, 1, 2, 1, 1, 4, 0, 1, 0, 2, 1, 0, 0, 0, 0);
    assert(t18 * s2 == (-9) * mn(p, 0, 3, 3, 1, 1, 4, 0));
    lemma_tm(p, -9, 0, 1, 2, 1, 1, 4, 0, -1, 0, 0, 3, 0, 0, 0, 1);
    assert(t18 * s3 == (9) * mn(p, 0, 1, 5, 1, 1, 4, 1));
    assert(t18 * q == (9) * mn(p, 3, 1, 2, 1, 1, 4, 0) + (-27) * mn(p, 1, 1, 4, 1, 1, 4, 0) + (-9) * mn(p, 0, 3, 3, 1, 1, 4, 0) + (9) * mn(p, 0, 1, 5, 1, 1, 4, 1));
    lemma_tm(p, 2, 0, 1, 2, 0, 3, 3, 0, -1, 3, 0, 0, 0, 0, 0, 0);
    assert(t19 * s0 == (-2) * mn(p, 3, 1, 2, 0, 3, 3, 0));
    lemma_tm(p, 2, 0, 1, 2, 0, 3, 3, 0, 3, 1, 0, 2, 0, 0, 0, 0);
    assert(t19 * s1 == (6) * mn(p, 1, 1, 4, 0, 3, 3, 0));
    lemma_tm(p, 2, 0, 1, 2, 0, 3, 3, 0, 1, 0, 2, 1, 0, 0, 0, 0);
    assert(t19 * s2 == (2) * mn(p, 0, 3, 3, 0, 3, 3, 0));
    lemma_tm(p, 2, 0, 1, 2, 0, 3, 3, 0, -1, 0, 0, 3, 0, 0, 0, 1);
    assert(t19 * s3 == (-2) * mn(p, 0, 1, 5, 0, 3, 3, 1));
    assert(t19 * q == (-2) * mn(p, 3, 1, 2, 0, 3, 3, 0) + (6) * mn(p, 1, 1, 4, 0, 3, 3, 0) + (2) * mn(p, 0, 3, 3, 0, 3, 3, 0) + (-2) * mn(p, 0, 1, 5, 0, 3, 3, 1));
    lemma_tm(p, 3, 0, 1, 2, 0, 1, 5, 1, -1, 3, 0, 0, 0, 0, 0, 0);
    assert(t20 * s0 == (-3) * mn(p, 3, 1, 2, 0, 1, 5, 1));
    lemma_tm(p, 3, 0, 1, 2, 0, 1, 5, 1, 3, 1, 0, 2, 0, 0, 0, 0);
    assert(t20 * s1 == (9) * mn(p, 1, 1, 4, 0, 1, 5, 1));
    lemma_tm(p, 3, 0, 1, 2, 0, 1, 5, 1, 1, 0, 2, 1, 0, 0, 0, 0);
    assert(t20 * s2 == (3) * mn(p, 0, 3, 3, 0, 1, 5, 1));
    lemma_tm(p, 3, 0, 1, 2, 0, 1, 5, 1, -1, 0, 0, 3, 0, 0, 0, 1);
    assert(t20 * s3 == (-3) * mn(p, 0, 1, 5, 0, 1, 5, 2));
    assert(t20 * q == (-3) * mn(p, 3, 1, 2, 0, 1, 5, 1) + (9) * mn(p, 1, 1, 4, 0, 1, 5, 1) + (3) * mn(p, 0, 3, 3, 0, 1, 5, 1) + (-3) * mn(p, 0, 1, 5, 0, 1, 5, 2));
    lemma_tm(p, -27, 0, 0, 3, 4, 0, 2, 0, -1, 3, 0, 0, 0, 0, 0, 0);
    assert(t21 * s0 == (27) * mn(p, 3, 0, 3, 4, 0, 2, 0));
    lemma_tm(p, -27, 0, 0, 3, 4, 0, 2, 0, 3, 1, 0, 2, 0, 0, 0, 0);
    assert(t21 * s1 == (-81) * mn(p, 1, 0, 5, 4, 0, 2, 0));
    lemma_tm(p, -27, 0, 0, 3, 4, 0, 2, 0, 1, 0, 2, 1, 0, 0, 0, 0);
    assert(t21 * s2 == (-27) * mn(p, 0, 2, 4, 4, 0, 2, 0));
    lemma_tm(p, -27, 0, 0, 3, 4, 0, 2, 0, -1, 0, 0, 3, 0, 0, 0, 1);
    assert(t21 * s3 == (27) * mn(p, 0, 0, 6, 4, 0, 2, 1));
    assert(t21 * q == (27) * mn(p, 3, 0, 3, 4, 0, 2, 0) + (-81) * mn(p, 1, 0, 5, 4, 0, 2, 0) + (-27) * mn(p, 0, 2, 4, 4, 0, 2, 0) + (27) * mn(p, 0, 0, 6, 4, 0, 2, 1));
    lemma_tm(p, 45, 0, 0, 3, 2, 0, 4, 0, -1, 3, 0, 0, 0, 0, 0, 0);
    assert(t22 * s0 == (-45) * mn(p, 3, 0, 3, 2, 0, 4, 0));
    lemma_tm(p, 45, 0, 0, 3, 2, 0, 4, 0, 3, 1, 0, 2, 0, 0, 0, 0);
    assert(t22 * s1 == (135) * mn(p, 1, 0, 5, 2, 0, 4, 0));
    lemma_tm(p, 45, 0, 0, 3, 2, 0, 4, 0, 1, 0, 2, 1, 0, 0, 0, 0);
    assert(t22 * s2 == (45) * mn(p, 0, 2, 4, 2, 0, 4, 0));
    lemma_tm(p, 45, 0, 0, 3, 2, 0, 4, 0, -1, 0, 0, 3, 0, 0, 0, 1);
    assert(t22 * s3 == (-45) * mn(p, 0, 0, 6, 2, 0, 4, 1));
    assert(t22 * q == (-45) * mn(p, 3, 0, 3, 2, 0, 4, 0) + (135) * mn(p, 1, 0, 5, 2, 0, 4, 0) + (45) * mn(p, 0, 2, 4, 2, 0, 4, 0) + (-45) * mn(p, 0, 0, 6, 2, 0, 4, 1));
    lemma_tm(p, 30, 0, 0, 3, 1, 2, 3, 0, -1, 3, 0, 0, 0, 0, 0, 0);
    assert(t23 * s0 == (-30) * mn(p, 3, 0, 3, 1, 2, 3, 0));
    lemma_tm(p, 30, 0, 0, 3, 1, 2, 3, 0, 3, 1, 0, 2, 0, 0, 0, 0);
    assert(t23 * s1 == (90) * mn(p, 1, 0, 5, 1, 2, 3, 0));
    lemma_tm(p, 30, 0, 0, 3, 1, 2, 3, 0, 1, 0, 2, 1, 0, 0, 0, 0);
    assert(t23 * s2 == (30) * mn(p, 0, 2, 4, 1, 2, 3, 0));
    lemma_tm(p, 30, 0, 0, 3, 1, 2, 3, 0, -1, 0, 0, 3, 0, 0, 0, 1);
    assert(t23 * s3 == (-30) * mn(p, 0, 0, 6, 1, 2, 3, 1));
    assert(t23 * q == (-30) * mn(p, 3, 0, 3, 1, 2, 3, 0) + (90) * mn(p, 1, 0, 5, 1, 2, 3, 0) + (30) * mn(p, 0, 2, 4, 1, 2, 3, 0) + (-30) * mn(p, 0, 0, 6, 1, 2, 3, 1));
    lemma_tm(p, 9, 0, 0, 3, 1, 0, 5, 1, -1, 3, 0, 0, 0, 0, 0, 0);
    assert(t24 * s0 == (-9) * mn(p, 3, 0, 3, 1, 0, 5, 1));
    lemma_tm(p, 9, 0, 0, 3, 1, 0, 5, 1, 3, 1, 0, 2, 0, 0, 0, 0);
    assert(t24 * s1 == (27) * mn(p, 1, 0, 5, 1, 0, 5, 1));
    lemma_tm(p, 9, 0, 0, 3, 1, 0, 5, 1, 1, 0, 2, 1, 0, 0, 0, 0);
    assert(t24 * s2 == (9) * mn(p, 0, 2, 4, 1, 0, 5, 1));
    lemma_tm(p, 9, 0, 0, 3, 1, 0, 5, 1, -1, 0, 0, 3, 0, 0, 0, 1);
    assert(t24 * s3 == (-9) * mn(p, 0, 0, 6, 1, 0, 5, 2));
    assert(t24 * q == (-9) * mn(p, 3, 0, 3, 1, 0, 5, 1) + (27) * mn(p, 1, 0, 5, 1, 0, 5, 1) + (9) * mn(p, 0, 2, 4, 1, 0, 5, 1) + (-9) * mn(p, 0, 0, 6, 1, 0, 5, 2));
    lemma_tm(p, 6, 0, 0, 3, 0, 2, 4, 1, -1, 3, 0, 0, 0, 0, 0, 0);
    assert(t25 * s0 == (-6) * mn(p, 3, 0, 3, 0, 2, 4, 1));
    lemma_tm(p, 6, 0, 0, 3, 0, 2, 4, 1, 3, 1, 0, 2, 0, 0, 0, 0);
    assert(t25 * s1 == (18) * mn(p, 1, 0, 5, 0, 2, 4, 1));
    lemma_tm(p, 6, 0, 0, 3, 0, 2, 4, 1, 1, 0, 2, 1, 0, 0, 0, 0);
    assert(t25 * s2 == (6) * mn(p, 0, 2, 4, 0, 2, 4, 1));
    lemma_tm(p, 6, 0, 0, 3, 0, 2, 4, 1, -1, 0, 0, 3, 0, 0, 0, 1);
    assert(t25 * s3 == (-6) * mn(p, 0, 0, 6, 0, 2, 4, 2));
    assert(t25 * q == (-6) * mn(p, 3, 0, 3, 0, 2, 4, 1) + (18) * mn(p, 1, 0, 5, 0, 2, 4, 1) + (6) * mn(p, 0, 2, 4, 0, 2, 4, 1) + (-6) * mn(p, 0, 0, 6, 0, 2, 4, 2));
    lemma_tm(p, -9, 0, 0, 3, 0, 0, 6, 2, -1, 3, 0, 0, 0, 0, 0, 0);
    assert(t26 * s0 == (9) * mn(p, 3, 0, 3, 0, 0, 6, 2));
    lemma_tm(p, -9, 0, 0, 3, 0, 0, 6, 2, 3, 1, 0, 2, 0, 0, 0, 0);
    assert(t26 * s1 == (-27) * mn(p, 1, 0, 5, 0, 0, 6, 2));
    lemma_tm(p, -9, 0, 0, 3, 0, 0, 6, 2, 1, 0, 2, 1, 0, 0, 0, 0);
    assert(t26 * s2 == (-9) * mn(p, 0, 2, 4, 0, 0, 6, 2));
    lemma_tm(p, -9, 0, 0, 3, 0, 0, 6, 2, -1, 0, 0, 3, 0, 0, 0, 1);
    assert(t26 * s3 == (9) * mn(p, 0, 0, 6, 0, 0, 6, 3));
    assert(t26 * q == (9) * mn(p, 3, 0, 3, 0, 0, 6, 2) + (-27) * mn(p, 1, 0, 5, 0, 0, 6, 2) + (-9) * mn(p, 0, 2, 4, 0, 0, 6, 2) + (9) * mn(p, 0, 0, 6, 0, 0, 6, 3));
    assert(pp26 * q == (3) * mn(p, 5, 1, 0, 1, 1, 4, 0) + (9) * mn(p, 5, 0, 1, 2, 0, 4, 0) + (-6) * mn(p, 5, 0, 1, 1, 2, 3, 0) + (-9) * mn(p, 5, 0, 1, 1, 0, 5, 1) + (9) * mn(p, 5, 0, 1, 0, 0, 6, 0) + (3) * mn(p, 4, 2, 0, 2, 0, 4, 0) + (-3) * mn(p, 4, 2, 0, 0, 0, 6, 0) + (-6) * mn(p, 4, 1, 1, 2, 1, 3, 0) + (-27) * mn(p, 4, 0, 2, 3, 0, 3, 0) + (9) * mn(p, 4, 0, 2, 2, 2, 2, 0) + (18) * mn(p, 4, 0, 2, 2, 0, 4, 1) + (9) * mn(p, 4, 0, 2, 1, 0, 5, 0) + (12) * mn(p, 4, 0, 2, 0, 2, 4, 0) + (-9) * mn(p, 4, 0, 2, 0, 0, 6, 1) + (1) * mn(p, 3, 3, 0, 0, 1, 5, 0) + (-6) * mn(p, 3, 2, 1, 1, 0, 5, 0) + (-2) * mn(p, 3, 2, 1, 0, 2, 4, 0) + (3) * mn(p, 3, 2, 1, 0, 0, 6, 1) + (-2) * mn(p, 3, 1, 2, 0, 3, 3, 0) + (-3) * mn(p, 3, 1, 2, 0, 1, 5, 1) + (27) * mn(p, 3, 0, 3, 4, 0, 2, 0) + (-72) * mn(p, 3, 0, 3, 2, 0, 4, 0) + (-12) * mn(p, 3, 0, 3, 1, 2, 3, 0) + (18) * mn(p, 3, 0, 3, 1, 0, 5, 1) + (-6) * mn(p, 3, 0, 3, 0, 2, 4, 1) + (9) * mn(p, 3, 0, 3, 0, 0, 6, 2) + (-27) * mn(p, 3, 0, 3, 0, 0, 6, 0) + (-3) * mn(p, 2, 3, 1, 1, 1, 4, 0) + (-18) * mn(p, 2, 2, 2, 2, 0, 4, 0) + (6) * mn(p, 2, 2, 2, 1, 2, 3, 0) + (9) * mn(p, 2, 2, 2, 1, 0, 5, 1) + (18) * mn(p, 2, 1, 3, 2, 1, 3, 0) + (3) * mn(p, 2, 1, 3, 1, 1, 4, 1) + (81) * mn(p, 2, 0, 4, 3, 0, 3, 0) + (-27) * mn(p, 2, 0, 4, 2, 2, 2, 0) + (-45) * mn(p, 2, 0, 4, 2, 0, 4, 1) + (-6) * mn(p, 2, 0, 4, 1, 2, 3, 1) + (-9) * mn(p, 2, 0, 4, 1, 0, 5, 2) + (-27) * mn(p, 2, 0, 4, 1, 0, 5, 0) + (-36) * mn(p, 2, 0, 4, 0, 2, 4, 0) + (36) * mn(p, 2, 0, 4, 0, 0, 6, 1) + (-3) * mn(p, 1, 4, 1, 2, 0, 4, 0) + (3) * mn(p, 1, 4, 1, 0, 0, 6, 0) + (6) * mn(p, 1, 3, 2, 2, 1, 3, 0) + (-3) * mn(p, 1, 3, 2, 0, 1, 5, 0) + (27) * mn(p, 1, 2, 3, 3, 0, 3, 0) + (-9) * mn(p, 1, 2, 3, 2, 2, 2, 0) + (-15) * mn(p, 1, 2, 3, 2, 0, 4, 1) + (9) * mn(p, 1, 2, 3, 1, 0, 5, 0) + (-6) * mn(p, 1, 2, 3, 0, 2, 4, 0) + (-3) * mn(p, 1, 2, 3, 0, 0, 6, 1) + (-6) * mn(p, 1, 1, 4, 2, 1, 3, 1) + (-27) * mn(p, 1, 1, 4, 1, 1, 4, 0) + (6) * mn(p, 1, 1, 4, 0, 3, 3, 0) + (9) * mn(p, 1, 1, 4, 0, 1, 5, 1) + (-81) * mn(p, 1, 0, 5, 4, 0, 2, 0) + (-27) * mn(p, 1, 0, 5, 3, 0, 3, 1) + (9) * mn(p, 1, 0, 5, 2, 2, 2, 1) + (18) * mn(p, 1, 0, 5, 2, 0, 4, 2) + (135) * mn(p, 1, 0, 5, 2, 0, 4, 0) + (90) * mn(p, 1, 0, 5, 1, 2, 3, 0) + (36) * mn(p, 1, 0, 5, 1, 0, 5, 1) + (30) * mn(p, 1, 0, 5, 0, 2, 4, 1) + (-36) * mn(p, 1, 0, 5, 0, 0, 6, 2) + (-1) * mn(p, 0, 5, 1, 0, 1, 5, 0) + (6) * mn(p, 0, 4, 2, 1, 0, 5, 0) + (2) * mn(p, 0, 4, 2, 0, 2, 4, 0) + (-3) * mn(p, 0, 4, 2, 0, 0, 6, 1) + (-9) * mn(p, 0, 3, 3, 1, 1, 4, 0) + (2) * mn(p, 0, 3, 3, 0, 3, 3, 0) + (4) * mn(p, 0, 3, 3, 0, 1, 5, 1) + (-27) * mn(p, 0, 2, 4, 4, 0, 2, 0) + (45) * mn(p, 0, 2, 4, 2, 0, 4, 0) + (30) * mn(p, 0, 2, 4, 1, 2, 3, 0) + (3) * mn(p, 0, 2, 4, 1, 0, 5, 1) + (4) * mn(p, 0, 2, 4, 0, 2, 4, 1) + (-6) * mn(p, 0, 2, 4, 0, 0, 6, 2) + (9) * mn(p, 0, 1, 5, 1, 1, 4, 1) + (-2) * mn(p, 0, 1, 5, 0, 3, 3, 1) + (-3) * mn(p, 0, 1, 5, 0, 1, 5, 2) + (27) * mn(p, 0, 0, 6, 4, 0, 2, 1) + (-45) * mn(p, 0, 0, 6, 2, 0, 4, 1) + (-30) * mn(p, 0, 0, 6, 1, 2, 3, 1) + (-9) * mn(p, 0, 0, 6, 1, 0, 5, 2) + (-6) * mn(p, 0, 0, 6, 0, 2, 4, 2) + (9) * mn(p, 0, 0, 6, 0, 0, 6, 3));
}

#[verifier::rlimit(100)]
proof fn am1_prod59(p: Pt)
    ensures
        ((9) * mn(p, 2, 2, 2, 1, 0, 2, 0) + (-6) * mn(p, 2, 1, 3, 1, 1, 1, 0) + (9) * mn(p, 2, 0, 4, 2, 0, 1, 0) + (3) * mn(p, 2, 0, 4, 1, 2, 0, 0) + (18) * mn(p, 2, 0, 4, 1, 0, 2, 1) + (36) * mn(p, 2, 0, 4, 0, 0, 3, 0) + (-6) * mn(p, 1, 2, 3, 2, 0, 1, 0) + (-3) * mn(p, 1, 2, 3, 0, 0, 3, 0) + (3) * mn(p, 1, 1, 4, 2, 1, 0, 0) + (9) * mn(p, 1, 1, 4, 0, 1, 2, 0) + (-9) * mn(p, 1, 0, 5, 2, 0, 1, 1) + (-72) * mn(p, 1, 0, 5, 1, 0, 2, 0) + (-6) * mn(p, 1, 0, 5, 0, 2, 1, 0) + (-36) * mn(p, 1, 0, 5, 0, 0, 3, 1) + (-2) * mn(p, 0, 3, 3, 0, 1, 2, 0) + (-15) * mn(p, 0, 2, 4, 1, 0, 2, 0) + (-2) * mn(p, 0, 2, 4, 0, 2, 1, 0) + (-6) * mn(p, 0, 2, 4, 0, 0, 3, 1) + (1) * mn(p, 0, 1, 5, 0, 3, 0, 0) + (-3) * mn(p, 0, 1, 5, 0, 1, 2, 1) + (9) * mn(p, 0, 0, 6, 2, 0, 1, 0) + (-3) * mn(p, 0, 0, 6, 1, 2, 0, 0) + (18) * mn(p, 0, 0, 6, 1, 0, 2, 1) + (3) * mn(p, 0, 0, 6, 0, 2, 1, 1) + (9) * mn(p, 0, 0, 6, 0, 0, 3, 2)) * ((-1) * mn(p, 0, 0, 0, 3, 0, 0, 0) + (3) * mn(p, 0, 0, 0, 1, 0, 2, 0) + (1) * mn(p, 0, 0, 0, 0, 2, 1, 0) + (-1) * mn(p, 0, 0, 0, 0, 0, 3, 1)) == (-9) * mn(p, 2, 2, 2, 4, 0, 2, 0) + (27) * mn(p, 2, 2, 2, 2, 0, 4, 0) + (9) * mn(p, 2, 2, 2, 1, 2, 3, 0) + (-9) * mn(p, 2, 2, 2, 1, 0, 5, 1) + (6) * mn(p, 2, 1, 3, 4, 1, 1, 0) + (-18) * mn(p, 2, 1, 3, 2, 1, 3, 0) + (-6) * mn(p, 2, 1, 3, 1, 3, 2, 0) + (6) * mn(p, 2, 1, 3, 1, 1, 4, 1) + (-9) * mn(p, 2, 0, 4, 5, 0, 1, 0) + (-3) * mn(p, 2, 0, 4, 4, 2, 0, 0) + (-18) * mn(p, 2, 0, 4, 4, 0, 2, 1) + (-9) * mn(p, 2, 0, 4, 3, 0, 3, 0) + (18) * mn(p, 2, 0, 4, 2, 2, 2, 0) + (45) * mn(p, 2, 0, 4, 2, 0, 4, 1) + (3) * mn(p, 2, 0, 4, 1, 4, 1, 0) + (15) * mn(p, 2, 0, 4, 1, 2, 3, 1) + (-18) * mn(p, 2, 0, 4, 1, 0, 5, 2) + (108) * mn(p, 2, 0, 4, 1, 0, 5, 0) + (36) * mn(p, 2, 0, 4, 0, 2, 4, 0) + (-36) * mn(p, 2, 0, 4, 0, 0, 6, 1) + (6) * mn(p, 1, 2, 3, 5, 0, 1, 0) + (-15) * mn(p, 1, 2, 3, 3, 0, 3, 0) + (-6) * mn(p, 1, 2, 3, 2, 2, 2, 0) + (6) * mn(p, 1, 2, 3, 2, 0, 4, 1) + (-9) * mn(p, 1, 2, 3, 1, 0, 5, 0) + (-3) * mn(p, 1, 2, 3, 0, 2, 4, 0) + (3) * mn(p, 1, 2, 3, 0, 0, 6, 1) + (-3) * mn(p, 1, 1, 4, 5, 1, 0, 0) + (3) * mn(p, 1, 1, 4, 2, 3, 1, 0) + (-3) * mn(p, 1, 1, 4, 2, 1, 3, 1) + (27) * mn(p, 1, 1, 4, 1, 1, 4, 0) + (9) * mn(p, 1, 1, 4, 0, 3, 3, 0) + (-9) * mn(p, 1, 1, 4, 0, 1, 5, 1) + (9) * mn(p, 1, 0, 5, 5, 0, 1, 1) + (72) * mn(p, 1, 0, 5, 4, 0, 2, 0) + (6) * mn(p, 1, 0, 5, 3, 2, 1, 0) + (9) * mn(p, 1, 0, 5, 3, 0, 3, 1) + (-9) * mn(p, 1, 0, 5, 2, 2, 2, 1) + (9) * mn(p, 1, 0, 5, 2, 0, 4, 2) + (-216) * mn(p, 1, 0, 5, 2, 0, 4, 0) + (-90) * mn(p, 1, 0, 5, 1, 2, 3, 0) + (-36) * mn(p, 1, 0, 5, 1, 0, 5, 1) + (-6) * mn(p, 1, 0, 5, 0, 4, 2, 0) + (-30) * mn(p, 1, 0, 5, 0, 2, 4, 1) + (36) * mn(p, 1, 0, 5, 0, 0, 6, 2) + (2) * mn(p, 0, 3, 3, 3, 1, 2, 0) + (-6) * mn(p, 0, 3, 3, 1, 1, 4, 0) + (-2) * mn(p, 0, 3, 3, 0, 3, 3, 0) + (2) * mn(p, 0, 3, 3, 0, 1, 5, 1) + (15) * mn(p, 0, 2, 4, 4, 0, 2, 0) + (2) * mn(p, 0, 2, 4, 3, 2, 1, 0) + (6) * mn(p, 0, 2, 4, 3, 0, 3, 1) + (-45) * mn(p, 0, 2, 4, 2, 0, 4, 0) + (-21) * mn(p, 0, 2, 4, 1, 2, 3, 0) + (-3) * mn(p, 0, 2, 4, 1, 0, 5, 1) + (-2) * mn(p, 0, 2, 4, 0, 4, 2, 0) + (-4) * mn(p, 0, 2, 4, 0, 2, 4, 1) + (6) * mn(p, 0, 2, 4, 0, 0, 6, 2) + (-1) * mn(p, 0, 1, 5, 3, 3, 0, 0) + (3) * mn(p, 0, 1, 5, 3, 1, 2, 1) + (3) * mn(p, 0, 1, 5, 1, 3, 2, 0) + (-9) * mn(p, 0, 1, 5, 1, 1, 4, 1) + (1) * mn(p, 0, 1, 5, 0, 5, 1, 0) + (-4) * mn(p, 0, 1, 5, 0, 3, 3, 1) + (3) * mn(p, 0, 1, 5, 0, 1, 5, 2) + (-9) * mn(p, 0, 0, 6, 5, 0, 1, 0) + (3) * mn(p, 0, 0, 6, 4, 2, 0, 0) + (-18) * mn(p, 0, 0, 6, 4, 0, 2, 1) + (-3) * mn(p, 0, 0, 6, 3, 2, 1, 1) + (-9) * mn(p, 0, 0, 6, 3, 0, 3, 2) + (27) * mn(p, 0, 0, 6, 3, 0, 3, 0) + (45) * mn(p, 0, 0, 6, 2, 0, 4, 1) + (-3) * mn(p, 0, 0, 6, 1, 4, 1, 0) + (30) * mn(p, 0, 0, 6, 1, 2, 3, 1) + (9) * mn(p, 0, 0, 6, 1, 0, 5, 2) + (3) * mn(p, 0, 0, 6, 0, 4, 2, 1) + (6) * mn(p, 0, 0, 6, 0, 2, 4, 2) + (-9) * mn(p, 0, 0, 6, 0, 0, 6, 3),
{
    let t0 = (9) * mn(p, 2, 2, 2, 1, 0, 2, 0);
    let t1 = (-6) * mn(p, 2, 1, 3, 1, 1, 1, 0);
    let t2 = (9) * mn(p, 2, 0, 4, 2, 0, 1, 0);
    let t3 = (3) * mn(p, 2, 0, 4, 1, 2, 0, 0);
    let t4 = (18) * mn(p, 2, 0, 4, 1, 0, 2, 1);
    let t5 = (36) * mn(p, 2, 0, 4, 0, 0, 3, 0);
    let t6 = (-6) * mn(p, 1, 2, 3, 2, 0, 1, 0);
    let t7 = (-3) * mn(p, 1, 2, 3, 0, 0, 3, 0);
    let t8 = (3) * mn(p, 1, 1, 4, 2, 1, 0, 0);
    let t9 = (9) * mn(p, 1, 1, 4, 0, 1, 2, 0);
    let t10 = (-9) * mn(p, 1, 0, 5, 2, 0, 1, 1);
    let t11 = (-72) * mn(p, 1, 0, 5, 1, 0, 2, 0);
    let t12 = (-6) * mn(p, 1, 0, 5, 0, 2, 1, 0);
    let t13 = (-36) * mn(p, 1, 0, 5, 0, 0, 3, 1);
    let t14 = (-2) * mn(p, 0, 3, 3, 0, 1, 2, 0);
    let t15 = (-15) * mn(p, 0, 2, 4, 1, 0, 2, 0);
    let t16 = (-2) * mn(p, 0, 2, 4, 0, 2, 1, 0);
    let t17 = (-6) * mn(p, 0, 2, 4, 0, 0, 3, 1);
    let t18 = (1) * mn(p, 0, 1, 5, 0, 3, 0, 0);
    let t19 = (-3) * mn(p, 0, 1, 5, 0, 1, 2, 1);
    let t20 = (9) * mn(p, 0, 0, 6, 2, 0, 1, 0);
    let t21 = (-3) * mn(p, 0, 0, 6, 1, 2, 0, 0);
    let t22 = (18) * mn(p, 0, 0, 6, 1, 0, 2, 1);
    let t23 = (3) * mn(p, 0, 0, 6, 0, 2, 1, 1);
    let t24 = (9) * mn(p, 0, 0, 6, 0, 0, 3, 2);
    let s0 = (-1) * mn(p, 0, 0, 0, 3, 0, 0, 0);
    let s1 = (3) * mn(p, 0, 0, 0, 1, 0, 2, 0);
    let s2 = (1) * mn(p, 0, 0, 0, 0, 2, 1, 0);
    let s3 = (-1) * mn(p, 0, 0, 0, 0, 0, 3, 1);
    let pp0 = t0;
    let pp1 = pp0 + t1;
    let pp2 = pp1 + t2;
    let pp3 = pp2 + t3;
    let pp4 = pp3 + t4;
    let pp5 = pp4 + t5;
    let pp6 = pp5 + t6;
    let pp7 = pp6 + t7;
    let pp8 = pp7 + t8;
    let pp9 = pp8 + t9;
    let pp10 = pp9 + t10;
    let pp11 = pp10 + t11;
    let pp12 = pp11 + t12;
    let pp13 = pp12 + t13;
    let pp14 = pp13 + t14;
    let pp15 = pp14 + t15;
    let pp16 = pp15 + t16;
    let pp17 = pp16 + t17;
    let pp18 = pp17 + t18;
    let pp19 = pp18 + t19;
    let pp20 = pp19 + t20;
    let pp21 = pp20 + t21;
    let pp22 = pp21 + t22;
    let pp23 = pp22 + t23;
    let pp24 = pp23 + t24;
    let qq0 = s0;
    let qq1 = qq0 + s1;
    let qq2 = qq1 + s2;
    let qq3 = qq2 + s3;
    let q = qq3;
    lemma_mul_is_distributive_add_other_way(q, pp0, t1);
    lemma_mul_is_distributive_add_other_way(q, pp1, t2);
    lemma_mul_is_distributive_add_other_way(q, pp2, t3);
    lemma_mul_is_distributive_add_other_way(q, pp3, t4);
    lemma_mul_is_distributive_add_other_way(q, pp4, t5);
    lemma_mul_is_distributive_add_other_way(q, pp5, t6);
    lemma_mul_is_distributive_add_other_way(q, pp6, t7);
    lemma_mul_is_distributive_add_other_way(q, pp7, t8);
    lemma_mul_is_distributive_add_other_way(q, pp8, t9);
    lemma_mul_is_distributive_add_other_way(q, pp9, t10);
    lemma_mul_is_distributive_add_other_way(q, pp10, t11);
    lemma_mul_is_distributive_add_other_way(q, pp11, t12);
    lemma_mul_is_distributive_add_other_way(q, pp12, t13);
    lemma_mul_is_distributive_add_other_way(q, pp13, t14);
    lemma_mul_is_distributive_add_other_way(q, pp14, t15);
    lemma_mul_is_distributive_add_other_way(q, pp15, t16);
    lemma_mul_is_distributive_add_other_way(q, pp16, t17);
    lemma_mul_is_distributive_add_other_way(q, pp17, t18);
    lemma_mul_is_distributive_add_other_way(q, pp18, t19);
    lemma_mul_is_distributive_add_other_way(q, pp19, t20);
    lemma_mul_is_distributive_add_other_way(q, pp20, t21);
    lemma_mul_is_distributive_add_other_way(q, pp21, t22);
    lemma_mul_is_distributive_add_other_way(q, pp22, t23);
    lemma_mul_is_distributive_add_other_way(q, pp23, t24);
    lemma_mul_is_distributive_add(t0, qq0, s1);
    lemma_mul_is_distributive_add(t0, qq1, s2);
    lemma_mul_is_distributive_add(t0, qq2, s3);
    lemma_mul_is_distributive_add(t1, qq0, s1);
    lemma_mul_is_distributive_add(t1, qq1, s2);
    lemma_mul_is_distributive_add(t1, qq2, s3);
    lemma_mul_is_distributive_add(t2, qq0, s1);
    lemma_mul_is_distributive_add(t2, qq1, s2);
    lemma_mul_is_distributive_add(t2, qq2, s3);
    lemma_mul_is_distributive_add(t3, qq0, s1);
    lemma_mul_is_distributive_add(t3, qq1, s2);
    lemma_mul_is_distributive_add(t3, qq2, s3);
    lemma_mul_is_distributive_add(t4, qq0, s1);
    lemma_mul_is_distributive_add(t4, qq1, s2);
    lemma_mul_is_distributive_add(t4, qq2, s3);
    lemma_mul_is_distributive_add(t5, qq0, s1);
    lemma_mul_is_distributive_add(t5, qq1, s2);
    lemma_mul_is_distributive_add(t5, qq2, s3);
    lemma_mul_is_distributive_add(t6, qq0, s1);
    lemma_mul_is_distributive_add(t6, qq1, s2);
    lemma_mul_is_distributive_add(t6, qq2, s3);
    lemma_mul_is_distributive_add(t7, qq0, s1);
    lemma_mul_is_distributive_add(t7, qq1, s2);
    lemma_mul_is_distributive_add(t7, qq2, s3);
    lemma_mul_is_distributive_add(t8, qq0, s1);
    lemma_mul_is_distributive_add(t8, qq1, s2);
    lemma_mul_is_distributive_add(t8, qq2, s3);
    lemma_mul_is_distributive_add(t9, qq0, s1);
    lemma_mul_is_distributive_add(t9, qq1, s2);
    lemma_mul_is_distributive_add(t9, qq2, s3);
    lemma_mul_is_distributive_add(t10, qq0, s1);
    lemma_mul_is_distributive_add(t10, qq1, s2);
    lemma_mul_is_distributive_add(t10, qq2, s3);
    lemma_mul_is_distributive_add(t11, qq0, s1);
    lemma_mul_is_distributive_add(t11, qq1, s2);
    lemma_mul_is_distributive_add(t11, qq2, s3);
    lemma_mul_is_distributive_add(t12, qq0, s1);
    lemma_mul_is_distributive_add(t12, qq1, s2);
    lemma_mul_is_distributive_add(t12, qq2, s3);
    lemma_mul_is_distributive_add(t13, qq0, s1);
    lemma_mul_is_distributive_add(t13, qq1, s2);
    lemma_mul_is_distributive_add(t13, qq2, s3);
    lemma_mul_is_distributive_add(t14, qq0, s1);
    lemma_mul_is_distributive_add(t14, qq1, s2);
    lemma_mul_is_distributive_add(t14, qq2, s3);
    lemma_mul_is_distributive_add(t15, qq0, s1);
    lemma_mul_is_distributive_add(t15, qq1, s2);
    lemma_mul_is_distributive_add(t15, qq2, s3);
    lemma_mul_is_distributive_add(t16, qq0, s1);
    lemma_mul_is_distributive_add(t16, qq1, s2);
    lemma_mul_is_distributive_add(t16, qq2, s3);
    lemma_mul_is_distributive_add(t17, qq0, s1);
    lemma_mul_is_distributive_add(t17, qq1, s2);
    lemma_mul_is_distributive_add(t17, qq2, s3);
    lemma_mul_is_distributive_add(t18, qq0, s1);
    lemma_mul_is_distributive_add(t18, qq1, s2);
    lemma_mul_is_distributive_add(t18, qq2, s3);
    lemma_mul_is_distributive_add(t19, qq0, s1);
    lemma_mul_is_distributive_add(t19, qq1, s2);
    lemma_mul_is_distributive_add(t19, qq2, s3);
    lemma_mul_is_distributive_add(t20, qq0, s1);
    lemma_mul_is_distributive_add(t20, qq1, s2);
    lemma_mul_is_distributive_add(t20, qq2, s3);
    lemma_mul_is_distributive_add(t21, qq0, s1);
    lemma_mul_is_distributive_add(t21, qq1, s2);
    lemma_mul_is_distributive_add(t21, qq2, s3);
    lemma_mul_is_distributive_add(t22, qq0, s1);
    lemma_mul_is_distributive_add(t22, qq1, s2);
    lemma_mul_is_distributive_add(t22, qq2, s3);
    lemma_mul_is_distributive_add(t23, qq0, s1);
    lemma_mul_is_distributive_add(t23, qq1, s2);
    lemma_mul_is_distributive_add(t23, qq2, s3);
    lemma_mul_is_distributive_add(t24, qq0, s1);
    lemma_mul_is_distributive_add(t24, qq1, s2);
    lemma_mul_is_distributive_add(t24, qq2, s3);
    lemma_tm(p, 9, 2, 2, 2, 1, 0, 2, 0, -1, 0, 0, 0, 3, 0, 0, 0);
    assert(t0 * s0 == (-9) * mn(p, 2, 2, 2, 4, 0, 2, 0));
    lemma_tm(p, 9, 2, 2, 2, 1, 0, 2, 0, 3, 0, 0, 0, 1, 0, 2, 0);
    assert(t0 * s1 == (27) * mn(p, 2, 2, 2, 2, 0, 4, 0));
    lemma_tm(p, 9, 2, 2, 2, 1, 0, 2, 0, 1, 0, 0, 0, 0, 2, 1, 0);
    assert(t0 * s2 == (9) * mn(p, 2, 2, 2, 1, 2, 3, 0));
    lemma_tm(p, 9, 2, 2, 2, 1, 0, 2, 0, -1, 0, 0, 0, 0, 0, 3, 1);
    assert(t0 * s3 == (-9) * mn(p, 2, 2, 2, 1, 0, 5, 1));
    assert(t0 * q == (-9) * mn(p, 2, 2, 2, 4, 0, 2, 0) + (27) * mn(p, 2, 2, 2, 2, 0, 4, 0) + (9) * mn(p, 2, 2, 2, 1, 2, 3, 0) + (-9) * mn(p, 2, 2, 2, 1, 0, 5, 1));
    lemma_tm(p, -6, 2, 1, 3, 1, 1, 1, 0, -1, 0, 0, 0, 3, 0, 0, 0);
    assert(t1 * s0 == (6) * mn(p, 2, 1, 3, 4, 1, 1, 0));
    lemma_tm(p, -6, 2, 1, 3, 1, 1, 1, 0, 3, 0, 0, 0, 1, 0, 2, 0);
    assert(t1 * s1 == (-18) * mn(p, 2, 1, 3, 2, 1, 3, 0));
    lemma_tm(p, -6, 2, 1, 3, 1, 1, 1, 0, 1, 0, 0, 0, 0, 2, 1, 0);
    assert(t1 * s2 == (-6) * mn(p, 2, 1, 3, 1, 3, 2, 0));
    lemma_tm(p, -6, 2, 1, 3, 1, 1, 1, 0, -1, 0, 0, 0, 0, 0, 3, 1);
    assert(t1 * s3 == (6) * mn(p, 2, 1, 3, 1, 1, 4, 1));
    assert(t1 * q == (6) * mn(p, 2, 1, 3, 4, 1, 1, 0) + (-18) * mn(p, 2, 1, 3, 2, 1, 3, 0) + (-6) * mn(p, 2, 1, 3, 1, 3, 2, 0) + (6) * mn(p, 2, 1, 3, 1, 1, 4, 1));
    lemma_tm(p, 9, 2, 0, 4, 2, 0, 1, 0, -1, 0, 0, 0, 3, 0, 0, 0);
    assert(t2 * s0 == (-9) * mn(p, 2, 0, 4, 5, 0, 1, 0));
    lemma_tm(p, 9, 2, 0, 4, 2, 0, 1, 0, 3, 0, 0, 0, 1, 0, 2, 0);
    assert(t2 * s1 == (27) * mn(p, 2, 0, 4, 3, 0, 3, 0));
    lemma_tm(p, 9, 2, 0, 4, 2, 0, 1, 0, 1, 0, 0, 0, 0, 2, 1, 0);
    assert(t2 * s2 == (9) * mn(p, 2, 0, 4, 2, 2, 2, 0));
    lemma_tm(p, 9, 2, 0, 4, 2, 0, 1, 0, -1, 0, 0, 0, 0, 0, 3, 1);
    assert(t2 * s3 == (-9) * mn(p, 2, 0, 4, 2, 0, 4, 1));
    assert(t2 * q == (-9) * mn(p, 2, 0, 4, 5, 0, 1, 0) + (27) * mn(p, 2, 0, 4, 3, 0, 3, 0) + (9) * mn(p, 2, 0, 4, 2, 2, 2, 0) + (-9) * mn(p, 2, 0, 4, 2, 0, 4, 1));
    lemma_tm(p, 3, 2, 0, 4, 1, 2, 0, 0, -1, 0, 0, 0, 3, 0, 0, 0);
    assert(t3 * s0 == (-3) * mn(p, 2, 0, 4, 4, 2, 0, 0));
    lemma_tm(p, 3, 2, 0, 4, 1, 2, 0, 0, 3, 0, 0, 0, 1, 0, 2, 0);
    assert(t3 * s1 == (9) * mn(p, 2, 0, 4, 2, 2, 2, 0));
    lemma_tm(p, 3, 2, 0, 4, 1, 2, 0, 0, 1, 0, 0, 0, 0, 2, 1, 0);
    assert(t3 * s2 == (3) * mn(p, 2, 0, 4, 1, 4, 1, 0));
    lemma_tm(p, 3, 2, 0, 4, 1, 2, 0, 0, -1, 0, 0, 0, 0, 0, 3, 1);
    assert(t3 * s3 == (-3) * mn(p, 2, 0, 4, 1, 2, 3, 1));
    assert(t3 * q == (-3) * mn(p, 2, 0, 4, 4, 2, 0, 0) + (9) * mn(p, 2, 0, 4, 2, 2, 2, 0) + (3) * mn(p, 2, 0, 4, 1, 4, 1, 0) + (-3) * mn(p, 2, 0, 4, 1, 2, 3, 1));
    lemma_tm(p, 18, 2, 0, 4, 1, 0, 2, 1, -1, 0, 0, 0, 3, 0, 0, 0);
    assert(t4 * s0 == (-18) * mn(p, 2, 0, 4, 4, 0, 2, 1));
    lemma_tm(p, 18, 2, 0, 4, 1, 0, 2, 1, 3, 0, 0, 0, 1, 0, 2, 0);
    assert(t4 * s1 == (54) * mn(p, 2, 0, 4, 2, 0, 4, 1));
    lemma_tm(p, 18, 2, 0, 4, 1, 0, 2, 1, 1, 0, 0, 0, 0, 2, 1, 0);
    assert(t4 * s2 == (18) * mn(p, 2, 0, 4, 1, 2, 3, 1));
    lemma_tm(p, 18, 2, 0, 4, 1, 0, 2, 1, -1, 0, 0, 0, 0, 0, 3, 1);
    assert(t4 * s3 == (-18) * mn(p, 2, 0, 4, 1, 0, 5, 2));
    assert(t4 * q == (-18) * mn(p, 2, 0, 4, 4, 0, 2, 1) + (54) * mn(p, 2, 0, 4, 2, 0, 4, 1) + (18) * mn(p, 2, 0, 4, 1, 2, 3, 1) + (-18) * mn(p, 2, 0, 4, 1, 0, 5, 2));
    lemma_tm(p, 36, 2, 0, 4, 0, 0, 3, 0, -1, 0, 0, 0, 3, 0, 0, 0);
    assert(t5 * s0 == (-36) * mn(p, 2, 0, 4, 3, 0, 3, 0));
    lemma_tm(p, 36, 2, 0, 4, 0, 0, 3, 0, 3, 0, 0, 0, 1, 0, 2, 0);
    assert(t5 * s1 == (108) * mn(p, 2, 0, 4, 1, 0, 5, 0));
    lemma_tm(p, 36, 2, 0, 4, 0, 0, 3, 0, 1, 0, 0, 0, 0, 2, 1, 0);
    assert(t5 * s2 == (36) * mn(p, 2, 0, 4, 0, 2, 4, 0));
    lemma_tm(p, 36, 2, 0, 4, 0, 0, 3, 0, -1, 0, 0, 0, 0, 0, 3, 1);
    assert(t5 * s3 == (-36) * mn(p, 2, 0, 4, 0, 0, 6, 1));
    assert(t5 * q == (-36) * mn(p, 2, 0, 4, 3, 0, 3, 0) + (108) * mn(p, 2, 0, 4, 1, 0, 5, 0) + (36) * mn(p, 2, 0, 4, 0, 2, 4, 0) + (-36) * mn(p, 2, 0, 4, 0, 0, 6, 1));
    lemma_tm(p, -6, 1, 2, 3, 2, 0, 1, 0, -1, 0, 0, 0, 3, 0, 0, 0);
    assert(t6 * s0 == (6) * mn(p, 1, 2, 3, 5, 0, 1, 0));
    lemma_tm(p, -6, 1, 2, 3, 2, 0, 1, 0, 3, 0, 0, 0, 1, 0, 2, 0);
    assert(t6 * s1 == (-18) * mn(p, 1, 2, 3, 3, 0, 3, 0));
    lemma_tm(p, -6, 1, 2, 3, 2, 0, 1, 0, 1, 0, 0, 0, 0, 2, 1, 0);
    assert(t6 * s2 == (-6) * mn(p, 1, 2, 3, 2, 2, 2, 0));
    lemma_tm(p, -6, 1, 2, 3, 2, 0, 1, 0, -1, 0, 0, 0, 0, 0, 3, 1);
    assert(t6 * s3 == (6) * mn(p, 1, 2, 3, 2, 0, 4, 1));
    assert(t6 * q == (6) * mn(p, 1, 2, 3, 5, 0, 1, 0) + (-18) * mn(p, 1, 2, 3, 3, 0, 3, 0) + (-6) * mn(p, 1, 2, 3, 2, 2, 2, 0) + (6) * mn(p, 1, 2, 3, 2, 0, 4, 1));
    lemma_tm(p, -3, 1, 2, 3, 0, 0, 3, 0, -1, 0, 0, 0, 3, 0, 0, 0);
    assert(t7 * s0 == (3) * mn(p, 1, 2, 3, 3, 0, 3, 0));
    lemma_tm(p, -3, 1, 2, 3, 0, 0, 3, 0, 3, 0, 0, 0, 1, 0, 2, 0);
    assert(t7 * s1 == (-9) * mn(p, 1, 2, 3, 1, 0, 5, 0));
    lemma_tm(p, -3, 1, 2, 3, 0, 0, 3, 0, 1, 0, 0, 0, 0, 2, 1, 0);
    assert(t7 * s2 == (-3) * mn(p, 1, 2, 3, 0, 2, 4, 0));
    lemma_tm(p, -3, 1, 2, 3, 0, 0, 3, 0, -1, 0, 0, 0, 0, 0, 3, 1);
    assert(t7 * s3 == (3) * mn(p, 1, 2, 3, 0, 0, 6, 1));
    assert(t7 * q == (3) * mn(p, 1, 2, 3, 3, 0, 3, 0) + (-9) * mn(p, 1, 2, 3, 1, 0, 5, 0) + (-3) * mn(p, 1, 2, 3, 0, 2, 4, 0) + (3) * mn(p, 1, 2, 3, 0, 0, 6, 1));
    lemma_tm(p, 3, 1, 1, 4, 2, 1, 0, 0, -1, 0, 0, 0, 3, 0, 0, 0);
    assert(t8 * s0 == (-3) * mn(p, 1, 1, 4, 5, 1, 0, 0));
    lemma_tm(p, 3, 1, 1, 4, 2, 1, 0, 0, 3, 0, 0, 0, 1, 0, 2, 0);
    assert(t8 * s1 == (9) * mn(p, 1, 1, 4, 3, 1, 2, 0));
    lemma_tm(p, 3, 1, 1, 4, 2, 1, 0, 0, 1, 0, 0, 0, 0, 2, 1, 0);
    assert(t8 * s2 == (3) * mn(p, 1, 1, 4, 2, 3, 1, 0));
    lemma_tm(p, 3, 1, 1, 4, 2, 1, 0, 0, -1, 0, 0, 0, 0, 0, 3, 1);
    assert(t8 * s3 == (-3) * mn(p, 1, 1, 4, 2, 1, 3, 1));
    assert(t8 * q == (-3) * mn(p, 1, 1, 4, 5, 1, 0, 0) + (9) * mn(p, 1, 1, 4, 3, 1, 2, 0) + (3) * mn(p, 1, 1, 4, 2, 3, 1, 0) + (-3) * mn(p, 1, 1, 4, 2, 1, 3, 1));
    lemma_tm(p, 9, 1, 1, 4, 0, 1, 2, 0, -1, 0, 0, 0, 3, 0, 0, 0);
    assert(t9 * s0 == (-9) * mn(p, 1, 1, 4, 3, 1, 2, 0));
    lemma_tm(p, 9, 1, 1, 4, 0, 1, 2, 0, 3, 0, 0, 0, 1, 0, 2, 0);
    assert(t9 * s1 == (27) * mn(p, 1, 1, 4, 1, 1, 4, 0));
    lemma_tm(p, 9, 1, 1, 4, 0, 1, 2, 0, 1, 0, 0, 0, 0, 2, 1, 0);
    assert(t9 * s2 == (9) * mn(p, 1, 1, 4, 0, 3, 3, 0));
    lemma_tm(p, 9, 1, 1, 4, 0, 1, 2, 0, -1, 0, 0, 0, 0, 0, 3, 1);
    assert(t9 * s3 == (-9) * mn(p, 1, 1, 4, 0, 1, 5, 1));
    assert(t9 * q == (-9) * mn(p, 1, 1, 4, 3, 1, 2, 0) + (27) * mn(p, 1, 1, 4, 1, 1, 4, 0) + (9) * mn(p, 1, 1, 4, 0, 3, 3, 0) + (-9) * mn(p, 1, 1, 4, 0, 1, 5, 1));
    lemma_tm(p, -9, 1, 0, 5, 2, 0, 1, 1, -1, 0, 0, 0, 3, 0, 0, 0);
    assert(t10 * s0 == (9) * mn(p, 1, 0, 5, 5, 0, 1, 1));
    lemma_tm(p, -9, 1, 0, 5, 2, 0, 1, 1, 3, 0, 0, 0, 1, 0, 2, 0);
    assert(t10 * s1 == (-27) * mn(p, 1, 0, 5, 3, 0, 3, 1));
    lemma_tm(p, -9, 1, 0, 5, 2, 0, 1, 1, 1, 0, 0, 0, 0, 2, 1, 0);
    assert(t10 * s2 == (-9) * mn(p, 1, 0, 5, 2, 2, 2, 1));
    lemma_tm(p, -9, 1, 0, 5, 2, 0, 1, 1, -1, 0, 0, 0, 0, 0, 3, 1);
    assert(t10 * s3 == (9) * mn(p, 1, 0, 5, 2, 0, 4, 2));
    assert(t10 * q == (9) * mn(p, 1, 0, 5, 5, 0, 1, 1) + (-27) * mn(p, 1, 0, 5, 3, 0, 3, 1) + (-9) * mn(p, 1, 0, 5, 2, 2, 2, 1) + (9) * mn(p, 1, 0, 5, 2, 0, 4, 2));
    lemma_tm(p, -72, 1, 0, 5, 1, 0, 2, 0, -1, 0, 0, 0, 3, 0, 0, 0);
    assert(t11 * s0 == (72) * mn(p, 1, 0, 5, 4, 0, 2, 0));
    lemma_tm(p, -72, 1, 0, 5, 1, 0, 2, 0, 3, 0, 0, 0, 1, 0, 2, 0);
    assert(t11 * s1 == (-216) * mn(p, 1, 0, 5, 2, 0, 4, 0));
    lemma_tm(p, -72, 1, 0, 5, 1, 0, 2, 0, 1, 0, 0, 0, 0, 2, 1, 0);
    assert(t11 * s2 == (-72) * mn(p, 1, 0, 5, 1, 2, 3, 0));
    lemma_tm(p, -72, 1, 0, 5, 1, 0, 2, 0, -1, 0, 0, 0, 0, 0, 3, 1);
    assert(t11 * s3 == (72) * mn(p, 1, 0, 5, 1, 0, 5, 1));
    assert(t11 * q == (72) * mn(p, 1, 0, 5, 4, 0, 2, 0) + (-216) * mn(p, 1, 0, 5, 2, 0, 4, 0) + (-72) * mn(p, 1, 0, 5, 1, 2, 3, 0) + (72) * mn(p, 1, 0, 5, 1, 0, 5, 1));
    lemma_tm(p, -6, 1, 0, 5, 0, 2, 1, 0, -1, 0, 0, 0, 3, 0, 0, 0);
    assert(t12 * s0 == (6) * mn(p, 1, 0, 5, 3, 2, 1, 0));
    lemma_tm(p, -6, 1, 0, 5, 0, 2, 1, 0, 3, 0, 0, 0, 1, 0, 2, 0);
    assert(t12 * s1 == (-18) * mn(p, 1, 0, 5, 1, 2, 3, 0));
    lemma_tm(p, -6, 1, 0, 5, 0, 2, 1, 0, 1, 0, 0, 0, 0, 2, 1, 0);
    assert(t12 * s2 == (-6) * mn(p, 1, 0, 5, 0, 4, 2, 0));
    lemma_tm(p, -6, 1, 0, 5, 0, 2, 1, 0, -1, 0, 0, 0, 0, 0, 3, 1);
    assert(t12 * s3 == (6) * mn(p, 1, 0, 5, 0, 2, 4, 1));
    assert(t12 * q == (6) * mn(p, 1, 0, 5, 3, 2, 1, 0) + (-18) * mn(p, 1, 0, 5, 1, 2, 3, 0) + (-6) * mn(p, 1, 0, 5, 0, 4, 2, 0) + (6) * mn(p, 1, 0, 5, 0, 2, 4, 1));
    lemma_tm(p, -36, 1, 0, 5, 0, 0, 3, 1, -1, 0, 0, 0, 3, 0, 0, 0);
    assert(t13 * s0 == (36) * mn(p, 1, 0, 5, 3, 0, 3, 1));
    lemma_tm(p, -36, 1, 0, 5, 0, 0, 3, 1, 3, 0, 0, 0, 1, 0, 2, 0);
    assert(t13 * s1 == (-108) * mn(p, 1, 0, 5, 1, 0, 5, 1));
    lemma_tm(p, -36, 1, 0, 5, 0, 0, 3, 1, 1, 0, 0, 0, 0, 2, 1, 0);
    assert(t13 * s2 == (-36) * mn(p, 1, 0, 5, 0, 2, 4, 1));
    lemma_tm(p, -36, 1, 0, 5, 0, 0, 3, 1, -1, 0, 0, 0, 0, 0, 3, 1);
    assert(t13 * s3 == (36) * mn(p, 1, 0, 5, 0, 0, 6, 2));
    assert(t13 * q == (36) * mn(p, 1, 0, 5, 3, 0, 3, 1) + (-108) * mn(p, 1, 0, 5, 1, 0, 5, 1) + (-36) * mn(p, 1, 0, 5, 0, 2, 4, 1) + (36) * mn(p, 1, 0, 5, 0, 0, 6, 2));
    lemma_tm(p, -2, 0, 3, 3, 0, 1, 2, 0, -1, 0, 0, 0, 3, 0, 0, 0);
    assert(t14 * s0 == (2) * mn(p, 0, 3, 3, 3, 1, 2, 0));
    lemma_tm(p, -2, 0, 3, 3, 0, 1, 2, 0, 3, 0, 0, 0, 1, 0, 2, 0);
    assert(t14 * s1 == (-6) * mn(p, 0, 3, 3, 1, 1, 4, 0));
    lemma_tm(p, -2, 0, 3, 3, 0, 1, 2, 0, 1, 0, 0, 0, 0, 2, 1, 0);
    assert(t14 * s2 == (-2) * mn(p, 0, 3, 3, 0, 3, 3, 0));
    lemma_tm(p, -2, 0, 3, 3, 0, 1, 2, 0, -1, 0, 0, 0, 0, 0, 3, 1);
    assert(t14 * s3 == (2) * mn(p, 0, 3, 3, 0, 1, 5, 1));
    assert(t14 * q == (2) * mn(p, 0, 3, 3, 3, 1, 2, 0) + (-6) * mn(p, 0, 3, 3, 1, 1, 4, 0) + (-2) * mn(p, 0, 3, 3, 0, 3, 3, 0) + (2) * mn(p, 0, 3, 3, 0, 1, 5, 1));
    lemma_tm(p, -15, 0, 2, 4, 1, 0, 2, 0, -1, 0, 0, 0, 3, 0, 0, 0);
    assert(t15 * s0 == (15) * mn(p, 0, 2, 4, 4, 0, 2, 0));
    lemma_tm(p, -15, 0, 2, 4, 1, 0, 2, 0, 3, 0, 0, 0, 1, 0, 2, 0);
    assert(t15 * s1 == (-45) * mn(p, 0, 2, 4, 2, 0, 4, 0));
    lemma_tm(p, -15, 0, 2, 4, 1, 0, 2, 0, 1, 0, 0, 0, 0, 2, 1, 0);
    assert(t15 * s2 == (-15) * mn(p, 0, 2, 4, 1, 2, 3, 0));
    lemma_tm(p, -15, 0, 2, 4, 1, 0, 2, 0, -1, 0, 0, 0, 0, 0, 3, 1);
    assert(t15 * s3 == (15) * mn(p, 0, 2, 4, 1, 0, 5, 1));
    assert(t15 * q == (15) * mn(p, 0, 2, 4, 4, 0, 2, 0) + (-45) * mn(p, 0, 2, 4, 2, 0, 4, 0) + (-15) * mn(p, 0, 2, 4, 1, 2, 3, 0) + (15) * mn(p, 0, 2, 4, 1, 0, 5, 1));
    lemma_tm(p, -2, 0, 2, 4, 0, 2, 1, 0, -1, 0, 0, 0, 3, 0, 0, 0);
    assert(t16 * s0 == (2) * mn(p, 0, 2, 4, 3, 2, 1, 0));
    lemma_tm(p, -2, 0, 2, 4, 0, 2, 1, 0, 3, 0, 0, 0, 1, 0, 2, 0);
    assert(t16 * s1 == (-6) * mn(p, 0, 2, 4, 1, 2, 3, 0));
    lemma_tm(p, -2, 0, 2, 4, 0, 2, 1, 0, 1, 0, 0, 0, 0, 2, 1, 0);
    assert(t16 * s2 == (-2) * mn(p, 0, 2, 4, 0, 4, 2, 0));
    lemma_tm(p, -2, 0, 2, 4, 0, 2, 1, 0, -1, 0, 0, 0, 0, 0, 3, 1);
    assert(t16 * s3 == (2) * mn(p, 0, 2, 4, 0, 2, 4, 1));
    assert(t16 * q == (2) * mn(p, 0, 2, 4, 3, 2, 1, 0) + (-6) * mn(p, 0, 2, 4, 1, 2, 3, 0) + (-2) * mn(p, 0, 2, 4, 0, 4, 2, 0) + (2) * mn(p, 0, 2, 4, 0, 2, 4, 1));
    lemma_tm(p, -6, 0, 2, 4, 0, 0, 3, 1, -1, 0, 0, 0, 3, 0, 0, 0);
    assert(t17 * s0 == (6) * mn(p, 0, 2, 4, 3, 0, 3, 1));
    lemma_tm(p, -6, 0, 2, 4, 0, 0, 3, 1, 3, 0, 0, 0, 1, 0, 2, 0);
    assert(t17 * s1 == (-18) * mn(p, 0, 2, 4, 1, 0, 5, 1));
    lemma_tm(p, -6, 0, 2, 4, 0, 0, 3, 1, 1, 0, 0, 0, 0, 2, 1, 0);
    assert(t17 * s2 == (-6) * mn(p, 0, 2, 4, 0, 2, 4, 1));
    lemma_tm(p, -6, 0, 2, 4, 0, 0, 3, 1, -1, 0, 0, 0, 0, 0, 3, 1);
    assert(t17 * s3 == (6) * mn(p, 0, 2, 4, 0, 0, 6, 2));
    assert(t17 * q == (6) * mn(p, 0, 2, 4, 3, 0, 3, 1) + (-18) * mn(p, 0, 2, 4, 1, 0, 5, 1) + (-6) * mn(p, 0, 2, 4, 0, 2, 4, 1) + (6) * mn(p, 0, 2, 4, 0, 0, 6, 2));
    lemma_tm(p, 1, 0, 1, 5, 0, 3, 0, 0, -1, 0, 0, 0, 3, 0, 0, 0);
    assert(t18 * s0 == (-1) * mn(p, 0, 1, 5, 3, 3, 0, 0));
    lemma_tm(p, 1, 0, 1, 5, 0, 3, 0, 0, 3, 0, 0, 0, 1, 0, 2, 0);
    assert(t18 * s1 == (3) * mn(p, 0, 1, 5, 1, 3, 2, 0));
    lemma_tm(p, 1, 0, 1, 5, 0, 3, 0, 0, 1, 0, 0, 0, 0, 2, 1, 0);
    assert(t18 * s2 == (1) * mn(p, 0, 1, 5, 0, 5, 1, 0));
    lemma_tm(p, 1, 0, 1, 5, 0, 3, 0, 0, -1, 0, 0, 0, 0, 0, 3, 1);
    assert(t18 * s3 == (-1) * mn(p, 0, 1, 5, 0, 3, 3, 1));
    assert(t18 * q == (-1) * mn(p, 0, 1, 5, 3, 3, 0, 0) + (3) * mn(p, 0, 1, 5, 1, 3, 2, 0) + (1) * mn(p, 0, 1, 5, 0, 5, 1, 0) + (-1) * mn(p, 0, 1, 5, 0, 3, 3, 1));
    lemma_tm(p, -3, 0, 1, 5, 0, 1, 2, 1, -1, 0, 0, 0, 3, 0, 0, 0);
    assert(t19 * s0 == (3) * mn(p, 0, 1, 5, 3, 1, 2, 1));
    lemma_tm(p, -3, 0, 1, 5, 0, 1, 2, 1, 3, 0, 0, 0, 1, 0, 2, 0);
    assert(t19 * s1 == (-9) * mn(p, 0, 1, 5, 1, 1, 4, 1));
    lemma_tm(p, -3, 0, 1, 5, 0, 1, 2, 1, 1, 0, 0, 0, 0, 2, 1, 0);
    assert(t19 * s2 == (-3) * mn(p, 0, 1, 5, 0, 3, 3, 1));
    lemma_tm(p, -3, 0, 1, 5, 0, 1, 2, 1, -1, 0, 0, 0, 0, 0, 3, 1);
    assert(t19 * s3 == (3) * mn(p, 0, 1, 5, 0, 1, 5, 2));
    assert(t19 * q == (3) * mn(p, 0, 1, 5, 3, 1, 2, 1) + (-9) * mn(p, 0, 1, 5, 1, 1, 4, 1) + (-3) * mn(p, 0, 1, 5, 0, 3, 3, 1) + (3) * mn(p, 0, 1, 5, 0, 1, 5, 2));
    lemma_tm(p, 9, 0, 0, 6, 2, 0, 1, 0, -1, 0, 0, 0, 3, 0, 0, 0);
    assert(t20 * s0 == (-9) * mn(p, 0, 0, 6, 5, 0, 1, 0));
    lemma_tm(p, 9, 0, 0, 6, 2, 0, 1, 0, 3, 0, 0, 0, 1, 0, 2, 0);
    assert(t20 * s1 == (27) * mn(p, 0, 0, 6, 3, 0, 3, 0));
    lemma_tm(p, 9, 0, 0, 6, 2, 0, 1, 0, 1, 0, 0, 0, 0, 2, 1, 0);
    assert(t20 * s2 == (9) * mn(p, 0, 0, 6, 2, 2, 2, 0));
    lemma_tm(p, 9, 0, 0, 6, 2, 0, 1, 0, -1, 0, 0, 0, 0, 0, 3, 1);
    assert(t20 * s3 == (-9) * mn(p, 0, 0, 6, 2, 0, 4, 1));
    assert(t20 * q == (-9) * mn(p, 0, 0, 6, 5, 0, 1, 0) + (27) * mn(p, 0, 0, 6, 3, 0, 3, 0) + (9) * mn(p, 0, 0, 6, 2, 2, 2, 0) + (-9) * mn(p, 0, 0, 6, 2, 0, 4, 1));
    lemma_tm(p, -3, 0, 0, 6, 1, 2, 0, 0, -1, 0, 0, 0, 3, 0, 0, 0);
    assert(t21 * s0 == (3) * mn(p, 0, 0, 6, 4, 2, 0, 0));
    lemma_tm(p, -3, 0, 0, 6, 1, 2, 0, 0, 3, 0, 0, 0, 1, 0, 2, 0);
    assert(t21 * s1 == (-9) * mn(p, 0, 0, 6, 2, 2, 2, 0));
    lemma_tm(p, -3, 0, 0, 6, 1, 2, 0, 0, 1, 0, 0, 0, 0, 2, 1, 0);
    assert(t21 * s2 == (-3) * mn(p, 0, 0, 6, 1, 4, 1, 0));
    lemma_tm(p, -3, 0, 0, 6, 1, 2, 0, 0, -1, 0, 0, 0, 0, 0, 3, 1);
    assert(t21 * s3 == (3) * mn(p, 0, 0, 6, 1, 2, 3, 1));
    assert(t21 * q == (3) * mn(p, 0, 0, 6, 4, 2, 0, 0) + (-9) * mn(p, 0, 0, 6, 2, 2, 2, 0) + (-3) * mn(p, 0, 0, 6, 1, 4, 1, 0) + (3) * mn(p, 0, 0, 6, 1, 2, 3, 1));
    lemma_tm(p, 18, 0, 0, 6, 1, 0, 2, 1, -1, 0, 0, 0, 3, 0, 0, 0);
    assert(t22 * s0 == (-18) * mn(p, 0, 0, 6, 4, 0, 2, 1));
    lemma_tm(p, 18, 0, 0, 6, 1, 0, 2, 1, 3, 0, 0, 0, 1, 0, 2, 0);
    assert(t22 * s1 == (54) * mn(p, 0, 0, 6, 2, 0, 4, 1));
    lemma_tm(p, 18, 0, 0, 6, 1, 0, 2, 1, 1, 0, 0, 0, 0, 2, 1, 0);
    assert(t22 * s2 == (18) * mn(p, 0, 0, 6, 1, 2, 3, 1));
    lemma_tm(p, 18, 0, 0, 6, 1, 0, 2, 1, -1, 0, 0, 0, 0, 0, 3, 1);
    assert(t22 * s3 == (-18) * mn(p, 0, 0, 6, 1, 0, 5, 2));
    assert(t22 * q == (-18) * mn(p, 0, 0, 6, 4, 0, 2, 1) + (54) * mn(p, 0, 0, 6, 2, 0, 4, 1) + (18) * mn(p, 0, 0, 6, 1, 2, 3, 1) + (-18) * mn(p, 0, 0, 6, 1, 0, 5, 2));
    lemma_tm(p, 3, 0, 0, 6, 0, 2, 1, 1, -1, 0, 0, 0, 3, 0, 0, 0);
    assert(t23 * s0 == (-3) * mn(p, 0, 0, 6, 3, 2, 1, 1));
    lemma_tm(p, 3, 0, 0, 6, 0, 2, 1, 1, 3, 0, 0, 0, 1, 0, 2, 0);
    assert(t23 * s1 == (9) * mn(p, 0, 0, 6, 1, 2, 3, 1));
    lemma_tm(p, 3, 0, 0, 6, 0, 2, 1, 1, 1, 0, 0, 0, 0, 2, 1, 0);
    assert(t23 * s2 == (3) * mn(p, 0, 0, 6, 0, 4, 2, 1));
    lemma_tm(p, 3, 0, 0, 6, 0, 2, 1, 1, -1, 0, 0, 0, 0, 0, 3, 1);
    assert(t23 * s3 == (-3) * mn(p, 0, 0, 6, 0, 2, 4, 2));
    assert(t23 * q == (-3) * mn(p, 0, 0, 6, 3, 2, 1, 1) + (9) * mn(p, 0, 0, 6, 1, 2, 3, 1) + (3) * mn(p, 0, 0, 6, 0, 4, 2, 1) + (-3) * mn(p, 0, 0, 6, 0, 2, 4, 2));
    lemma_tm(p, 9, 0, 0, 6, 0, 0, 3, 2, -1, 0, 0, 0, 3, 0, 0, 0);
    assert(t24 * s0 == (-9) * mn(p, 0, 0, 6, 3, 0, 3, 2));
    lemma_tm(p, 9, 0, 0, 6, 0, 0, 3, 2, 3, 0, 0, 0, 1, 0, 2, 0);
    assert(t24 * s1 == (27) * mn(p, 0, 0, 6, 1, 0, 5, 2));
    lemma_tm(p, 9, 0, 0, 6, 0, 0, 3, 2, 1, 0, 0, 0, 0, 2, 1, 0);
    assert(t24 * s2 == (9) * mn(p, 0, 0, 6, 0, 2, 4, 2));
    lemma_tm(p, 9, 0, 0, 6, 0, 0, 3, 2, -1, 0, 0, 0, 0, 0, 3, 1);
    assert(t24 * s3 == (-9) * mn(p, 0, 0, 6, 0, 0, 6, 3));
    assert(t24 * q == (-9) * mn(p, 0, 0, 6, 3, 0, 3, 2) + (27) * mn(p, 0, 0, 6, 1, 0, 5, 2) + (9) * mn(p, 0, 0, 6, 0, 2, 4, 2) + (-9) * mn(p, 0, 0, 6, 0, 0, 6, 3));
    assert(pp24 * q == (-9) * mn(p, 2, 2, 2, 4, 0, 2, 0) + (27) * mn(p, 2, 2, 2, 2, 0, 4, 0) + (9) * mn(p, 2, 2, 2, 1, 2, 3, 0) + (-9) * mn(p, 2, 2, 2, 1, 0, 5, 1) + (6) * mn(p, 2, 1, 3, 4, 1, 1, 0) + (-18) * mn(p, 2, 1, 3, 2, 1, 3, 0) + (-6) * mn(p, 2, 1, 3, 1, 3, 2, 0) + (6) * mn(p, 2, 1, 3, 1, 1, 4, 1) + (-9) * mn(p, 2, 0, 4, 5, 0, 1, 0) + (-3) * mn(p, 2, 0, 4, 4, 2, 0, 0) + (-18) * mn(p, 2, 0, 4, 4, 0, 2, 1) + (-9) * mn(p, 2, 0, 4, 3, 0, 3, 0) + (18) * mn(p, 2, 0, 4, 2, 2, 2, 0) + (45) * mn(p, 2, 0, 4, 2, 0, 4, 1) + (3) * mn(p, 2, 0, 4, 1, 4, 1, 0) + (15) * mn(p, 2, 0, 4, 1, 2, 3, 1) + (-18) * mn(p, 2, 0, 4, 1, 0, 5, 2) + (108) * mn(p, 2, 0, 4, 1, 0, 5, 0) + (36) * mn(p, 2, 0, 4, 0, 2, 4, 0) + (-36) * mn(p, 2, 0, 4, 0, 0, 6, 1) + (6) * mn(p, 1, 2, 3, 5, 0, 1, 0) + (-15) * mn(p, 1, 2, 3, 3, 0, 3, 0) + (-6) * mn(p, 1, 2, 3, 2, 2, 2, 0) + (6) * mn(p, 1, 2, 3, 2, 0, 4, 1) + (-9) * mn(p, 1, 2, 3, 1, 0, 5, 0) + (-3) * mn(p, 1, 2, 3, 0, 2, 4, 0) + (3) * mn(p, 1, 2, 3, 0, 0, 6, 1) + (-3) * mn(p, 1, 1, 4, 5, 1, 0, 0) + (3) * mn(p, 1, 1, 4, 2, 3, 1, 0) + (-3) * mn(p, 1, 1, 4, 2, 1, 3, 1) + (27) * mn(p, 1, 1, 4, 1, 1, 4, 0) + (9) * mn(p, 1, 1, 4, 0, 3, 3, 0) + (-9) * mn(p, 1, 1, 4, 0, 1, 5, 1) + (9) * mn(p, 1, 0, 5, 5, 0, 1, 1) + (72) * mn(p, 1, 0, 5, 4, 0, 2, 0) + (6) * mn(p, 1, 0, 5, 3, 2, 1, 0) + (9) * mn(p, 1, 0, 5, 3, 0, 3, 1) + (-9) * mn(p, 1, 0, 5, 2, 2, 2, 1) + (9) * mn(p, 1, 0, 5, 2, 0, 4, 2) + (-216) * mn(p, 1, 0, 5, 2, 0, 4, 0) + (-90) * mn(p, 1, 0, 5, 1, 2, 3, 0) + (-36) * mn(p, 1, 0, 5, 1, 0, 5, 1) + (-6) * mn(p, 1, 0, 5, 0, 4, 2, 0) + (-30) * mn(p, 1, 0, 5, 0, 2, 4, 1) + (36) * mn(p, 1, 0, 5, 0, 0, 6, 2) + (2) * mn(p, 0, 3, 3, 3, 1, 2, 0) + (-6) * mn(p, 0, 3, 3, 1, 1, 4, 0) + (-2) * mn(p, 0, 3, 3, 0, 3, 3, 0) + (2) * mn(p, 0, 3, 3, 0, 1, 5, 1) + (15) * mn(p, 0, 2, 4, 4, 0, 2, 0) + (2) * mn(p, 0, 2, 4, 3, 2, 1, 0) + (6) * mn(p, 0, 2, 4, 3, 0, 3, 1) + (-45) * mn(p, 0, 2, 4, 2, 0, 4, 0) + (-21) * mn(p, 0, 2, 4, 1, 2, 3, 0) + (-3) * mn(p, 0, 2, 4, 1, 0, 5, 1) + (-2) * mn(p, 0, 2, 4, 0, 4, 2, 0) + (-4) * mn(p, 0, 2, 4, 0, 2, 4, 1) + (6) * mn(p, 0, 2, 4, 0, 0, 6, 2) + (-1) * mn(p, 0, 1, 5, 3, 3, 0, 0) + (3) * mn(p, 0, 1, 5, 3, 1, 2, 1) + (3) * mn(p, 0, 1, 5, 1, 3, 2, 0) + (-9) * mn(p, 0, 1, 5, 1, 1, 4, 1) + (1) * mn(p, 0, 1, 5, 0, 5, 1, 0) + (-4) * mn(p, 0, 1, 5, 0, 3, 3, 1) + (3) * mn(p, 0, 1, 5, 0, 1, 5, 2) + (-9) * mn(p, 0, 0, 6, 5, 0, 1, 0) + (3) * mn(p, 0, 0, 6, 4, 2, 0, 0) + (-18) * mn(p, 0, 0, 6, 4, 0, 2, 1) + (-3) * mn(p, 0, 0, 6, 3, 2, 1, 1) + (-9) * mn(p, 0, 0, 6, 3, 0, 3, 2) + (27) * mn(p, 0, 0, 6, 3, 0, 3, 0) + (45) * mn(p, 0, 0, 6, 2, 0, 4, 1) + (-3) * mn(p, 0, 0, 6, 1, 4, 1, 0) + (30) * mn(p, 0, 0, 6, 1, 2, 3, 1) + (9) * mn(p, 0, 0, 6, 1, 0, 5, 2) + (3) * mn(p, 0, 0, 6, 0, 4, 2, 1) + (6) * mn(p, 0, 0, 6, 0, 2, 4, 2) + (-9) * mn(p, 0, 0, 6, 0, 0, 6, 3));
}

#[verifier::rlimit(100)]
pub(crate) proof fn lemma_add_minor1_identity(x1: int, y1: int, z1: int, x2: int, y2: int, z2: int, b: int)
    ensures
        ({
            let p = Pt { v0: x1, v1: y1, v2: z1, v3: x2, v4: y2, v5: z2, v6: b };
            rcb_add(x1, y1, z1, x2, y2, z2, b).1 * chord_add(x1, y1, z1, x2, y2, z2).2 - chord_add(x1, y1, z1, x2, y2, z2).1 * rcb_add(x1, y1, z1, x2, y2, z2, b).2 == am1_cof0(p) * curve_poly(x1, y1, z1, b) + am1_cof1(p) * curve_poly(x2, y2, z2, b)
        }),
{
    let p = Pt { v0: x1, v1: y1, v2: z1, v3: x2, v4: y2, v5: z2, v6: b };
    lemma_vars(p);
    assert(x1 == (1) * mn(p, 1, 0, 0, 0, 0, 0, 0));
    assert(y1 == (1) * mn(p, 0, 1, 0, 0, 0, 0, 0));
    assert(z1 == (1) * mn(p, 0, 0, 1, 0, 0, 0, 0));
    assert(x2 == (1) * mn(p, 0, 0, 0, 1, 0, 0, 0));
    assert(y2 == (1) * mn(p, 0, 0, 0, 0, 1, 0, 0));
    assert(z2 == (1) * mn(p, 0, 0, 0, 0, 0, 1, 0));
    assert(b == (1) * mn(p, 0, 0, 0, 0, 0, 0, 1));
    am1_prod0(p);
    let n0 = x1 * x2;
    assert(n0 == (1) * mn(p, 1, 0, 0, 1, 0, 0, 0));
    am1_prod1(p);
    let n1 = y1 * y2;
    assert(n1 == (1) * mn(p, 0, 1, 0, 0, 1, 0, 0));
    am1_prod2(p);
    let n2 = z1 * z2;
    assert(n2 == (1) * mn(p, 0, 0, 1, 0, 0, 1, 0));
    let n3 = x1 + y1;
    assert(n3 == (1) * mn(p, 1, 0, 0, 0, 0, 0, 0) + (1) * mn(p, 0, 1, 0, 0, 0, 0, 0));
    let n4 = x2 + y2;
    assert(n4 == (1) * mn(p, 0, 0, 0, 1, 0, 0, 0) + (1) * mn(p, 0, 0, 0, 0, 1, 0, 0));
    am1_prod3(p);
    let n5 = n3 * n4;
    assert(n5 == (1) * mn(p, 1, 0, 0, 1, 0, 0, 0) + (1) * mn(p, 1, 0, 0, 0, 1, 0, 0) + (1) * mn(p, 0, 1, 0, 1, 0, 0, 0) + (1) * mn(p, 0, 1, 0, 0, 1, 0, 0));
    let n6 = n5 - n0;
    assert(n6 == (1) * mn(p, 1, 0, 0, 0, 1, 0, 0) + (1) * mn(p, 0, 1, 0, 1, 0, 0, 0) + (1) * mn(p, 0, 1, 0, 0, 1, 0, 0));
    let n7 = n6 - n1;
    assert(n7 == (1) * mn(p, 1, 0, 0, 0, 1, 0, 0) + (1) * mn(p, 0, 1, 0, 1, 0, 0, 0));
    let n8 = y1 + z1;
    assert(n8 == (1) * mn(p, 0, 1, 0, 0, 0, 0, 0) + (1) * mn(p, 0, 0, 1, 0, 0, 0, 0));
    let n9 = y2 + z2;
    assert(n9 == (1) * mn(p, 0, 0, 0, 0, 1, 0, 0) + (1) * mn(p, 0, 0, 0, 0, 0, 1, 0));
    am1_prod4(p);
    let n10 = n8 * n9;
    assert(n10 == (1) * mn(p, 0, 1, 0, 0, 1, 0, 0) + (1) * mn(p, 0, 1, 0, 0, 0, 1, 0) + (1) * mn(p, 0, 0, 1, 0, 1, 0, 0) + (1) * mn(p, 0, 0, 1, 0, 0, 1, 0));
    let n11 = n10 - n1;
    assert(n11 == (1) * mn(p, 0, 1, 0, 0, 0, 1, 0) + (1) * mn(p, 0, 0, 1, 0, 1, 0, 0) + (1) * mn(p, 0, 0, 1, 0, 0, 1, 0));
    let n12 = n11 - n2;
    assert(n12 == (1) * mn(p, 0, 1, 0, 0, 0, 1, 0) + (1) * mn(p, 0, 0, 1, 0, 1, 0, 0));
    let n13 = x1 + z1;
    assert(n13 == (1) * mn(p, 1, 0, 0, 0, 0, 0, 0) + (1) * mn(p, 0, 0, 1, 0, 0, 0, 0));
    let n14 = x2 + z2;
    assert(n14 == (1) * mn(p, 0, 0, 0, 1, 0, 0, 0) + (1) * mn(p, 0, 0, 0, 0, 0, 1, 0));
    am1_prod5(p);
    let n15 = n13 * n14;
    assert(n15 == (1) * mn(p, 1, 0, 0, 1, 0, 0, 0) + (1) * mn(p, 1, 0, 0, 0, 0, 1, 0) + (1) * mn(p, 0, 0, 1, 1, 0, 0, 0) + (1) * mn(p, 0, 0, 1, 0, 0, 1, 0));
    let n16 = n15 - n0;
    assert(n16 == (1) * mn(p, 1, 0, 0, 0, 0, 1, 0) + (1) * mn(p, 0, 0, 1, 1, 0, 0, 0) + (1) * mn(p, 0, 0, 1, 0, 0, 1, 0));
    let n17 = n16 - n2;
    assert(n17 == (1) * mn(p, 1, 0, 0, 0, 0, 1, 0) + (1) * mn(p, 0, 0, 1, 1, 0, 0, 0));
    am1_prod6(p);
    let n18 = b * n2;
    assert(n18 == (1) * mn(p, 0, 0, 1, 0, 0, 1, 1));
    let n19 = n17 - n18;
    assert(n19 == (1) * mn(p, 1, 0, 0, 0, 0, 1, 0) + (1) * mn(p, 0, 0, 1, 1, 0, 0, 0) + (-1) * mn(p, 0, 0, 1, 0, 0, 1, 1));
    let n20 = 3 * n19;
    assert(n20 == (3) * mn(p, 1, 0, 0, 0, 0, 1, 0) + (3) * mn(p, 0, 0, 1, 1, 0, 0, 0) + (-3) * mn(p, 0, 0, 1, 0, 0, 1, 1));
    let n21 = n1 - n20;
    assert(n21 == (-3) * mn(p, 1, 0, 0, 0, 0, 1, 0) + (1) * mn(p, 0, 1, 0, 0, 1, 0, 0) + (-3) * mn(p, 0, 0, 1, 1, 0, 0, 0) + (3) * mn(p, 0, 0, 1, 0, 0, 1, 1));
    let n22 = n1 + n20;
    assert(n22 == (3) * mn(p, 1, 0, 0, 0, 0, 1, 0) + (1) * mn(p, 0, 1, 0, 0, 1, 0, 0) + (3) * mn(p, 0, 0, 1, 1, 0, 0, 0) + (-3) * mn(p, 0, 0, 1, 0, 0, 1, 1));
    am1_prod7(p);
    let n23 = b * n17;
    assert(n23 == (1) * mn(p, 1, 0, 0, 0, 0, 1, 1) + (1) * mn(p, 0, 0, 1, 1, 0, 0, 1));
    let n24 = 3 * n2;
    assert(n24 == (3) * mn(p, 0, 0, 1, 0, 0, 1, 0));
    let n25 = n23 - n24;
    assert(n25 == (1) * mn(p, 1, 0, 0, 0, 0, 1, 1) + (1) * mn(p, 0, 0, 1, 1, 0, 0, 1) + (-3) * mn(p, 0, 0, 1, 0, 0, 1, 0));
    let n26 = n25 - n0;
    assert(n26 == (-1) * mn(p, 1, 0, 0, 1, 0, 0, 0) + (1) * mn(p, 1, 0, 0, 0, 0, 1, 1) + (1) * mn(p, 0, 0, 1, 1, 0, 0, 1) + (-3) * mn(p, 0, 0, 1, 0, 0, 1, 0));
    let n27 = 3 * n26;
    assert(n27 == (-3) * mn(p, 1, 0, 0, 1, 0, 0, 0) + (3) * mn(p, 1, 0, 0, 0, 0, 1, 1) + (3) * mn(p, 0, 0, 1, 1, 0, 0, 1) + (-9) * mn(p, 0, 0, 1, 0, 0, 1, 0));
    let n28 = 3 * n0;
    assert(n28 == (3) * mn(p, 1, 0, 0, 1, 0, 0, 0));
    let n29 = n28 - n24;
    assert(n29 == (3) * mn(p, 1, 0, 0, 1, 0, 0, 0) + (-3) * mn(p, 0, 0, 1, 0, 0, 1, 0));
    am1_prod8(p);
    let n30 = n22 * n7;
    assert(n30 == (3) * mn(p, 2, 0, 0, 0, 1, 1, 0) + (3) * mn(p, 1, 1, 0, 1, 0, 1, 0) + (1) * mn(p, 1, 1, 0, 0, 2, 0, 0) + (3) * mn(p, 1, 0, 1, 1, 1, 0, 0) + (-3) * mn(p, 1, 0, 1, 0, 1, 1, 1) + (1) * mn(p, 0, 2, 0, 1, 1, 0, 0) + (3) * mn(p, 0, 1, 1, 2, 0, 0, 0) + (-3) * mn(p, 0, 1, 1, 1, 0, 1, 1));
    am1_prod9(p);
    let n31 = n12 * n27;
    assert(n31 == (-3) * mn(p, 1, 1, 0, 1, 0, 1, 0) + (3) * mn(p, 1, 1, 0, 0, 0, 2, 1) + (-3) * mn(p, 1, 0, 1, 1, 1, 0, 0) + (3) * mn(p, 1, 0, 1, 0, 1, 1, 1) + (3) * mn(p, 0, 1, 1, 1, 0, 1, 1) + (-9) * mn(p, 0, 1, 1, 0, 0, 2, 0) + (3) * mn(p, 0, 0, 2, 1, 1, 0, 1) + (-9) * mn(p, 0, 0, 2, 0, 1, 1, 0));
    let n32 = n30 - n31;
    assert(n32 == (3) * mn(p, 2, 0, 0, 0, 1, 1, 0) + (6) * mn(p, 1, 1, 0, 1, 0, 1, 0) + (1) * mn(p, 1, 1, 0, 0, 2, 0, 0) + (-3) * mn(p, 1, 1, 0, 0, 0, 2, 1) + (6) * mn(p, 1, 0, 1, 1, 1, 0, 0) + (-6) * mn(p, 1, 0, 1, 0, 1, 1, 1) + (1) * mn(p, 0, 2, 0, 1, 1, 0, 0) + (3) * mn(p, 0, 1, 1, 2, 0, 0, 0) + (-6) * mn(p, 0, 1, 1, 1, 0, 1, 1) + (9) * mn(p, 0, 1, 1, 0, 0, 2, 0) + (-3) * mn(p, 0, 0, 2, 1, 1, 0, 1) + (9) * mn(p, 0, 0, 2, 0, 1, 1, 0));
    am1_prod10(p);
    let n33 = n22 * n21;
    assert(n33 == (-9) * mn(p, 2, 0, 0, 0, 0, 2, 0) + (-18) * mn(p, 1, 0, 1, 1, 0, 1, 0) + (18) * mn(p, 1, 0, 1, 0, 0, 2, 1) + (1) * mn(p, 0, 2, 0, 0, 2, 0, 0) + (-9) * mn(p, 0, 0, 2, 2, 0, 0, 0) + (18) * mn(p, 0, 0, 2, 1, 0, 1, 1) + (-9) * mn(p, 0, 0, 2, 0, 0, 2, 2));
    am1_prod11(p);
    let n34 = n29 * n27;
    assert(n34 == (-9) * mn(p, 2, 0, 0, 2, 0, 0, 0) + (9) * mn(p, 2, 0, 0, 1, 0, 1, 1) + (9) * mn(p, 1, 0, 1, 2, 0, 0, 1) + (-18) * mn(p, 1, 0, 1, 1, 0, 1, 0) + (-9) * mn(p, 1, 0, 1, 0, 0, 2, 1) + (-9) * mn(p, 0, 0, 2, 1, 0, 1, 1) + (27) * mn(p, 0, 0, 2, 0, 0, 2, 0));
    let n35 = n33 + n34;
    assert(n35 == (-9) * mn(p, 2, 0, 0, 2, 0, 0, 0) + (9) * mn(p, 2, 0, 0, 1, 0, 1, 1) + (-9) * mn(p, 2, 0, 0, 0, 0, 2, 0) + (9) * mn(p, 1, 0, 1, 2, 0, 0, 1) + (-36) * mn(p, 1, 0, 1, 1, 0, 1, 0) + (9) * mn(p, 1, 0, 1, 0, 0, 2, 1) + (1) * mn(p, 0, 2, 0, 0, 2, 0, 0) + (-9) * mn(p, 0, 0, 2, 2, 0, 0, 0) + (9) * mn(p, 0, 0, 2, 1, 0, 1, 1) + (-9) * mn(p, 0, 0, 2, 0, 0, 2, 2) + (27) * mn(p, 0, 0, 2, 0, 0, 2, 0));
    am1_prod12(p);
    let n36 = n21 * n12;
    assert(n36 == (-3) * mn(p, 1, 1, 0, 0, 0, 2, 0) + (-3) * mn(p, 1, 0, 1, 0, 1, 1, 0) + (1) * mn(p, 0, 2, 0, 0, 1, 1, 0) + (-3) * mn(p, 0, 1, 1, 1, 0, 1, 0) + (1) * mn(p, 0, 1, 1, 0, 2, 0, 0) + (3) * mn(p, 0, 1, 1, 0, 0, 2, 1) + (-3) * mn(p, 0, 0, 2, 1, 1, 0, 0) + (3) * mn(p, 0, 0, 2, 0, 1, 1, 1));
    am1_prod13(p);
    let n37 = n7 * n29;
    assert(n37 == (3) * mn(p, 2, 0, 0, 1, 1, 0, 0) + (3) * mn(p, 1, 1, 0, 2, 0, 0, 0) + (-3) * mn(p, 1, 0, 1, 0, 1, 1, 0) + (-3) * mn(p, 0, 1, 1, 1, 0, 1, 0));
    let n38 = n36 + n37;
    assert(n38 == (3) * mn(p, 2, 0, 0, 1, 1, 0, 0) + (3) * mn(p, 1, 1, 0, 2, 0, 0, 0) + (-3) * mn(p, 1, 1, 0, 0, 0, 2, 0) + (-6) * mn(p, 1, 0, 1, 0, 1, 1, 0) + (1) * mn(p, 0, 2, 0, 0, 1, 1, 0) + (-6) * mn(p, 0, 1, 1, 1, 0, 1, 0) + (1) * mn(p, 0, 1, 1, 0, 2, 0, 0) + (3) * mn(p, 0, 1, 1, 0, 0, 2, 1) + (-3) * mn(p, 0, 0, 2, 1, 1, 0, 0) + (3) * mn(p, 0, 0, 2, 0, 1, 1, 1));
    am1_prod14(p);
    let n39 = y2 * z1;
    assert(n39 == (1) * mn(p, 0, 0, 1, 0, 1, 0, 0));
    am1_prod15(p);
    let n40 = y1 * z2;
    assert(n40 == (1) * mn(p, 0, 1, 0, 0, 0, 1, 0));
    let n41 = n39 - n40;
    assert(n41 == (-1) * mn(p, 0, 1, 0, 0, 0, 1, 0) + (1) * mn(p, 0, 0, 1, 0, 1, 0, 0));
    am1_prod16(p);
    let n42 = x2 * z1;
    assert(n42 == (1) * mn(p, 0, 0, 1, 1, 0, 0, 0));
    am1_prod17(p);
    let n43 = x1 * z2;
    assert(n43 == (1) * mn(p, 1, 0, 0, 0, 0, 1, 0));
    let n44 = n42 - n43;
    assert(n44 == (-1) * mn(p, 1, 0, 0, 0, 0, 1, 0) + (1) * mn(p, 0, 0, 1, 1, 0, 0, 0));
    am1_prod18(p);
    let n45 = n41 * n41;
    assert(n45 == (1) * mn(p, 0, 2, 0, 0, 0, 2, 0) + (-2) * mn(p, 0, 1, 1, 0, 1, 1, 0) + (1) * mn(p, 0, 0, 2, 0, 2, 0, 0));
    am1_prod19(p);
    let n46 = n45 * z1;
    assert(n46 == (1) * mn(p, 0, 2, 1, 0, 0, 2, 0) + (-2) * mn(p, 0, 1, 2, 0, 1, 1, 0) + (1) * mn(p, 0, 0, 3, 0, 2, 0, 0));
    am1_prod20(p);
    let n47 = n46 * z2;
    assert(n47 == (1) * mn(p, 0, 2, 1, 0, 0, 3, 0) + (-2) * mn(p, 0, 1, 2, 0, 1, 2, 0) + (1) * mn(p, 0, 0, 3, 0, 2, 1, 0));
    am1_prod21(p);
    let n48 = n44 * n44;
    assert(n48 == (1) * mn(p, 2, 0, 0, 0, 0, 2, 0) + (-2) * mn(p, 1, 0, 1, 1, 0, 1, 0) + (1) * mn(p, 0, 0, 2, 2, 0, 0, 0));
    let n49 = n43 + n42;
    assert(n49 == (1) * mn(p, 1, 0, 0, 0, 0, 1, 0) + (1) * mn(p, 0, 0, 1, 1, 0, 0, 0));
    am1_prod22(p);
    let n50 = n48 * n49;
    assert(n50 == (1) * mn(p, 3, 0, 0, 0, 0, 3, 0) + (-1) * mn(p, 2, 0, 1, 1, 0, 2, 0) + (-1) * mn(p, 1, 0, 2, 2, 0, 1, 0) + (1) * mn(p, 0, 0, 3, 3, 0, 0, 0));
    let n51 = n47 - n50;
    assert(n51 == (-1) * mn(p, 3, 0, 0, 0, 0, 3, 0) + (1) * mn(p, 2, 0, 1, 1, 0, 2, 0) + (1) * mn(p, 1, 0, 2, 2, 0, 1, 0) + (1) * mn(p, 0, 2, 1, 0, 0, 3, 0) + (-2) * mn(p, 0, 1, 2, 0, 1, 2, 0) + (-1) * mn(p, 0, 0, 3, 3, 0, 0, 0) + (1) * mn(p, 0, 0, 3, 0, 2, 1, 0));
    am1_prod23(p);
    let n52 = n44 * n51;
    assert(n52 == (1) * mn(p, 4, 0, 0, 0, 0, 4, 0) + (-2) * mn(p, 3, 0, 1, 1, 0, 3, 0) + (-1) * mn(p, 1, 2, 1, 0, 0, 4, 0) + (2) * mn(p, 1, 1, 2, 0, 1, 3, 0) + (2) * mn(p, 1, 0, 3, 3, 0, 1, 0) + (-1) * mn(p, 1, 0, 3, 0, 2, 2, 0) + (1) * mn(p, 0, 2, 2, 1, 0, 3, 0) + (-2) * mn(p, 0, 1, 3, 1, 1, 2, 0) + (-1) * mn(p, 0, 0, 4, 4, 0, 0, 0) + (1) * mn(p, 0, 0, 4, 1, 2, 1, 0));
    am1_prod24(p);
    let n53 = n48 * x1;
    assert(n53 == (1) * mn(p, 3, 0, 0, 0, 0, 2, 0) + (-2) * mn(p, 2, 0, 1, 1, 0, 1, 0) + (1) * mn(p, 1, 0, 2, 2, 0, 0, 0));
    am1_prod25(p);
    let n54 = n53 * z2;
    assert(n54 == (1) * mn(p, 3, 0, 0, 0, 0, 3, 0) + (-2) * mn(p, 2, 0, 1, 1, 0, 2, 0) + (1) * mn(p, 1, 0, 2, 2, 0, 1, 0));
    let n55 = n54 - n51;
    assert(n55 == (2) * mn(p, 3, 0, 0, 0, 0, 3, 0) + (-3) * mn(p, 2, 0, 1, 1, 0, 2, 0) + (-1) * mn(p, 0, 2, 1, 0, 0, 3, 0) + (2) * mn(p, 0, 1, 2, 0, 1, 2, 0) + (1) * mn(p, 0, 0, 3, 3, 0, 0, 0) + (-1) * mn(p, 0, 0, 3, 0, 2, 1, 0));
    am1_prod26(p);
    let n56 = n41 * n55;
    assert(n56 == (-2) * mn(p, 3, 1, 0, 0, 0, 4, 0) + (2) * mn(p, 3, 0, 1, 0, 1, 3, 0) + (3) * mn(p, 2, 1, 1, 1, 0, 3, 0) + (-3) * mn(p, 2, 0, 2, 1, 1, 2, 0) + (1) * mn(p, 0, 3, 1, 0, 0, 4, 0) + (-3) * mn(p, 0, 2, 2, 0, 1, 3, 0) + (-1) * mn(p, 0, 1, 3, 3, 0, 1, 0) + (3) * mn(p, 0, 1, 3, 0, 2, 2, 0) + (1) * mn(p, 0, 0, 4, 3, 1, 0, 0) + (-1) * mn(p, 0, 0, 4, 0, 3, 1, 0));
    am1_prod27(p);
    let n57 = y1 * n44;
    assert(n57 == (-1) * mn(p, 1, 1, 0, 0, 0, 1, 0) + (1) * mn(p, 0, 1, 1, 1, 0, 0, 0));
    am1_prod28(p);
    let n58 = n57 * n44;
    assert(n58 == (1) * mn(p, 2, 1, 0, 0, 0, 2, 0) + (-2) * mn(p, 1, 1, 1, 1, 0, 1, 0) + (1) * mn(p, 0, 1, 2, 2, 0, 0, 0));
    am1_prod29(p);
    let n59 = n58 * n44;
    assert(n59 == (-1) * mn(p, 3, 1, 0, 0, 0, 3, 0) + (3) * mn(p, 2, 1, 1, 1, 0, 2, 0) + (-3) * mn(p, 1, 1, 2, 2, 0, 1, 0) + (1) * mn(p, 0, 1, 3, 3, 0, 0, 0));
    am1_prod30(p);
    let n60 = n59 * z2;
    assert(n60 == (-1) * mn(p, 3, 1, 0, 0, 0, 4, 0) + (3) * mn(p, 2, 1, 1, 1, 0, 3, 0) + (-3) * mn(p, 1, 1, 2, 2, 0, 2, 0) + (1) * mn(p, 0, 1, 3, 3, 0, 1, 0));
    let n61 = n56 - n60;
    assert(n61 == (-1) * mn(p, 3, 1, 0, 0, 0, 4, 0) + (2) * mn(p, 3, 0, 1, 0, 1, 3, 0) + (-3) * mn(p, 2, 0, 2, 1, 1, 2, 0) + (3) * mn(p, 1, 1, 2, 2, 0, 2, 0) + (1) * mn(p, 0, 3, 1, 0, 0, 4, 0) + (-3) * mn(p, 0, 2, 2, 0, 1, 3, 0) + (-2) * mn(p, 0, 1, 3, 3, 0, 1, 0) + (3) * mn(p, 0, 1, 3, 0, 2, 2, 0) + (1) * mn(p, 0, 0, 4, 3, 1, 0, 0) + (-1) * mn(p, 0, 0, 4, 0, 3, 1, 0));
    am1_prod31(p);
    let n62 = n48 * n44;
    assert(n62 == (-1) * mn(p, 3, 0, 0, 0, 0, 3, 0) + (3) * mn(p, 2, 0, 1, 1, 0, 2, 0) + (-3) * mn(p, 1, 0, 2, 2, 0, 1, 0) + (1) * mn(p, 0, 0, 3, 3, 0, 0, 0));
    am1_prod32(p);
    let n63 = n62 * z1;
    assert(n63 == (-1) * mn(p, 3, 0, 1, 0, 0, 3, 0) + (3) * mn(p, 2, 0, 2, 1, 0, 2, 0) + (-3) * mn(p, 1, 0, 3, 2, 0, 1, 0) + (1) * mn(p, 0, 0, 4, 3, 0, 0, 0));
    am1_prod33(p);
    let n64 = n63 * z2;
    assert(n64 == (-1) * mn(p, 3, 0, 1, 0, 0, 4, 0) + (3) * mn(p, 2, 0, 2, 1, 0, 3, 0) + (-3) * mn(p, 1, 0, 3, 2, 0, 2, 0) + (1) * mn(p, 0, 0, 4, 3, 0, 1, 0));
    am1_prod34(p);
    let n65 = n32 * n64;
    assert(n65 == (-3) * mn(p, 5, 0, 1, 0, 1, 5, 0) + (-6) * mn(p, 4, 1, 1, 1, 0, 5, 0) + (-1) * mn(p, 4, 1, 1, 0, 2, 4, 0) + (3) * mn(p, 4, 1, 1, 0, 0, 6, 1) + (3) * mn(p, 4, 0, 2, 1, 1, 4, 0) + (6) * mn(p, 4, 0, 2, 0, 1, 5, 1) + (-1) * mn(p, 3, 2, 1, 1, 1, 4, 0) + (15) * mn(p, 3, 1, 2, 2, 0, 4, 0) + (3) * mn(p, 3, 1, 2, 1, 2, 3, 0) + (-3) * mn(p, 3, 1, 2, 1, 0, 5, 1) + (-9) * mn(p, 3, 1, 2, 0, 0, 6, 0) + (9) * mn(p, 3, 0, 3, 2, 1, 3, 0) + (-15) * mn(p, 3, 0, 3, 1, 1, 4, 1) + (-9) * mn(p, 3, 0, 3, 0, 1, 5, 0) + (3) * mn(p, 2, 2, 2, 2, 1, 3, 0) + (-9) * mn(p, 2, 1, 3, 3, 0, 3, 0) + (-3) * mn(p, 2, 1, 3, 2, 2, 2, 0) + (-9) * mn(p, 2, 1, 3, 2, 0, 4, 1) + (27) * mn(p, 2, 1, 3, 1, 0, 5, 0) + (-15) * mn(p, 2, 0, 4, 3, 1, 2, 0) + (9) * mn(p, 2, 0, 4, 2, 1, 3, 1) + (27) * mn(p, 2, 0, 4, 1, 1, 4, 0) + (-3) * mn(p, 1, 2, 3, 3, 1, 2, 0) + (-3) * mn(p, 1, 1, 4, 4, 0, 2, 0) + (1) * mn(p, 1, 1, 4, 3, 2, 1, 0) + (15) * mn(p, 1, 1, 4, 3, 0, 3, 1) + (-27) * mn(p, 1, 1, 4, 2, 0, 4, 0) + (6) * mn(p, 1, 0, 5, 4, 1, 1, 0) + (3) * mn(p, 1, 0, 5, 3, 1, 2, 1) + (-27) * mn(p, 1, 0, 5, 2, 1, 3, 0) + (1) * mn(p, 0, 2, 4, 4, 1, 1, 0) + (3) * mn(p, 0, 1, 5, 5, 0, 1, 0) + (-6) * mn(p, 0, 1, 5, 4, 0, 2, 1) + (9) * mn(p, 0, 1, 5, 3, 0, 3, 0) + (-3) * mn(p, 0, 0, 6, 4, 1, 1, 1) + (9) * mn(p, 0, 0, 6, 3, 1, 2, 0));
    am1_prod35(p);
    let n66 = n52 * n38;
    assert(n66 == (3) * mn(p, 6, 0, 0, 1, 1, 4, 0) + (3) * mn(p, 5, 1, 0, 2, 0, 4, 0) + (-3) * mn(p, 5, 1, 0, 0, 0, 6, 0) + (-6) * mn(p, 5, 0, 1, 2, 1, 3, 0) + (-6) * mn(p, 5, 0, 1, 0, 1, 5, 0) + (1) * mn(p, 4, 2, 0, 0, 1, 5, 0) + (-6) * mn(p, 4, 1, 1, 3, 0, 3, 0) + (1) * mn(p, 4, 1, 1, 0, 2, 4, 0) + (3) * mn(p, 4, 1, 1, 0, 0, 6, 1) + (9) * mn(p, 4, 0, 2, 1, 1, 4, 0) + (3) * mn(p, 4, 0, 2, 0, 1, 5, 1) + (-5) * mn(p, 3, 2, 1, 1, 1, 4, 0) + (12) * mn(p, 3, 1, 2, 2, 0, 4, 0) + (4) * mn(p, 3, 1, 2, 1, 2, 3, 0) + (-6) * mn(p, 3, 1, 2, 1, 0, 5, 1) + (6) * mn(p, 3, 0, 3, 4, 1, 1, 0) + (6) * mn(p, 3, 0, 3, 2, 1, 3, 0) + (-3) * mn(p, 3, 0, 3, 1, 3, 2, 0) + (-6) * mn(p, 3, 0, 3, 1, 1, 4, 1) + (-3) * mn(p, 2, 3, 1, 2, 0, 4, 0) + (3) * mn(p, 2, 3, 1, 0, 0, 6, 0) + (9) * mn(p, 2, 2, 2, 2, 1, 3, 0) + (6) * mn(p, 2, 1, 3, 5, 0, 1, 0) + (-6) * mn(p, 2, 1, 3, 3, 0, 3, 0) + (-9) * mn(p, 2, 1, 3, 2, 2, 2, 0) + (-9) * mn(p, 2, 1, 3, 0, 2, 4, 0) + (-3) * mn(p, 2, 0, 4, 5, 1, 0, 0) + (-12) * mn(p, 2, 0, 4, 3, 1, 2, 0) + (3) * mn(p, 2, 0, 4, 2, 3, 1, 0) + (6) * mn(p, 2, 0, 4, 0, 3, 3, 0) + (-1) * mn(p, 1, 4, 1, 0, 1, 5, 0) + (3) * mn(p, 1, 3, 2, 3, 0, 3, 0) + (3) * mn(p, 1, 3, 2, 1, 0, 5, 0) + (1) * mn(p, 1, 3, 2, 0, 2, 4, 0) + (-3) * mn(p, 1, 3, 2, 0, 0, 6, 1) + (-4) * mn(p, 1, 2, 3, 3, 1, 2, 0) + (-9) * mn(p, 1, 2, 3, 1, 1, 4, 0) + (1) * mn(p, 1, 2, 3, 0, 3, 3, 0) + (3) * mn(p, 1, 2, 3, 0, 1, 5, 1) + (-3) * mn(p, 1, 1, 4, 6, 0, 0, 0) + (-9) * mn(p, 1, 1, 4, 4, 0, 2, 0) + (5) * mn(p, 1, 1, 4, 3, 2, 1, 0) + (6) * mn(p, 1, 1, 4, 3, 0, 3, 1) + (9) * mn(p, 1, 1, 4, 1, 2, 3, 0) + (-1) * mn(p, 1, 1, 4, 0, 4, 2, 0) + (3) * mn(p, 1, 1, 4, 0, 2, 4, 1) + (6) * mn(p, 1, 0, 5, 3, 1, 2, 1) + (-3) * mn(p, 1, 0, 5, 1, 3, 2, 0) + (-3) * mn(p, 1, 0, 5, 0, 3, 3, 1) + (1) * mn(p, 0, 4, 2, 1, 1, 4, 0) + (-6) * mn(p, 0, 3, 3, 2, 0, 4, 0) + (-1) * mn(p, 0, 3, 3, 1, 2, 3, 0) + (3) * mn(p, 0, 3, 3, 1, 0, 5, 1) + (-1) * mn(p, 0, 2, 4, 4, 1, 1, 0) + (9) * mn(p, 0, 2, 4, 2, 1, 3, 0) + (-1) * mn(p, 0, 2, 4, 1, 3, 2, 0) + (-3) * mn(p, 0, 2, 4, 1, 1, 4, 1) + (6) * mn(p, 0, 1, 5, 5, 0, 1, 0) + (-1) * mn(p, 0, 1, 5, 4, 2, 0, 0) + (-3) * mn(p, 0, 1, 5, 4, 0, 2, 1) + (1) * mn(p, 0, 1, 5, 1, 4, 1, 0) + (-3) * mn(p, 0, 1, 5, 1, 2, 3, 1) + (3) * mn(p, 0, 0, 6, 5, 1, 0, 0) + (-3) * mn(p, 0, 0, 6, 4, 1, 1, 1) + (-3) * mn(p, 0, 0, 6, 2, 3, 1, 0) + (3) * mn(p, 0, 0, 6, 1, 3, 2, 1));
    let n67 = n65 - n66;
    assert(n67 == (-3) * mn(p, 6, 0, 0, 1, 1, 4, 0) + (-3) * mn(p, 5, 1, 0, 2, 0, 4, 0) + (3) * mn(p, 5, 1, 0, 0, 0, 6, 0) + (6) * mn(p, 5, 0, 1, 2, 1, 3, 0) + (3) * mn(p, 5, 0, 1, 0, 1, 5, 0) + (-1) * mn(p, 4, 2, 0, 0, 1, 5, 0) + (6) * mn(p, 4, 1, 1, 3, 0, 3, 0) + (-6) * mn(p, 4, 1, 1, 1, 0, 5, 0) + (-2) * mn(p, 4, 1, 1, 0, 2, 4, 0) + (-6) * mn(p, 4, 0, 2, 1, 1, 4, 0) + (3) * mn(p, 4, 0, 2, 0, 1, 5, 1) + (4) * mn(p, 3, 2, 1, 1, 1, 4, 0) + (3) * mn(p, 3, 1, 2, 2, 0, 4, 0) + (-1) * mn(p, 3, 1, 2, 1, 2, 3, 0) + (3) * mn(p, 3, 1, 2, 1, 0, 5, 1) + (-9) * mn(p, 3, 1, 2, 0, 0, 6, 0) + (-6) * mn(p, 3, 0, 3, 4, 1, 1, 0) + (3) * mn(p, 3, 0, 3, 2, 1, 3, 0) + (3) * mn(p, 3, 0, 3, 1, 3, 2, 0) + (-9) * mn(p, 3, 0, 3, 1, 1, 4, 1) + (-9) * mn(p, 3, 0, 3, 0, 1, 5, 0) + (3) * mn(p, 2, 3, 1, 2, 0, 4, 0) + (-3) * mn(p, 2, 3, 1, 0, 0, 6, 0) + (-6) * mn(p, 2, 2, 2, 2, 1, 3, 0) + (-6) * mn(p, 2, 1, 3, 5, 0, 1, 0) + (-3) * mn(p, 2, 1, 3, 3, 0, 3, 0) + (6) * mn(p, 2, 1, 3, 2, 2, 2, 0) + (-9) * mn(p, 2, 1, 3, 2, 0, 4, 1) + (27) * mn(p, 2, 1, 3, 1, 0, 5, 0) + (9) * mn(p, 2, 1, 3, 0, 2, 4, 0) + (3) * mn(p, 2, 0, 4, 5, 1, 0, 0) + (-3) * mn(p, 2, 0, 4, 3, 1, 2, 0) + (-3) * mn(p, 2, 0, 4, 2, 3, 1, 0) + (9) * mn(p, 2, 0, 4, 2, 1, 3, 1) + (27) * mn(p, 2, 0, 4, 1, 1, 4, 0) + (-6) * mn(p, 2, 0, 4, 0, 3, 3, 0) + (1) * mn(p, 1, 4, 1, 0, 1, 5, 0) + (-3) * mn(p, 1, 3, 2, 3, 0, 3, 0) + (-3) * mn(p, 1, 3, 2, 1, 0, 5, 0) + (-1) * mn(p, 1, 3, 2, 0, 2, 4, 0) + (3) * mn(p, 1, 3, 2, 0, 0, 6, 1) + (1) * mn(p, 1, 2, 3, 3, 1, 2, 0) + (9) * mn(p, 1, 2, 3, 1, 1, 4, 0) + (-1) * mn(p, 1, 2, 3, 0, 3, 3, 0) + (-3) * mn(p, 1, 2, 3, 0, 1, 5, 1) + (3) * mn(p, 1, 1, 4, 6, 0, 0, 0) + (6) * mn(p, 1, 1, 4, 4, 0, 2, 0) + (-4) * mn(p, 1, 1, 4, 3, 2, 1, 0) + (9) * mn(p, 1, 1, 4, 3, 0, 3, 1) + (-27) * mn(p, 1, 1, 4, 2, 0, 4, 0) + (-9) * mn(p, 1, 1, 4, 1, 2, 3, 0) + (1) * mn(p, 1, 1, 4, 0, 4, 2, 0) + (-3) * mn(p, 1, 1, 4, 0, 2, 4, 1) + (6) * mn(p, 1, 0, 5, 4, 1, 1, 0) + (-3) * mn(p, 1, 0, 5, 3, 1, 2, 1) + (-27) * mn(p, 1, 0, 5, 2, 1, 3, 0) + (3) * mn(p, 1, 0, 5, 1, 3, 2, 0) + (3) * mn(p, 1, 0, 5, 0, 3, 3, 1) + (-1) * mn(p, 0, 4, 2, 1, 1, 4, 0) + (6) * mn(p, 0, 3, 3, 2, 0, 4, 0) + (1) * mn(p, 0, 3, 3, 1, 2, 3, 0) + (-3) * mn(p, 0, 3, 3, 1, 0, 5, 1) + (2) * mn(p, 0, 2, 4, 4, 1, 1, 0) + (-9) * mn(p, 0, 2, 4, 2, 1, 3, 0) + (1) * mn(p, 0, 2, 4, 1, 3, 2, 0) + (3) * mn(p, 0, 2, 4, 1, 1, 4, 1) + (-3) * mn(p, 0, 1, 5, 5, 0, 1, 0) + (1) * mn(p, 0, 1, 5, 4, 2, 0, 0) + (-3) * mn(p, 0, 1, 5, 4, 0, 2, 1) + (9) * mn(p, 0, 1, 5, 3, 0, 3, 0) + (-1) * mn(p, 0, 1, 5, 1, 4, 1, 0) + (3) * mn(p, 0, 1, 5, 1, 2, 3, 1) + (-3) * mn(p, 0, 0, 6, 5, 1, 0, 0) + (9) * mn(p, 0, 0, 6, 3, 1, 2, 0) + (3) * mn(p, 0, 0, 6, 2, 3, 1, 0) + (-3) * mn(p, 0, 0, 6, 1, 3, 2, 1));
    am1_prod36(p);
    let n68 = n35 * n64;
    assert(n68 == (9) * mn(p, 5, 0, 1, 2, 0, 4, 0) + (-9) * mn(p, 5, 0, 1, 1, 0, 5, 1) + (9) * mn(p, 5, 0, 1, 0, 0, 6, 0) + (-27) * mn(p, 4, 0, 2, 3, 0, 3, 0) + (18) * mn(p, 4, 0, 2, 2, 0, 4, 1) + (9) * mn(p, 4, 0, 2, 1, 0, 5, 0) + (-9) * mn(p, 4, 0, 2, 0, 0, 6, 1) + (-1) * mn(p, 3, 2, 1, 0, 2, 4, 0) + (27) * mn(p, 3, 0, 3, 4, 0, 2, 0) + (-72) * mn(p, 3, 0, 3, 2, 0, 4, 0) + (18) * mn(p, 3, 0, 3, 1, 0, 5, 1) + (9) * mn(p, 3, 0, 3, 0, 0, 6, 2) + (-27) * mn(p, 3, 0, 3, 0, 0, 6, 0) + (3) * mn(p, 2, 2, 2, 1, 2, 3, 0) + (-9) * mn(p, 2, 0, 4, 5, 0, 1, 0) + (-18) * mn(p, 2, 0, 4, 4, 0, 2, 1) + (72) * mn(p, 2, 0, 4, 3, 0, 3, 0) + (-27) * mn(p, 2, 0, 4, 1, 0, 5, 2) + (81) * mn(p, 2, 0, 4, 1, 0, 5, 0) + (-3) * mn(p, 1, 2, 3, 2, 2, 2, 0) + (9) * mn(p, 1, 0, 5, 5, 0, 1, 1) + (-9) * mn(p, 1, 0, 5, 4, 0, 2, 0) + (-18) * mn(p, 1, 0, 5, 3, 0, 3, 1) + (27) * mn(p, 1, 0, 5, 2, 0, 4, 2) + (-81) * mn(p, 1, 0, 5, 2, 0, 4, 0) + (1) * mn(p, 0, 2, 4, 3, 2, 1, 0) + (-9) * mn(p, 0, 0, 6, 5, 0, 1, 0) + (9) * mn(p, 0, 0, 6, 4, 0, 2, 1) + (-9) * mn(p, 0, 0, 6, 3, 0, 3, 2) + (27) * mn(p, 0, 0, 6, 3, 0, 3, 0));
    am1_prod37(p);
    let n69 = n61 * n38;
    assert(n69 == (-3) * mn(p, 5, 1, 0, 1, 1, 4, 0) + (6) * mn(p, 5, 0, 1, 1, 2, 3, 0) + (-3) * mn(p, 4, 2, 0, 2, 0, 4, 0) + (3) * mn(p, 4, 2, 0, 0, 0, 6, 0) + (6) * mn(p, 4, 1, 1, 2, 1, 3, 0) + (-9) * mn(p, 4, 0, 2, 2, 2, 2, 0) + (-12) * mn(p, 4, 0, 2, 0, 2, 4, 0) + (-1) * mn(p, 3, 3, 0, 0, 1, 5, 0) + (6) * mn(p, 3, 2, 1, 1, 0, 5, 0) + (1) * mn(p, 3, 2, 1, 0, 2, 4, 0) + (-3) * mn(p, 3, 2, 1, 0, 0, 6, 1) + (2) * mn(p, 3, 1, 2, 0, 3, 3, 0) + (3) * mn(p, 3, 1, 2, 0, 1, 5, 1) + (12) * mn(p, 3, 0, 3, 1, 2, 3, 0) + (6) * mn(p, 3, 0, 3, 0, 2, 4, 1) + (3) * mn(p, 2, 3, 1, 1, 1, 4, 0) + (9) * mn(p, 2, 2, 2, 4, 0, 2, 0) + (-9) * mn(p, 2, 2, 2, 2, 0, 4, 0) + (-12) * mn(p, 2, 2, 2, 1, 2, 3, 0) + (-6) * mn(p, 2, 1, 3, 4, 1, 1, 0) + (6) * mn(p, 2, 1, 3, 1, 3, 2, 0) + (-9) * mn(p, 2, 1, 3, 1, 1, 4, 1) + (3) * mn(p, 2, 0, 4, 4, 2, 0, 0) + (9) * mn(p, 2, 0, 4, 2, 2, 2, 0) + (-3) * mn(p, 2, 0, 4, 1, 4, 1, 0) + (-9) * mn(p, 2, 0, 4, 1, 2, 3, 1) + (3) * mn(p, 1, 4, 1, 2, 0, 4, 0) + (-3) * mn(p, 1, 4, 1, 0, 0, 6, 0) + (-6) * mn(p, 1, 3, 2, 2, 1, 3, 0) + (3) * mn(p, 1, 3, 2, 0, 1, 5, 0) + (-6) * mn(p, 1, 2, 3, 5, 0, 1, 0) + (-12) * mn(p, 1, 2, 3, 3, 0, 3, 0) + (12) * mn(p, 1, 2, 3, 2, 2, 2, 0) + (9) * mn(p, 1, 2, 3, 2, 0, 4, 1) + (9) * mn(p, 1, 2, 3, 0, 2, 4, 0) + (3) * mn(p, 1, 1, 4, 5, 1, 0, 0) + (-3) * mn(p, 1, 1, 4, 2, 3, 1, 0) + (9) * mn(p, 1, 1, 4, 2, 1, 3, 1) + (-15) * mn(p, 1, 1, 4, 0, 3, 3, 0) + (-6) * mn(p, 1, 0, 5, 3, 2, 1, 0) + (6) * mn(p, 1, 0, 5, 0, 4, 2, 0) + (1) * mn(p, 0, 5, 1, 0, 1, 5, 0) + (-6) * mn(p, 0, 4, 2, 1, 0, 5, 0) + (-2) * mn(p, 0, 4, 2, 0, 2, 4, 0) + (3) * mn(p, 0, 4, 2, 0, 0, 6, 1) + (-2) * mn(p, 0, 3, 3, 3, 1, 2, 0) + (15) * mn(p, 0, 3, 3, 1, 1, 4, 0) + (-6) * mn(p, 0, 3, 3, 0, 1, 5, 1) + (12) * mn(p, 0, 2, 4, 4, 0, 2, 0) + (-1) * mn(p, 0, 2, 4, 3, 2, 1, 0) + (-6) * mn(p, 0, 2, 4, 3, 0, 3, 1) + (-9) * mn(p, 0, 2, 4, 1, 2, 3, 0) + (2) * mn(p, 0, 2, 4, 0, 4, 2, 0) + (1) * mn(p, 0, 1, 5, 3, 3, 0, 0) + (-3) * mn(p, 0, 1, 5, 3, 1, 2, 1) + (-3) * mn(p, 0, 1, 5, 1, 3, 2, 0) + (-1) * mn(p, 0, 1, 5, 0, 5, 1, 0) + (6) * mn(p, 0, 1, 5, 0, 3, 3, 1) + (-3) * mn(p, 0, 0, 6, 4, 2, 0, 0) + (3) * mn(p, 0, 0, 6, 3, 2, 1, 1) + (3) * mn(p, 0, 0, 6, 1, 4, 1, 0) + (-3) * mn(p, 0, 0, 6, 0, 4, 2, 1));
    let n70 = n68 - n69;
    assert(n70 == (3) * mn(p, 5, 1, 0, 1, 1, 4, 0) + (9) * mn(p, 5, 0, 1, 2, 0, 4, 0) + (-6) * mn(p, 5, 0, 1, 1, 2, 3, 0) + (-9) * mn(p, 5, 0, 1, 1, 0, 5, 1) + (9) * mn(p, 5, 0, 1, 0, 0, 6, 0) + (3) * mn(p, 4, 2, 0, 2, 0, 4, 0) + (-3) * mn(p, 4, 2, 0, 0, 0, 6, 0) + (-6) * mn(p, 4, 1, 1, 2, 1, 3, 0) + (-27) * mn(p, 4, 0, 2, 3, 0, 3, 0) + (9) * mn(p, 4, 0, 2, 2, 2, 2, 0) + (18) * mn(p, 4, 0, 2, 2, 0, 4, 1) + (9) * mn(p, 4, 0, 2, 1, 0, 5, 0) + (12) * mn(p, 4, 0, 2, 0, 2, 4, 0) + (-9) * mn(p, 4, 0, 2, 0, 0, 6, 1) + (1) * mn(p, 3, 3, 0, 0, 1, 5, 0) + (-6) * mn(p, 3, 2, 1, 1, 0, 5, 0) + (-2) * mn(p, 3, 2, 1, 0, 2, 4, 0) + (3) * mn(p, 3, 2, 1, 0, 0, 6, 1) + (-2) * mn(p, 3, 1, 2, 0, 3, 3, 0) + (-3) * mn(p, 3, 1, 2, 0, 1, 5, 1) + (27) * mn(p, 3, 0, 3, 4, 0, 2, 0) + (-72) * mn(p, 3, 0, 3, 2, 0, 4, 0) + (-12) * mn(p, 3, 0, 3, 1, 2, 3, 0) + (18) * mn(p, 3, 0, 3, 1, 0, 5, 1) + (-6) * mn(p, 3, 0, 3, 0, 2, 4, 1) + (9) * mn(p, 3, 0, 3, 0, 0, 6, 2) + (-27) * mn(p, 3, 0, 3, 0, 0, 6, 0) + (-3) * mn(p, 2, 3, 1, 1, 1, 4, 0) + (-9) * mn(p, 2, 2, 2, 4, 0, 2, 0) + (9) * mn(p, 2, 2, 2, 2, 0, 4, 0) + (15) * mn(p, 2, 2, 2, 1, 2, 3, 0) + (6) * mn(p, 2, 1, 3, 4, 1, 1, 0) + (-6) * mn(p, 2, 1, 3, 1, 3, 2, 0) + (9) * mn(p, 2, 1, 3, 1, 1, 4, 1) + (-9) * mn(p, 2, 0, 4, 5, 0, 1, 0) + (-3) * mn(p, 2, 0, 4, 4, 2, 0, 0) + (-18) * mn(p, 2, 0, 4, 4, 0, 2, 1) + (72) * mn(p, 2, 0, 4, 3, 0, 3, 0) + (-9) * mn(p, 2, 0, 4, 2, 2, 2, 0) + (3) * mn(p, 2, 0, 4, 1, 4, 1, 0) + (9) * mn(p, 2, 0, 4, 1, 2, 3, 1) + (-27) * mn(p, 2, 0, 4, 1, 0, 5, 2) + (81) * mn(p, 2, 0, 4, 1, 0, 5, 0) + (-3) * mn(p, 1, 4, 1, 2, 0, 4, 0) + (3) * mn(p, 1, 4, 1, 0, 0, 6, 0) + (6) * mn(p, 1, 3, 2, 2, 1, 3, 0) + (-3) * mn(p, 1, 3, 2, 0, 1, 5, 0) + (6) * mn(p, 1, 2, 3, 5, 0, 1, 0) + (12) * mn(p, 1, 2, 3, 3, 0, 3, 0) + (-15) * mn(p, 1, 2, 3, 2, 2, 2, 0) + (-9) * mn(p, 1, 2, 3, 2, 0, 4, 1) + (-9) * mn(p, 1, 2, 3, 0, 2, 4, 0) + (-3) * mn(p, 1, 1, 4, 5, 1, 0, 0) + (3) * mn(p, 1, 1, 4, 2, 3, 1, 0) + (-9) * mn(p, 1, 1, 4, 2, 1, 3, 1) + (15) * mn(p, 1, 1, 4, 0, 3, 3, 0) + (9) * mn(p, 1, 0, 5, 5, 0, 1, 1) + (-9) * mn(p, 1, 0, 5, 4, 0, 2, 0) + (6) * mn(p, 1, 0, 5, 3, 2, 1, 0) + (-18) * mn(p, 1, 0, 5, 3, 0, 3, 1) + (27) * mn(p, 1, 0, 5, 2, 0, 4, 2) + (-81) * mn(p, 1, 0, 5, 2, 0, 4, 0) + (-6) * mn(p, 1, 0, 5, 0, 4, 2, 0) + (-1) * mn(p, 0, 5, 1, 0, 1, 5, 0) + (6) * mn(p, 0, 4, 2, 1, 0, 5, 0) + (2) * mn(p, 0, 4, 2, 0, 2, 4, 0) + (-3) * mn(p, 0, 4, 2, 0, 0, 6, 1) + (2) * mn(p, 0, 3, 3, 3, 1, 2, 0) + (-15) * mn(p, 0, 3, 3, 1, 1, 4, 0) + (6) * mn(p, 0, 3, 3, 0, 1, 5, 1) + (-12) * mn(p, 0, 2, 4, 4, 0, 2, 0) + (2) * mn(p, 0, 2, 4, 3, 2, 1, 0) + (6) * mn(p, 0, 2, 4, 3, 0, 3, 1) + (9) * mn(p, 0, 2, 4, 1, 2, 3, 0) + (-2) * mn(p, 0, 2, 4, 0, 4, 2, 0) + (-1) * mn(p, 0, 1, 5, 3, 3, 0, 0) + (3) * mn(p, 0, 1, 5, 3, 1, 2, 1) + (3) * mn(p, 0, 1, 5, 1, 3, 2, 0) + (1) * mn(p, 0, 1, 5, 0, 5, 1, 0) + (-6) * mn(p, 0, 1, 5, 0, 3, 3, 1) + (-9) * mn(p, 0, 0, 6, 5, 0, 1, 0) + (3) * mn(p, 0, 0, 6, 4, 2, 0, 0) + (9) * mn(p, 0, 0, 6, 4, 0, 2, 1) + (-3) * mn(p, 0, 0, 6, 3, 2, 1, 1) + (-9) * mn(p, 0, 0, 6, 3, 0, 3, 2) + (27) * mn(p, 0, 0, 6, 3, 0, 3, 0) + (-3) * mn(p, 0, 0, 6, 1, 4, 1, 0) + (3) * mn(p, 0, 0, 6, 0, 4, 2, 1));
    am1_prod38(p);
    let n71 = n32 * n61;
    assert(n71 == (-3) * mn(p, 5, 1, 0, 0, 1, 5, 0) + (6) * mn(p, 5, 0, 1, 0, 2, 4, 0) + (-6) * mn(p, 4, 2, 0, 1, 0, 5, 0) + (-1) * mn(p, 4, 2, 0, 0, 2, 4, 0) + (3) * mn(p, 4, 2, 0, 0, 0, 6, 1) + (6) * mn(p, 4, 1, 1, 1, 1, 4, 0) + (2) * mn(p, 4, 1, 1, 0, 3, 3, 0) + (3) * mn(p, 4, 0, 2, 1, 2, 3, 0) + (-12) * mn(p, 4, 0, 2, 0, 2, 4, 1) + (-1) * mn(p, 3, 3, 0, 1, 1, 4, 0) + (-3) * mn(p, 3, 2, 1, 2, 0, 4, 0) + (2) * mn(p, 3, 2, 1, 1, 2, 3, 0) + (6) * mn(p, 3, 2, 1, 1, 0, 5, 1) + (-9) * mn(p, 3, 2, 1, 0, 0, 6, 0) + (-3) * mn(p, 3, 1, 2, 2, 1, 3, 0) + (-3) * mn(p, 3, 1, 2, 1, 3, 2, 0) + (9) * mn(p, 3, 1, 2, 0, 1, 5, 0) + (-18) * mn(p, 3, 0, 3, 2, 2, 2, 0) + (12) * mn(p, 3, 0, 3, 1, 2, 3, 1) + (18) * mn(p, 3, 0, 3, 0, 2, 4, 0) + (3) * mn(p, 2, 3, 1, 0, 1, 5, 0) + (18) * mn(p, 2, 2, 2, 3, 0, 3, 0) + (-9) * mn(p, 2, 2, 2, 2, 0, 4, 1) + (-9) * mn(p, 2, 2, 2, 0, 2, 4, 0) + (3) * mn(p, 2, 1, 3, 3, 1, 2, 0) + (-27) * mn(p, 2, 1, 3, 1, 1, 4, 0) + (9) * mn(p, 2, 1, 3, 0, 3, 3, 0) + (3) * mn(p, 2, 0, 4, 3, 2, 1, 0) + (9) * mn(p, 2, 0, 4, 2, 2, 2, 1) + (-27) * mn(p, 2, 0, 4, 1, 2, 3, 0) + (-3) * mn(p, 2, 0, 4, 0, 4, 2, 0) + (6) * mn(p, 1, 4, 1, 1, 0, 5, 0) + (1) * mn(p, 1, 4, 1, 0, 2, 4, 0) + (-3) * mn(p, 1, 4, 1, 0, 0, 6, 1) + (3) * mn(p, 1, 3, 2, 3, 1, 2, 0) + (-12) * mn(p, 1, 3, 2, 1, 1, 4, 0) + (-3) * mn(p, 1, 3, 2, 0, 3, 3, 0) + (3) * mn(p, 1, 3, 2, 0, 1, 5, 1) + (-3) * mn(p, 1, 2, 3, 4, 0, 2, 0) + (-2) * mn(p, 1, 2, 3, 3, 2, 1, 0) + (-12) * mn(p, 1, 2, 3, 3, 0, 3, 1) + (27) * mn(p, 1, 2, 3, 2, 0, 4, 0) + (3) * mn(p, 1, 2, 3, 0, 4, 2, 0) + (9) * mn(p, 1, 2, 3, 0, 2, 4, 1) + (-6) * mn(p, 1, 1, 4, 4, 1, 1, 0) + (1) * mn(p, 1, 1, 4, 3, 3, 0, 0) + (27) * mn(p, 1, 1, 4, 2, 1, 3, 0) + (12) * mn(p, 1, 1, 4, 1, 3, 2, 0) + (-1) * mn(p, 1, 1, 4, 0, 5, 1, 0) + (-15) * mn(p, 1, 1, 4, 0, 3, 3, 1) + (6) * mn(p, 1, 0, 5, 4, 2, 0, 0) + (-6) * mn(p, 1, 0, 5, 3, 2, 1, 1) + (-6) * mn(p, 1, 0, 5, 1, 4, 1, 0) + (6) * mn(p, 1, 0, 5, 0, 4, 2, 1) + (1) * mn(p, 0, 5, 1, 1, 1, 4, 0) + (3) * mn(p, 0, 4, 2, 2, 0, 4, 0) + (-3) * mn(p, 0, 4, 2, 1, 2, 3, 0) + (-6) * mn(p, 0, 4, 2, 1, 0, 5, 1) + (9) * mn(p, 0, 4, 2, 0, 0, 6, 0) + (-2) * mn(p, 0, 3, 3, 4, 1, 1, 0) + (-9) * mn(p, 0, 3, 3, 2, 1, 3, 0) + (3) * mn(p, 0, 3, 3, 1, 3, 2, 0) + (15) * mn(p, 0, 3, 3, 1, 1, 4, 1) + (-18) * mn(p, 0, 3, 3, 0, 1, 5, 0) + (-6) * mn(p, 0, 2, 4, 5, 0, 1, 0) + (1) * mn(p, 0, 2, 4, 4, 2, 0, 0) + (12) * mn(p, 0, 2, 4, 4, 0, 2, 1) + (-18) * mn(p, 0, 2, 4, 3, 0, 3, 0) + (9) * mn(p, 0, 2, 4, 2, 2, 2, 0) + (-1) * mn(p, 0, 2, 4, 1, 4, 1, 0) + (-9) * mn(p, 0, 2, 4, 1, 2, 3, 1) + (3) * mn(p, 0, 1, 5, 5, 1, 0, 0) + (-9) * mn(p, 0, 1, 5, 3, 1, 2, 0) + (-3) * mn(p, 0, 1, 5, 2, 3, 1, 0) + (-3) * mn(p, 0, 1, 5, 1, 3, 2, 1) + (18) * mn(p, 0, 1, 5, 0, 3, 3, 0) + (-3) * mn(p, 0, 0, 6, 4, 2, 0, 1) + (9) * mn(p, 0, 0, 6, 3, 2, 1, 0) + (3) * mn(p, 0, 0, 6, 1, 4, 1, 1) + (-9) * mn(p, 0, 0, 6, 0, 4, 2, 0));
    am1_prod39(p);
    let n72 = n52 * n35;
    assert(n72 == (-9) * mn(p, 6, 0, 0, 2, 0, 4, 0) + (9) * mn(p, 6, 0, 0, 1, 0, 5, 1) + (-9) * mn(p, 6, 0, 0, 0, 0, 6, 0) + (18) * mn(p, 5, 0, 1, 3, 0, 3, 0) + (-9) * mn(p, 5, 0, 1, 2, 0, 4, 1) + (-18) * mn(p, 5, 0, 1, 1, 0, 5, 0) + (9) * mn(p, 5, 0, 1, 0, 0, 6, 1) + (1) * mn(p, 4, 2, 0, 0, 2, 4, 0) + (-18) * mn(p, 4, 0, 2, 3, 0, 3, 1) + (63) * mn(p, 4, 0, 2, 2, 0, 4, 0) + (-9) * mn(p, 4, 0, 2, 1, 0, 5, 1) + (-9) * mn(p, 4, 0, 2, 0, 0, 6, 2) + (27) * mn(p, 4, 0, 2, 0, 0, 6, 0) + (9) * mn(p, 3, 2, 1, 2, 0, 4, 0) + (-2) * mn(p, 3, 2, 1, 1, 2, 3, 0) + (-9) * mn(p, 3, 2, 1, 1, 0, 5, 1) + (9) * mn(p, 3, 2, 1, 0, 0, 6, 0) + (-18) * mn(p, 3, 1, 2, 2, 1, 3, 0) + (18) * mn(p, 3, 1, 2, 1, 1, 4, 1) + (-18) * mn(p, 3, 1, 2, 0, 1, 5, 0) + (-18) * mn(p, 3, 0, 3, 5, 0, 1, 0) + (18) * mn(p, 3, 0, 3, 4, 0, 2, 1) + (9) * mn(p, 3, 0, 3, 2, 2, 2, 0) + (-18) * mn(p, 3, 0, 3, 2, 0, 4, 1) + (-9) * mn(p, 3, 0, 3, 1, 2, 3, 1) + (18) * mn(p, 3, 0, 3, 1, 0, 5, 2) + (-54) * mn(p, 3, 0, 3, 1, 0, 5, 0) + (9) * mn(p, 3, 0, 3, 0, 2, 4, 0) + (-9) * mn(p, 2, 2, 2, 3, 0, 3, 0) + (27) * mn(p, 2, 2, 2, 1, 0, 5, 0) + (-9) * mn(p, 2, 2, 2, 0, 0, 6, 1) + (18) * mn(p, 2, 1, 3, 3, 1, 2, 0) + (-54) * mn(p, 2, 1, 3, 1, 1, 4, 0) + (18) * mn(p, 2, 1, 3, 0, 1, 5, 1) + (9) * mn(p, 2, 0, 4, 6, 0, 0, 0) + (9) * mn(p, 2, 0, 4, 5, 0, 1, 1) + (-63) * mn(p, 2, 0, 4, 4, 0, 2, 0) + (-9) * mn(p, 2, 0, 4, 3, 2, 1, 0) + (18) * mn(p, 2, 0, 4, 3, 0, 3, 1) + (27) * mn(p, 2, 0, 4, 1, 2, 3, 0) + (-9) * mn(p, 2, 0, 4, 0, 2, 4, 1) + (-1) * mn(p, 1, 4, 1, 0, 2, 4, 0) + (2) * mn(p, 1, 3, 2, 0, 3, 3, 0) + (2) * mn(p, 1, 2, 3, 3, 2, 1, 0) + (9) * mn(p, 1, 2, 3, 3, 0, 3, 1) + (-27) * mn(p, 1, 2, 3, 2, 0, 4, 0) + (-1) * mn(p, 1, 2, 3, 0, 4, 2, 0) + (9) * mn(p, 1, 2, 3, 0, 0, 6, 2) + (-27) * mn(p, 1, 2, 3, 0, 0, 6, 0) + (-18) * mn(p, 1, 1, 4, 3, 1, 2, 1) + (54) * mn(p, 1, 1, 4, 2, 1, 3, 0) + (-18) * mn(p, 1, 1, 4, 0, 1, 5, 2) + (54) * mn(p, 1, 1, 4, 0, 1, 5, 0) + (-9) * mn(p, 1, 0, 5, 6, 0, 0, 1) + (18) * mn(p, 1, 0, 5, 5, 0, 1, 0) + (9) * mn(p, 1, 0, 5, 4, 0, 2, 1) + (9) * mn(p, 1, 0, 5, 3, 2, 1, 1) + (-18) * mn(p, 1, 0, 5, 3, 0, 3, 2) + (54) * mn(p, 1, 0, 5, 3, 0, 3, 0) + (-27) * mn(p, 1, 0, 5, 2, 2, 2, 0) + (9) * mn(p, 1, 0, 5, 0, 2, 4, 2) + (-27) * mn(p, 1, 0, 5, 0, 2, 4, 0) + (1) * mn(p, 0, 4, 2, 1, 2, 3, 0) + (-2) * mn(p, 0, 3, 3, 1, 3, 2, 0) + (-1) * mn(p, 0, 2, 4, 4, 2, 0, 0) + (-9) * mn(p, 0, 2, 4, 3, 0, 3, 0) + (9) * mn(p, 0, 2, 4, 2, 0, 4, 1) + (1) * mn(p, 0, 2, 4, 1, 4, 1, 0) + (-9) * mn(p, 0, 2, 4, 1, 0, 5, 2) + (27) * mn(p, 0, 2, 4, 1, 0, 5, 0) + (18) * mn(p, 0, 1, 5, 3, 1, 2, 0) + (-18) * mn(p, 0, 1, 5, 2, 1, 3, 1) + (18) * mn(p, 0, 1, 5, 1, 1, 4, 2) + (-54) * mn(p, 0, 1, 5, 1, 1, 4, 0) + (9) * mn(p, 0, 0, 6, 6, 0, 0, 0) + (-9) * mn(p, 0, 0, 6, 5, 0, 1, 1) + (9) * mn(p, 0, 0, 6, 4, 0, 2, 2) + (-27) * mn(p, 0, 0, 6, 4, 0, 2, 0) + (-9) * mn(p, 0, 0, 6, 3, 2, 1, 0) + (9) * mn(p, 0, 0, 6, 2, 2, 2, 1) + (-9) * mn(p, 0, 0, 6, 1, 2, 3, 2) + (27) * mn(p, 0, 0, 6, 1, 2, 3, 0));
    let n73 = n71 - n72;
    assert(n73 == (9) * mn(p, 6, 0, 0, 2, 0, 4, 0) + (-9) * mn(p, 6, 0, 0, 1, 0, 5, 1) + (9) * mn(p, 6, 0, 0, 0, 0, 6, 0) + (-3) * mn(p, 5, 1, 0, 0, 1, 5, 0) + (-18) * mn(p, 5, 0, 1, 3, 0, 3, 0) + (9) * mn(p, 5, 0, 1, 2, 0, 4, 1) + (18) * mn(p, 5, 0, 1, 1, 0, 5, 0) + (6) * mn(p, 5, 0, 1, 0, 2, 4, 0) + (-9) * mn(p, 5, 0, 1, 0, 0, 6, 1) + (-6) * mn(p, 4, 2, 0, 1, 0, 5, 0) + (-2) * mn(p, 4, 2, 0, 0, 2, 4, 0) + (3) * mn(p, 4, 2, 0, 0, 0, 6, 1) + (6) * mn(p, 4, 1, 1, 1, 1, 4, 0) + (2) * mn(p, 4, 1, 1, 0, 3, 3, 0) + (18) * mn(p, 4, 0, 2, 3, 0, 3, 1) + (-63) * mn(p, 4, 0, 2, 2, 0, 4, 0) + (3) * mn(p, 4, 0, 2, 1, 2, 3, 0) + (9) * mn(p, 4, 0, 2, 1, 0, 5, 1) + (-12) * mn(p, 4, 0, 2, 0, 2, 4, 1) + (9) * mn(p, 4, 0, 2, 0, 0, 6, 2) + (-27) * mn(p, 4, 0, 2, 0, 0, 6, 0) + (-1) * mn(p, 3, 3, 0, 1, 1, 4, 0) + (-12) * mn(p, 3, 2, 1, 2, 0, 4, 0) + (4) * mn(p, 3, 2, 1, 1, 2, 3, 0) + (15) * mn(p, 3, 2, 1, 1, 0, 5, 1) + (-18) * mn(p, 3, 2, 1, 0, 0, 6, 0) + (15) * mn(p, 3, 1, 2, 2, 1, 3, 0) + (-3) * mn(p, 3, 1, 2, 1, 3, 2, 0) + (-18) * mn(p, 3, 1, 2, 1, 1, 4, 1) + (27) * mn(p, 3, 1, 2, 0, 1, 5, 0) + (18) * mn(p, 3, 0, 3, 5, 0, 1, 0) + (-18) * mn(p, 3, 0, 3, 4, 0, 2, 1) + (-27) * mn(p, 3, 0, 3, 2, 2, 2, 0) + (18) * mn(p, 3, 0, 3, 2, 0, 4, 1) + (21) * mn(p, 3, 0, 3, 1, 2, 3, 1) + (-18) * mn(p, 3, 0, 3, 1, 0, 5, 2) + (54) * mn(p, 3, 0, 3, 1, 0, 5, 0) + (9) * mn(p, 3, 0, 3, 0, 2, 4, 0) + (3) * mn(p, 2, 3, 1, 0, 1, 5, 0) + (27) * mn(p, 2, 2, 2, 3, 0, 3, 0) + (-9) * mn(p, 2, 2, 2, 2, 0, 4, 1) + (-27) * mn(p, 2, 2, 2, 1, 0, 5, 0) + (-9) * mn(p, 2, 2, 2, 0, 2, 4, 0) + (9) * mn(p, 2, 2, 2, 0, 0, 6, 1) + (-15) * mn(p, 2, 1, 3, 3, 1, 2, 0) + (27) * mn(p, 2, 1, 3, 1, 1, 4, 0) + (9) * mn(p, 2, 1, 3, 0, 3, 3, 0) + (-18) * mn(p, 2, 1, 3, 0, 1, 5, 1) + (-9) * mn(p, 2, 0, 4, 6, 0, 0, 0) + (-9) * mn(p, 2, 0, 4, 5, 0, 1, 1) + (63) * mn(p, 2, 0, 4, 4, 0, 2, 0) + (12) * mn(p, 2, 0, 4, 3, 2, 1, 0) + (-18) * mn(p, 2, 0, 4, 3, 0, 3, 1) + (9) * mn(p, 2, 0, 4, 2, 2, 2, 1) + (-54) * mn(p, 2, 0, 4, 1, 2, 3, 0) + (-3) * mn(p, 2, 0, 4, 0, 4, 2, 0) + (9) * mn(p, 2, 0, 4, 0, 2, 4, 1) + (6) * mn(p, 1, 4, 1, 1, 0, 5, 0) + (2) * mn(p, 1, 4, 1, 0, 2, 4, 0) + (-3) * mn(p, 1, 4, 1, 0, 0, 6, 1) + (3) * mn(p, 1, 3, 2, 3, 1, 2, 0) + (-12) * mn(p, 1, 3, 2, 1, 1, 4, 0) + (-5) * mn(p, 1, 3, 2, 0, 3, 3, 0) + (3) * mn(p, 1, 3, 2, 0, 1, 5, 1) + (-3) * mn(p, 1, 2, 3, 4, 0, 2, 0) + (-4) * mn(p, 1, 2, 3, 3, 2, 1, 0) + (-21) * mn(p, 1, 2, 3, 3, 0, 3, 1) + (54) * mn(p, 1, 2, 3, 2, 0, 4, 0) + (4) * mn(p, 1, 2, 3, 0, 4, 2, 0) + (9) * mn(p, 1, 2, 3, 0, 2, 4, 1) + (-9) * mn(p, 1, 2, 3, 0, 0, 6, 2) + (27) * mn(p, 1, 2, 3, 0, 0, 6, 0) + (-6) * mn(p, 1, 1, 4, 4, 1, 1, 0) + (1) * mn(p, 1, 1, 4, 3, 3, 0, 0) + (18) * mn(p, 1, 1, 4, 3, 1, 2, 1) + (-27) * mn(p, 1, 1, 4, 2, 1, 3, 0) + (12) * mn(p, 1, 1, 4, 1, 3, 2, 0) + (-1) * mn(p, 1, 1, 4, 0, 5, 1, 0) + (-15) * mn(p, 1, 1, 4, 0, 3, 3, 1) + (18) * mn(p, 1, 1, 4, 0, 1, 5, 2) + (-54) * mn(p, 1, 1, 4, 0, 1, 5, 0) + (9) * mn(p, 1, 0, 5, 6, 0, 0, 1) + (-18) * mn(p, 1, 0, 5, 5, 0, 1, 0) + (6) * mn(p, 1, 0, 5, 4, 2, 0, 0) + (-9) * mn(p, 1, 0, 5, 4, 0, 2, 1) + (-15) * mn(p, 1, 0, 5, 3, 2, 1, 1) + (18) * mn(p, 1, 0, 5, 3, 0, 3, 2) + (-54) * mn(p, 1, 0, 5, 3, 0, 3, 0) + (27) * mn(p, 1, 0, 5, 2, 2, 2, 0) + (-6) * mn(p, 1, 0, 5, 1, 4, 1, 0) + (6) * mn(p, 1, 0, 5, 0, 4, 2, 1) + (-9) * mn(p, 1, 0, 5, 0, 2, 4, 2) + (27) * mn(p, 1, 0, 5, 0, 2, 4, 0) + (1) * mn(p, 0, 5, 1, 1, 1, 4, 0) + (3) * mn(p, 0, 4, 2, 2, 0, 4, 0) + (-4) * mn(p, 0, 4, 2, 1, 2, 3, 0) + (-6) * mn(p, 0, 4, 2, 1, 0, 5, 1) + (9) * mn(p, 0, 4, 2, 0, 0, 6, 0) + (-2) * mn(p, 0, 3, 3, 4, 1, 1, 0) + (-9) * mn(p, 0, 3, 3, 2, 1, 3, 0) + (5) * mn(p, 0, 3, 3, 1, 3, 2, 0) + (15) * mn(p, 0, 3, 3, 1, 1, 4, 1) + (-18) * mn(p, 0, 3, 3, 0, 1, 5, 0) + (-6) * mn(p, 0, 2, 4, 5, 0, 1, 0) + (2) * mn(p, 0, 2, 4, 4, 2, 0, 0) + (12) * mn(p, 0, 2, 4, 4, 0, 2, 1) + (-9) * mn(p, 0, 2, 4, 3, 0, 3, 0) + (9) * mn(p, 0, 2, 4, 2, 2, 2, 0) + (-9) * mn(p, 0, 2, 4, 2, 0, 4, 1) + (-2) * mn(p, 0, 2, 4, 1, 4, 1, 0) + (-9) * mn(p, 0, 2, 4, 1, 2, 3, 1) + (9) * mn(p, 0, 2, 4, 1, 0, 5, 2) + (-27) * mn(p, 0, 2, 4, 1, 0, 5, 0) + (3) * mn(p, 0, 1, 5, 5, 1, 0, 0) + (-27) * mn(p, 0, 1, 5, 3, 1, 2, 0) + (-3) * mn(p, 0, 1, 5, 2, 3, 1, 0) + (18) * mn(p, 0, 1, 5, 2, 1, 3, 1) + (-3) * mn(p, 0, 1, 5, 1, 3, 2, 1) + (-18) * mn(p, 0, 1, 5, 1, 1, 4, 2) + (54) * mn(p, 0, 1, 5, 1, 1, 4, 0) + (18) * mn(p, 0, 1, 5, 0, 3, 3, 0) + (-9) * mn(p, 0, 0, 6, 6, 0, 0, 0) + (9) * mn(p, 0, 0, 6, 5, 0, 1, 1) + (-3) * mn(p, 0, 0, 6, 4, 2, 0, 1) + (-9) * mn(p, 0, 0, 6, 4, 0, 2, 2) + (27) * mn(p, 0, 0, 6, 4, 0, 2, 0) + (18) * mn(p, 0, 0, 6, 3, 2, 1, 0) + (-9) * mn(p, 0, 0, 6, 2, 2, 2, 1) + (3) * mn(p, 0, 0, 6, 1, 4, 1, 1) + (9) * mn(p, 0, 0, 6, 1, 2, 3, 2) + (-27) * mn(p, 0, 0, 6, 1, 2, 3, 0) + (-9) * mn(p, 0, 0, 6, 0, 4, 2, 0));
    am1_prod40(p);
    let n74 = y1 * y1;
    assert(n74 == (1) * mn(p, 0, 2, 0, 0, 0, 0, 0));
    am1_prod41(p);
    let n75 = n74 * z1;
    assert(n75 == (1) * mn(p, 0, 2, 1, 0, 0, 0, 0));
    am1_prod42(p);
    let n76 = x1 * x1;
    assert(n76 == (1) * mn(p, 2, 0, 0, 0, 0, 0, 0));
    am1_prod43(p);
    let n77 = n76 * x1;
    assert(n77 == (1) * mn(p, 3, 0, 0, 0, 0, 0, 0));
    am1_prod44(p);
    let n78 = x1 * z1;
    assert(n78 == (1) * mn(p, 1, 0, 1, 0, 0, 0, 0));
    am1_prod45(p);
    let n79 = n78 * z1;
    assert(n79 == (1) * mn(p, 1, 0, 2, 0, 0, 0, 0));
    let n80 = 3 * n79;
    assert(n80 == (3) * mn(p, 1, 0, 2, 0, 0, 0, 0));
    let n81 = n77 - n80;
    assert(n81 == (1) * mn(p, 3, 0, 0, 0, 0, 0, 0) + (-3) * mn(p, 1, 0, 2, 0, 0, 0, 0));
    am1_prod46(p);
    let n82 = z1 * z1;
    assert(n82 == (1) * mn(p, 0, 0, 2, 0, 0, 0, 0));
    am1_prod47(p);
    let n83 = n82 * z1;
    assert(n83 == (1) * mn(p, 0, 0, 3, 0, 0, 0, 0));
    am1_prod48(p);
    let n84 = b * n83;
    assert(n84 == (1) * mn(p, 0, 0, 3, 0, 0, 0, 1));
    let n85 = n81 + n84;
    assert(n85 == (1) * mn(p, 3, 0, 0, 0, 0, 0, 0) + (-3) * mn(p, 1, 0, 2, 0, 0, 0, 0) + (1) * mn(p, 0, 0, 3, 0, 0, 0, 1));
    let n86 = n75 - n85;
    assert(n86 == (-1) * mn(p, 3, 0, 0, 0, 0, 0, 0) + (3) * mn(p, 1, 0, 2, 0, 0, 0, 0) + (1) * mn(p, 0, 2, 1, 0, 0, 0, 0) + (-1) * mn(p, 0, 0, 3, 0, 0, 0, 1));
    am1_prod49(p);
    let n87 = y2 * y2;
    assert(n87 == (1) * mn(p, 0, 0, 0, 0, 2, 0, 0));
    am1_prod50(p);
    let n88 = n87 * z2;
    assert(n88 == (1) * mn(p, 0, 0, 0, 0, 2, 1, 0));
    am1_prod51(p);
    let n89 = x2 * x2;
    assert(n89 == (1) * mn(p, 0, 0, 0, 2, 0, 0, 0));
    am1_prod52(p);
    let n90 = n89 * x2;
    assert(n90 == (1) * mn(p, 0, 0, 0, 3, 0, 0, 0));
    am1_prod53(p);
    let n91 = x2 * z2;
    assert(n91 == (1) * mn(p, 0, 0, 0, 1, 0, 1, 0));
    am1_prod54(p);
    let n92 = n91 * z2;
    assert(n92 == (1) * mn(p, 0, 0, 0, 1, 0, 2, 0));
    let n93 = 3 * n92;
    assert(n93 == (3) * mn(p, 0, 0, 0, 1, 0, 2, 0));
    let n94 = n90 - n93;
    assert(n94 == (1) * mn(p, 0, 0, 0, 3, 0, 0, 0) + (-3) * mn(p, 0, 0, 0, 1, 0, 2, 0));
    am1_prod55(p);
    let n95 = z2 * z2;
    assert(n95 == (1) * mn(p, 0, 0, 0, 0, 0, 2, 0));
    am1_prod56(p);
    let n96 = n95 * z2;
    assert(n96 == (1) * mn(p, 0, 0, 0, 0, 0, 3, 0));
    am1_prod57(p);
    let n97 = b * n96;
    assert(n97 == (1) * mn(p, 0, 0, 0, 0, 0, 3, 1));
    let n98 = n94 + n97;
    assert(n98 == (1) * mn(p, 0, 0, 0, 3, 0, 0, 0) + (-3) * mn(p, 0, 0, 0, 1, 0, 2, 0) + (1) * mn(p, 0, 0, 0, 0, 0, 3, 1));
    let n99 = n88 - n98;
    assert(n99 == (-1) * mn(p, 0, 0, 0, 3, 0, 0, 0) + (3) * mn(p, 0, 0, 0, 1, 0, 2, 0) + (1) * mn(p, 0, 0, 0, 0, 2, 1, 0) + (-1) * mn(p, 0, 0, 0, 0, 0, 3, 1));
    am1_prod58(p);
    am1_prod59(p);
    assert(n70 == am1_cof0(p) * n86 + am1_cof1(p) * n99);
}

} // verus!
