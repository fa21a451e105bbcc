//! Polynomial certificates for the group law of the complete formulas: each
//! lemma shows that a polynomial in the coordinates is a combination of the
//! curve equations of the inputs, expanding every product monomial by
//! monomial.
use vstd::prelude::*;
use vstd::arithmetic::mul::{lemma_mul_is_distributive_add, lemma_mul_is_distributive_add_other_way};
use crate::polynomial::{Pt, mn, lemma_tm, lemma_vars};
use crate::projective::rcb_double;
use crate::group_law::{curve_poly, tangent_double};

verus! {

pub(crate) open spec fn dc_cof0(p: Pt) -> int {
    (-648) * mn(p, 5, 3, 1, 0, 0, 0, 0) + (2592) * mn(p, 4, 3, 2, 1, 0, 0, 0) + (-2592) * mn(p, 3, 3, 3, 2, 0, 0, 0) + (-3888) * mn(p, 3, 3, 3, 0, 0, 0, 0) + (1296) * mn(p, 2, 5, 2, 0, 0, 0, 0) + (9072) * mn(p, 2, 3, 4, 1, 0, 0, 0) + (360) * mn(p, 1, 7, 1, 0, 0, 0, 0) + (-1296) * mn(p, 1, 5, 3, 1, 0, 0, 0) + (648) * mn(p, 1, 3, 5, 2, 0, 0, 0) + (-13608) * mn(p, 1, 3, 5, 0, 0, 0, 0) + (8) * mn(p, 0, 9, 0, 0, 0, 0, 0) + (-504) * mn(p, 0, 7, 2, 1, 0, 0, 0) + (-648) * mn(p, 0, 5, 4, 2, 0, 0, 0) + (3888) * mn(p, 0, 5, 4, 0, 0, 0, 0) + (-648) * mn(p, 0, 3, 6, 3, 0, 0, 0) + (3888) * mn(p, 0, 3, 6, 1, 0, 0, 0)
}

#[verifier::rlimit(100)]
proof fn dc_prod0(p: Pt)
    ensures
        ((1) * mn(p, 1, 0, 0, 0, 0, 0, 0)) * ((1) * mn(p, 1, 0, 0, 0, 0, 0, 0)) == (1) * mn(p, 2, 0, 0, 0, 0, 0, 0),
{
    let t0 = (1) * mn(p, 1, 0, 0, 0, 0, 0, 0);
    let s0 = (1) * mn(p, 1, 0, 0, 0, 0, 0, 0);
    let pp0 = t0;
    let qq0 = s0;
    let q = qq0;
    lemma_tm(p, 1, 1, 0, 0, 0, 0, 0, 0, 1, 1, 0, 0, 0, 0, 0, 0);
    assert(t0 * s0 == (1) * mn(p, 2, 0, 0, 0, 0, 0, 0));
    assert(t0 * q == (1) * mn(p, 2, 0, 0, 0, 0, 0, 0));
    assert(pp0 * q == (1) * mn(p, 2, 0, 0, 0, 0, 0, 0));
}

#[verifier::rlimit(100)]
proof fn dc_prod1(p: Pt)
    ensures
        ((1) * mn(p, 0, 1, 0, 0, 0, 0, 0)) * ((1) * mn(p, 0, 1, 0, 0, 0, 0, 0)) == (1) * mn(p, 0, 2, 0, 0, 0, 0, 0),
{
    let t0 = (1) * mn(p, 0, 1, 0, 0, 0, 0, 0);
    let s0 = (1) * mn(p, 0, 1, 0, 0, 0, 0, 0);
    let pp0 = t0;
    let qq0 = s0;
    let q = qq0;
    lemma_tm(p, 1, 0, 1, 0, 0, 0, 0, 0, 1, 0, 1, 0, 0, 0, 0, 0);
    assert(t0 * s0 == (1) * mn(p, 0, 2, 0, 0, 0, 0, 0));
    assert(t0 * q == (1) * mn(p, 0, 2, 0, 0, 0, 0, 0));
    assert(pp0 * q == (1) * mn(p, 0, 2, 0, 0, 0, 0, 0));
}

#[verifier::rlimit(100)]
proof fn dc_prod2(p: Pt)
    ensures
        ((1) * mn(p, 0, 0, 1, 0, 0, 0, 0)) * ((1) * mn(p, 0, 0, 1, 0, 0, 0, 0)) == (1) * mn(p, 0, 0, 2, 0, 0, 0, 0),
{
    let t0 = (1) * mn(p, 0, 0, 1, 0, 0, 0, 0);
    let s0 = (1) * mn(p, 0, 0, 1, 0, 0, 0, 0);
    let pp0 = t0;
    let qq0 = s0;
    let q = qq0;
    lemma_tm(p, 1, 0, 0, 1, 0, 0, 0, 0, 1, 0, 0, 1, 0, 0, 0, 0);
    assert(t0 * s0 == (1) * mn(p, 0, 0, 2, 0, 0, 0, 0));
    assert(t0 * q == (1) * mn(p, 0, 0, 2, 0, 0, 0, 0));
    assert(pp0 * q == (1) * mn(p, 0, 0, 2, 0, 0, 0, 0));
}

#[verifier::rlimit(100)]
proof fn dc_prod3(p: Pt)
    ensures
        ((1) * mn(p, 1, 0, 0, 0, 0, 0, 0)) * ((1) * mn(p, 0, 1, 0, 0, 0, 0, 0)) == (1) * mn(p, 1, 1, 0, 0, 0, 0, 0),
{
    let t0 = (1) * mn(p, 1, 0, 0, 0, 0, 0, 0);
    let s0 = (1) * mn(p, 0, 1, 0, 0, 0, 0, 0);
    let pp0 = t0;
    let qq0 = s0;
    let q = qq0;
    lemma_tm(p, 1, 1, 0, 0, 0, 0, 0, 0, 1, 0, 1, 0, 0, 0, 0, 0);
    assert(t0 * s0 == (1) * mn(p, 1, 1, 0, 0, 0, 0, 0));
    assert(t0 * q == (1) * mn(p, 1, 1, 0, 0, 0, 0, 0));
    assert(pp0 * q == (1) * mn(p, 1, 1, 0, 0, 0, 0, 0));
}

#[verifier::rlimit(100)]
proof fn dc_prod4(p: Pt)
    ensures
        ((1) * mn(p, 0, 1, 0, 0, 0, 0, 0)) * ((1) * mn(p, 0, 0, 1, 0, 0, 0, 0)) == (1) * mn(p, 0, 1, 1, 0, 0, 0, 0),
{
    let t0 = (1) * mn(p, 0, 1, 0, 0, 0, 0, 0);
    let s0 = (1) * mn(p, 0, 0, 1, 0, 0, 0, 0);
    let pp0 = t0;
    let qq0 = s0;
    let q = qq0;
    lemma_tm(p, 1, 0, 1, 0, 0, 0, 0, 0, 1, 0, 0, 1, 0, 0, 0, 0);
    assert(t0 * s0 == (1) * mn(p, 0, 1, 1, 0, 0, 0, 0));
    assert(t0 * q == (1) * mn(p, 0, 1, 1, 0, 0, 0, 0));
    assert(pp0 * q == (1) * mn(p, 0, 1, 1, 0, 0, 0, 0));
}

#[verifier::rlimit(100)]
proof fn dc_prod5(p: Pt)
    ensures
        ((1) * mn(p, 1, 0, 0, 0, 0, 0, 0)) * ((1) * mn(p, 0, 0, 1, 0, 0, 0, 0)) == (1) * mn(p, 1, 0, 1, 0, 0, 0, 0),
{
    let t0 = (1) * mn(p, 1, 0, 0, 0, 0, 0, 0);
    let s0 = (1) * mn(p, 0, 0, 1, 0, 0, 0, 0);
    let pp0 = t0;
    let qq0 = s0;
    let q = qq0;
    lemma_tm(p, 1, 1, 0, 0, 0, 0, 0, 0, 1, 0, 0, 1, 0, 0, 0, 0);
    assert(t0 * s0 == (1) * mn(p, 1, 0, 1, 0, 0, 0, 0));
    assert(t0 * q == (1) * mn(p, 1, 0, 1, 0, 0, 0, 0));
    assert(pp0 * q == (1) * mn(p, 1, 0, 1, 0, 0, 0, 0));
}

#[verifier::rlimit(100)]
proof fn dc_prod6(p: Pt)
    ensures
        ((1) * mn(p, 0, 0, 0, 1, 0, 0, 0)) * ((1) * mn(p, 0, 0, 2, 0, 0, 0, 0)) == (1) * mn(p, 0, 0, 2, 1, 0, 0, 0),
{
    let t0 = (1) * mn(p, 0, 0, 0, 1, 0, 0, 0);
    let s0 = (1) * mn(p, 0, 0, 2, 0, 0, 0, 0);
    let pp0 = t0;
    let qq0 = s0;
    let q = qq0;
    lemma_tm(p, 1, 0, 0, 0, 1, 0, 0, 0, 1, 0, 0, 2, 0, 0, 0, 0);
    assert(t0 * s0 == (1) * mn(p, 0, 0, 2, 1, 0, 0, 0));
    assert(t0 * q == (1) * mn(p, 0, 0, 2, 1, 0, 0, 0));
    assert(pp0 * q == (1) * mn(p, 0, 0, 2, 1, 0, 0, 0));
}

#[verifier::rlimit(100)]
proof fn dc_prod7(p: Pt)
    ensures
        ((1) * mn(p, 0, 0, 0, 1, 0, 0, 0)) * ((2) * mn(p, 1, 0, 1, 0, 0, 0, 0)) == (2) * mn(p, 1, 0, 1, 1, 0, 0, 0),
{
    let t0 = (1) * mn(p, 0, 0, 0, 1, 0, 0, 0);
    let s0 = (2) * mn(p, 1, 0, 1, 0, 0, 0, 0);
    let pp0 = t0;
    let qq0 = s0;
    let q = qq0;
    lemma_tm(p, 1, 0, 0, 0, 1, 0, 0, 0, 2, 1, 0, 1, 0, 0, 0, 0);
    assert(t0 * s0 == (2) * mn(p, 1, 0, 1, 1, 0, 0, 0));
    assert(t0 * q == (2) * mn(p, 1, 0, 1, 1, 0, 0, 0));
    assert(pp0 * q == (2) * mn(p, 1, 0, 1, 1, 0, 0, 0));
}

#[verifier::rlimit(100)]
proof fn dc_prod8(p: Pt)
    ensures
        ((6) * mn(p, 1, 0, 1, 0, 0, 0, 0) + (1) * mn(p, 0, 2, 0, 0, 0, 0, 0) + (-3) * mn(p, 0, 0, 2, 1, 0, 0, 0)) * ((2) * mn(p, 1, 1, 0, 0, 0, 0, 0)) == (12) * mn(p, 2, 1, 1, 0, 0, 0, 0) + (2) * mn(p, 1, 3, 0, 0, 0, 0, 0) + (-6) * mn(p, 1, 1, 2, 1, 0, 0, 0),
{
    let t0 = (6) * mn(p, 1, 0, 1, 0, 0, 0, 0);
    let t1 = (1) * mn(p, 0, 2, 0, 0, 0, 0, 0);
    let t2 = (-3) * mn(p, 0, 0, 2, 1, 0, 0, 0);
    let s0 = (2) * mn(p, 1, 1, 0, 0, 0, 0, 0);
    let pp0 = t0;
    let pp1 = pp0 + t1;
    let pp2 = pp1 + t2;
    let qq0 = s0;
    let q = qq0;
    lemma_mul_is_distributive_add_other_way(q, pp0, t1);
    lemma_mul_is_distributive_add_other_way(q, pp1, t2);
    lemma_tm(p, 6, 1, 0, 1, 0, 0, 0, 0, 2, 1, 1, 0, 0, 0, 0, 0);
    assert(t0 * s0 == (12) * mn(p, 2, 1, 1, 0, 0, 0, 0));
    assert(t0 * q == (12) * mn(p, 2, 1, 1, 0, 0, 0, 0));
    lemma_tm(p, 1, 0, 2, 0, 0, 0, 0, 0, 2, 1, 1, 0, 0, 0, 0, 0);
    assert(t1 * s0 == (2) * mn(p, 1, 3, 0, 0, 0, 0, 0));
    assert(t1 * q == (2) * mn(p, 1, 3, 0, 0, 0, 0, 0));
    lemma_tm(p, -3, 0, 0, 2, 1, 0, 0, 0, 2, 1, 1, 0, 0, 0, 0, 0);
    assert(t2 * s0 == (-6) * mn(p, 1, 1, 2, 1, 0, 0, 0));
    assert(t2 * q == (-6) * mn(p, 1, 1, 2, 1, 0, 0, 0));
    assert(pp2 * q == (12) * mn(p, 2, 1, 1, 0, 0, 0, 0) + (2) * mn(p, 1, 3, 0, 0, 0, 0, 0) + (-6) * mn(p, 1, 1, 2, 1, 0, 0, 0));
}

#[verifier::rlimit(100)]
proof fn dc_prod9(p: Pt)
    ensures
        ((-3) * mn(p, 2, 0, 0, 0, 0, 0, 0) + (6) * mn(p, 1, 0, 1, 1, 0, 0, 0) + (-9) * mn(p, 0, 0, 2, 0, 0, 0, 0)) * ((2) * mn(p, 0, 1, 1, 0, 0, 0, 0)) == (-6) * mn(p, 2, 1, 1, 0, 0, 0, 0) + (12) * mn(p, 1, 1, 2, 1, 0, 0, 0) + (-18) * mn(p, 0, 1, 3, 0, 0, 0, 0),
{
    let t0 = (-3) * mn(p, 2, 0, 0, 0, 0, 0, 0);
    let t1 = (6) * mn(p, 1, 0, 1, 1, 0, 0, 0);
    let t2 = (-9) * mn(p, 0, 0, 2, 0, 0, 0, 0);
    let s0 = (2) * mn(p, 0, 1, 1, 0, 0, 0, 0);
    let pp0 = t0;
    let pp1 = pp0 + t1;
    let pp2 = pp1 + t2;
    let qq0 = s0;
    let q = qq0;
    lemma_mul_is_distributive_add_other_way(q, pp0, t1);
    lemma_mul_is_distributive_add_other_way(q, pp1, t2);
    lemma_tm(p, -3, 2, 0, 0, 0, 0, 0, 0, 2, 0, 1, 1, 0, 0, 0, 0);
    assert(t0 * s0 == (-6) * mn(p, 2, 1, 1, 0, 0, 0, 0));
    assert(t0 * q == (-6) * mn(p, 2, 1, 1, 0, 0, 0, 0));
    lemma_tm(p, 6, 1, 0, 1, 1, 0, 0, 0, 2, 0, 1, 1, 0, 0, 0, 0);
    assert(t1 * s0 == (12) * mn(p, 1, 1, 2, 1, 0, 0, 0));
    assert(t1 * q == (12) * mn(p, 1, 1, 2, 1, 0, 0, 0));
    lemma_tm(p, -9, 0, 0, 2, 0, 0, 0, 0, 2, 0, 1, 1, 0, 0, 0, 0);
    assert(t2 * s0 == (-18) * mn(p, 0, 1, 3, 0, 0, 0, 0));
    assert(t2 * q == (-18) * mn(p, 0, 1, 3, 0, 0, 0, 0));
    assert(pp2 * q == (-6) * mn(p, 2, 1, 1, 0, 0, 0, 0) + (12) * mn(p, 1, 1, 2, 1, 0, 0, 0) + (-18) * mn(p, 0, 1, 3, 0, 0, 0, 0));
}

#[verifier::rlimit(100)]
proof fn dc_prod10(p: Pt)
    ensures
        ((-6) * mn(p, 1, 0, 1, 0, 0, 0, 0) + (1) * mn(p, 0, 2, 0, 0, 0, 0, 0) + (3) * mn(p, 0, 0, 2, 1, 0, 0, 0)) * ((6) * mn(p, 1, 0, 1, 0, 0, 0, 0) + (1) * mn(p, 0, 2, 0, 0, 0, 0, 0) + (-3) * mn(p, 0, 0, 2, 1, 0, 0, 0)) == (-36) * mn(p, 2, 0, 2, 0, 0, 0, 0) + (36) * mn(p, 1, 0, 3, 1, 0, 0, 0) + (1) * mn(p, 0, 4, 0, 0, 0, 0, 0) + (-9) * mn(p, 0, 0, 4, 2, 0, 0, 0),
{
    let t0 = (-6) * mn(p, 1, 0, 1, 0, 0, 0, 0);
    let t1 = (1) * mn(p, 0, 2, 0, 0, 0, 0, 0);
    let t2 = (3) * mn(p, 0, 0, 2, 1, 0, 0, 0);
    let s0 = (6) * mn(p, 1, 0, 1, 0, 0, 0, 0);
    let s1 = (1) * mn(p, 0, 2, 0, 0, 0, 0, 0);
    let s2 = (-3) * mn(p, 0, 0, 2, 1, 0, 0, 0);
    let pp0 = t0;
    let pp1 = pp0 + t1;
    let pp2 = pp1 + t2;
    let qq0 = s0;
    let qq1 = qq0 + s1;
    let qq2 = qq1 + s2;
    let q = qq2;
    lemma_mul_is_distributive_add_other_way(q, pp0, t1);
    lemma_mul_is_distributive_add_other_way(q, pp1, t2);
    lemma_mul_is_distributive_add(t0, qq0, s1);
    lemma_mul_is_distributive_add(t0, qq1, s2);
    lemma_mul_is_distributive_add(t1, qq0, s1);
    lemma_mul_is_distributive_add(t1, qq1, s2);
    lemma_mul_is_distributive_add(t2, qq0, s1);
    lemma_mul_is_distributive_add(t2, qq1, s2);
    lemma_tm(p, -6, 1, 0, 1, 0, 0, 0, 0, 6, 1, 0, 1, 0, 0, 0, 0);
    assert(t0 * s0 == (-36) * mn(p, 2, 0, 2, 0, 0, 0, 0));
    lemma_tm(p, -6, 1, 0, 1, 0, 0, 0, 0, 1, 0, 2, 0, 0, 0, 0, 0);
    assert(t0 * s1 == (-6) * mn(p, 1, 2, 1, 0, 0, 0, 0));
    lemma_tm(p, -6, 1, 0, 1, 0, 0, 0, 0, -3, 0, 0, 2, 1, 0, 0, 0);
    assert(t0 * s2 == (18) * mn(p, 1, 0, 3, 1, 0, 0, 0));
    assert(t0 * q == (-36) * mn(p, 2, 0, 2, 0, 0, 0, 0) + (-6) * mn(p, 1, 2, 1, 0, 0, 0, 0) + (18) * mn(p, 1, 0, 3, 1, 0, 0, 0));
    lemma_tm(p, 1, 0, 2, 0, 0, 0, 0, 0, 6, 1, 0, 1, 0, 0, 0, 0);
    assert(t1 * s0 == (6) * mn(p, 1, 2, 1, 0, 0, 0, 0));
    lemma_tm(p, 1, 0, 2, 0, 0, 0, 0, 0, 1, 0, 2, 0, 0, 0, 0, 0);
    assert(t1 * s1 == (1) * mn(p, 0, 4, 0, 0, 0, 0, 0));
    lemma_tm(p, 1, 0, 2, 0, 0, 0, 0, 0, -3, 0, 0, 2, 1, 0, 0, 0);
    assert(t1 * s2 == (-3) * mn(p, 0, 2, 2, 1, 0, 0, 0));
    assert(t1 * q == (6) * mn(p, 1, 2, 1, 0, 0, 0, 0) + (1) * mn(p, 0, 4, 0, 0, 0, 0, 0) + (-3) * mn(p, 0, 2, 2, 1, 0, 0, 0));
    lemma_tm(p, 3, 0, 0, 2, 1, 0, 0, 0, 6, 1, 0, 1, 0, 0, 0, 0);
    assert(t2 * s0 == (18) * mn(p, 1, 0, 3, 1, 0, 0, 0));
    lemma_tm(p, 3, 0, 0, 2, 1, 0, 0, 0, 1, 0, 2, 0, 0, 0, 0, 0);
    assert(t2 * s1 == (3) * mn(p, 0, 2, 2, 1, 0, 0, 0));
    lemma_tm(p, 3, 0, 0, 2, 1, 0, 0, 0, -3, 0, 0, 2, 1, 0, 0, 0);
    assert(t2 * s2 == (-9) * mn(p, 0, 0, 4, 2, 0, 0, 0));
    assert(t2 * q == (18) * mn(p, 1, 0, 3, 1, 0, 0, 0) + (3) * mn(p, 0, 2, 2, 1, 0, 0, 0) + (-9) * mn(p, 0, 0, 4, 2, 0, 0, 0));
    assert(pp2 * q == (-36) * mn(p, 2, 0, 2, 0, 0, 0, 0) + (36) * mn(p, 1, 0, 3, 1, 0, 0, 0) + (1) * mn(p, 0, 4, 0, 0, 0, 0, 0) + (-9) * mn(p, 0, 0, 4, 2, 0, 0, 0));
}

#[verifier::rlimit(100)]
proof fn dc_prod11(p: Pt)
    ensures
        ((3) * mn(p, 2, 0, 0, 0, 0, 0, 0) + (-3) * mn(p, 0, 0, 2, 0, 0, 0, 0)) * ((-3) * mn(p, 2, 0, 0, 0, 0, 0, 0) + (6) * mn(p, 1, 0, 1, 1, 0, 0, 0) + (-9) * mn(p, 0, 0, 2, 0, 0, 0, 0)) == (-9) * mn(p, 4, 0, 0, 0, 0, 0, 0) + (18) * mn(p, 3, 0, 1, 1, 0, 0, 0) + (-18) * mn(p, 2, 0, 2, 0, 0, 0, 0) + (-18) * mn(p, 1, 0, 3, 1, 0, 0, 0) + (27) * mn(p, 0, 0, 4, 0, 0, 0, 0),
{
    let t0 = (3) * mn(p, 2, 0, 0, 0, 0, 0, 0);
    let t1 = (-3) * mn(p, 0, 0, 2, 0, 0, 0, 0);
    let s0 = (-3) * mn(p, 2, 0, 0, 0, 0, 0, 0);
    let s1 = (6) * mn(p, 1, 0, 1, 1, 0, 0, 0);
    let s2 = (-9) * mn(p, 0, 0, 2, 0, 0, 0, 0);
    let pp0 = t0;
    let pp1 = pp0 + t1;
    let qq0 = s0;
    let qq1 = qq0 + s1;
    let qq2 = qq1 + s2;
    let q = qq2;
    lemma_mul_is_distributive_add_other_way(q, pp0, t1);
    lemma_mul_is_distributive_add(t0, qq0, s1);
    lemma_mul_is_distributive_add(t0, qq1, s2);
    lemma_mul_is_distributive_add(t1, qq0, s1);
    lemma_mul_is_distributive_add(t1, qq1, s2);
    lemma_tm(p, 3, 2, 0, 0, 0, 0, 0, 0, -3, 2, 0, 0, 0, 0, 0, 0);
    assert(t0 * s0 == (-9) * mn(p, 4, 0, 0, 0, 0, 0, 0));
    lemma_tm(p, 3, 2, 0, 0, 0, 0, 0, 0, 6, 1, 0, 1, 1, 0, 0, 0);
    assert(t0 * s1 == (18) * mn(p, 3, 0, 1, 1, 0, 0, 0));
    lemma_tm(p, 3, 2, 0, 0, 0, 0, 0, 0, -9, 0, 0, 2, 0, 0, 0, 0);
    assert(t0 * s2 == (-27) * mn(p, 2, 0, 2, 0, 0, 0, 0));
    assert(t0 * q == (-9) * mn(p, 4, 0, 0, 0, 0, 0, 0) + (18) * mn(p, 3, 0, 1, 1, 0, 0, 0) + (-27) * mn(p, 2, 0, 2, 0, 0, 0, 0));
    lemma_tm(p, -3, 0, 0, 2, 0, 0, 0, 0, -3, 2, 0, 0, 0, 0, 0, 0);
    assert(t1 * s0 == (9) * mn(p, 2, 0, 2, 0, 0, 0, 0));
    lemma_tm(p, -3, 0, 0, 2, 0, 0, 0, 0, 6, 1, 0, 1, 1, 0, 0, 0);
    assert(t1 * s1 == (-18) * mn(p, 1, 0, 3, 1, 0, 0, 0));
    lemma_tm(p, -3, 0, 0, 2, 0, 0, 0, 0, -9, 0, 0, 2, 0, 0, 0, 0);
    assert(t1 * s2 == (27) * mn(p, 0, 0, 4, 0, 0, 0, 0));
    assert(t1 * q == (9) * mn(p, 2, 0, 2, 0, 0, 0, 0) + (-18) * mn(p, 1, 0, 3, 1, 0, 0, 0) + (27) * mn(p, 0, 0, 4, 0, 0, 0, 0));
    assert(pp1 * q == (-9) * mn(p, 4, 0, 0, 0, 0, 0, 0) + (18) * mn(p, 3, 0, 1, 1, 0, 0, 0) + (-18) * mn(p, 2, 0, 2, 0, 0, 0, 0) + (-18) * mn(p, 1, 0, 3, 1, 0, 0, 0) + (27) * mn(p, 0, 0, 4, 0, 0, 0, 0));
}

#[verifier::rlimit(100)]
proof fn dc_prod12(p: Pt)
    ensures
        ((2) * mn(p, 0, 1, 1, 0, 0, 0, 0)) * ((1) * mn(p, 0, 2, 0, 0, 0, 0, 0)) == (2) * mn(p, 0, 3, 1, 0, 0, 0, 0),
{
    let t0 = (2) * mn(p, 0, 1, 1, 0, 0, 0, 0);
    let s0 = (1) * mn(p, 0, 2, 0, 0, 0, 0, 0);
    let pp0 = t0;
    let qq0 = s0;
    let q = qq0;
    lemma_tm(p, 2, 0, 1, 1, 0, 0, 0, 0, 1, 0, 2, 0, 0, 0, 0, 0);
    assert(t0 * s0 == (2) * mn(p, 0, 3, 1, 0, 0, 0, 0));
    assert(t0 * q == (2) * mn(p, 0, 3, 1, 0, 0, 0, 0));
    assert(pp0 * q == (2) * mn(p, 0, 3, 1, 0, 0, 0, 0));
}

#[verifier::rlimit(100)]
proof fn dc_prod13(p: Pt)
    ensures
        ((-9) * mn(p, 4, 0, 0, 0, 0, 0, 0) + (18) * mn(p, 3, 0, 1, 1, 0, 0, 0) + (-54) * mn(p, 2, 0, 2, 0, 0, 0, 0) + (18) * mn(p, 1, 0, 3, 1, 0, 0, 0) + (1) * mn(p, 0, 4, 0, 0, 0, 0, 0) + (-9) * mn(p, 0, 0, 4, 2, 0, 0, 0) + (27) * mn(p, 0, 0, 4, 0, 0, 0, 0)) * ((-9) * mn(p, 4, 0, 0, 0, 0, 0, 0) + (18) * mn(p, 3, 0, 1, 1, 0, 0, 0) + (-54) * mn(p, 2, 0, 2, 0, 0, 0, 0) + (18) * mn(p, 1, 0, 3, 1, 0, 0, 0) + (1) * mn(p, 0, 4, 0, 0, 0, 0, 0) + (-9) * mn(p, 0, 0, 4, 2, 0, 0, 0) + (27) * mn(p, 0, 0, 4, 0, 0, 0, 0)) == (81) * mn(p, 8, 0, 0, 0, 0, 0, 0) + (-324) * mn(p, 7, 0, 1, 1, 0, 0, 0) + (324) * mn(p, 6, 0, 2, 2, 0, 0, 0) + (972) * mn(p, 6, 0, 2, 0, 0, 0, 0) + (-2268) * mn(p, 5, 0, 3, 1, 0, 0, 0) + (-18) * mn(p, 4, 4, 0, 0, 0, 0, 0) + (810) * mn(p, 4, 0, 4, 2, 0, 0, 0) + (2430) * mn(p, 4, 0, 4, 0, 0, 0, 0) + (36) * mn(p, 3, 4, 1, 1, 0, 0, 0) + (-324) * mn(p, 3, 0, 5, 3, 0, 0, 0) + (-972) * mn(p, 3, 0, 5, 1, 0, 0, 0) + (-108) * mn(p, 2, 4, 2, 0, 0, 0, 0) + (1296) * mn(p, 2, 0, 6, 2, 0, 0, 0) + (-2916) * mn(p, 2, 0, 6, 0, 0, 0, 0) + (36) * mn(p, 1, 4, 3, 1, 0, 0, 0) + (-324) * mn(p, 1, 0, 7, 3, 0, 0, 0) + (972) * mn(p, 1, 0, 7, 1, 0, 0, 0) + (1) * mn(p, 0, 8, 0, 0, 0, 0, 0) + (-18) * mn(p, 0, 4, 4, 2, 0, 0, 0) + (54) * mn(p, 0, 4, 4, 0, 0, 0, 0) + (81) * mn(p, 0, 0, 8, 4, 0, 0, 0) + (-486) * mn(p, 0, 0, 8, 2, 0, 0, 0) + (729) * mn(p, 0, 0, 8, 0, 0, 0, 0),
{
    let t0 = (-9) * mn(p, 4, 0, 0, 0, 0, 0, 0);
    let t1 = (18) * mn(p, 3, 0, 1, 1, 0, 0, 0);
    let t2 = (-54) * mn(p, 2, 0, 2, 0, 0, 0, 0);
    let t3 = (18) * mn(p, 1, 0, 3, 1, 0, 0, 0);
    let t4 = (1) * mn(p, 0, 4, 0, 0, 0, 0, 0);
    let t5 = (-9) * mn(p, 0, 0, 4, 2, 0, 0, 0);
    let t6 = (27) * mn(p, 0, 0, 4, 0, 0, 0, 0);
    let s0 = (-9) * mn(p, 4, 0, 0, 0, 0, 0, 0);
    let s1 = (18) * mn(p, 3, 0, 1, 1, 0, 0, 0);
    let s2 = (-54) * mn(p, 2, 0, 2, 0, 0, 0, 0);
    let s3 = (18) * mn(p, 1, 0, 3, 1, 0, 0, 0);
    let s4 = (1) * mn(p, 0, 4, 0, 0, 0, 0, 0);
    let s5 = (-9) * mn(p, 0, 0, 4, 2, 0, 0, 0);
    let s6 = (27) * mn(p, 0, 0, 4, 0, 0, 0, 0);
    let pp0 = t0;
    let pp1 = pp0 + t1;
    let pp2 = pp1 + t2;
    let pp3 = pp2 + t3;
    let pp4 = pp3 + t4;
    let pp5 = pp4 + t5;
    let pp6 = pp5 + t6;
    let qq0 = s0;
    let qq1 = qq0 + s1;
    let qq2 = qq1 + s2;
    let qq3 = qq2 + s3;
    let qq4 = qq3 + s4;
    let qq5 = qq4 + s5;
    let qq6 = qq5 + s6;
    let q = qq6;
    lemma_mul_is_distributive_add_other_way(q, pp0, t1);
    lemma_mul_is_distributive_add_other_way(q, pp1, t2);
    lemma_mul_is_distributive_add_other_way(q, pp2, t3);
    lemma_mul_is_distributive_add_other_way(q, pp3, t4);
    lemma_mul_is_distributive_add_other_way(q, pp4, t5);
    lemma_mul_is_distributive_add_other_way(q, pp5, t6);
    lemma_mul_is_distributive_add(t0, qq0, s1);
    lemma_mul_is_distributive_add(t0, qq1, s2);
    lemma_mul_is_distributive_add(t0, qq2, s3);
    lemma_mul_is_distributive_add(t0, qq3, s4);
    lemma_mul_is_distributive_add(t0, qq4, s5);
    lemma_mul_is_distributive_add(t0, qq5, s6);
    lemma_mul_is_distributive_add(t1, qq0, s1);
    lemma_mul_is_distributive_add(t1, qq1, s2);
    lemma_mul_is_distributive_add(t1, qq2, s3);
    lemma_mul_is_distributive_add(t1, qq3, s4);
    lemma_mul_is_distributive_add(t1, qq4, s5);
    lemma_mul_is_distributive_add(t1, qq5, s6);
    lemma_mul_is_distributive_add(t2, qq0, s1);
    lemma_mul_is_distributive_add(t2, qq1, s2);
    lemma_mul_is_distributive_add(t2, qq2, s3);
    lemma_mul_is_distributive_add(t2, qq3, s4);
    lemma_mul_is_distributive_add(t2, qq4, s5);
    lemma_mul_is_distributive_add(t2, qq5, s6);
    lemma_mul_is_distributive_add(t3, qq0, s1);
    lemma_mul_is_distributive_add(t3, qq1, s2);
    lemma_mul_is_distributive_add(t3, qq2, s3);
    lemma_mul_is_distributive_add(t3, qq3, s4);
    lemma_mul_is_distributive_add(t3, qq4, s5);
    lemma_mul_is_distributive_add(t3, qq5, s6);
    lemma_mul_is_distributive_add(t4, qq0, s1);
    lemma_mul_is_distributive_add(t4, qq1, s2);
    lemma_mul_is_distributive_add(t4, qq2, s3);
    lemma_mul_is_distributive_add(t4, qq3, s4);
    lemma_mul_is_distributive_add(t4, qq4, s5);
    lemma_mul_is_distributive_add(t4, qq5, s6);
    lemma_mul_is_distributive_add(t5, qq0, s1);
    lemma_mul_is_distributive_add(t5, qq1, s2);
    lemma_mul_is_distributive_add(t5, qq2, s3);
    lemma_mul_is_distributive_add(t5, qq3, s4);
    lemma_mul_is_distributive_add(t5, qq4, s5);
    lemma_mul_is_distributive_add(t5, qq5, s6);
    lemma_mul_is_distributive_add(t6, qq0, s1);
    lemma_mul_is_distributive_add(t6, qq1, s2);
    lemma_mul_is_distributive_add(t6, qq2, s3);
    lemma_mul_is_distributive_add(t6, qq3, s4);
    lemma_mul_is_distributive_add(t6, qq4, s5);
    lemma_mul_is_distributive_add(t6, qq5, s6);
    lemma_tm(p, -9, 4, 0, 0, 0, 0, 0, 0, -9, 4, 0, 0, 0, 0, 0, 0);
    assert(t0 * s0 == (81) * mn(p, 8, 0, 0, 0, 0, 0, 0));
    lemma_tm(p, -9, 4, 0, 0, 0, 0, 0, 0, 18, 3, 0, 1, 1, 0, 0, 0);
    assert(t0 * s1 == (-162) * mn(p, 7, 0, 1, 1, 0, 0, 0));
    lemma_tm(p, -9, 4, 0, 0, 0, 0, 0, 0, -54, 2, 0, 2, 0, 0, 0, 0);
    assert(t0 * s2 == (486) * mn(p, 6, 0, 2, 0, 0, 0, 0));
    lemma_tm(p, -9, 4, 0, 0, 0, 0, 0, 0, 18, 1, 0, 3, 1, 0, 0, 0);
    assert(t0 * s3 == (-162) * mn(p, 5, 0, 3, 1, 0, 0, 0));
    lemma_tm(p, -9, 4, 0, 0, 0, 0, 0, 0, 1, 0, 4, 0, 0, 0, 0, 0);
    assert(t0 * s4 == (-9) * mn(p, 4, 4, 0, 0, 0, 0, 0));
    lemma_tm(p, -9, 4, 0, 0, 0, 0, 0, 0, -9, 0, 0, 4, 2, 0, 0, 0);
    assert(t0 * s5 == (81) * mn(p, 4, 0, 4, 2, 0, 0, 0));
    lemma_tm(p, -9, 4, 0, 0, 0, 0, 0, 0, 27, 0, 0, 4, 0, 0, 0, 0);
    assert(t0 * s6 == (-243) * mn(p, 4, 0, 4, 0, 0, 0, 0));
    assert(t0 * q == (81) * mn(p, 8, 0, 0, 0, 0, 0, 0) + (-162) * mn(p, 7, 0, 1, 1, 0, 0, 0) + (486) * mn(p, 6, 0, 2, 0, 0, 0, 0) + (-162) * mn(p, 5, 0, 3, 1, 0, 0, 0) + (-9) * mn(p, 4, 4, 0, 0, 0, 0, 0) + (81) * mn(p, 4, 0, 4, 2, 0, 0, 0) + (-243) * mn(p, 4, 0, 4, 0, 0, 0, 0));
    lemma_tm(p, 18, 3, 0, 1, 1, 0, 0, 0, -9, 4, 0, 0, 0, 0, 0, 0);
    assert(t1 * s0 == (-162) * mn(p, 7, 0, 1, 1, 0, 0, 0));
    lemma_tm(p, 18, 3, 0, 1, 1, 0, 0, 0, 18, 3, 0, 1, 1, 0, 0, 0);
    assert(t1 * s1 == (324) * mn(p, 6, 0, 2, 2, 0, 0, 0));
    lemma_tm(p, 18, 3, 0, 1, 1, 0, 0, 0, -54, 2, 0, 2, 0, 0, 0, 0);
    assert(t1 * s2 == (-972) * mn(p, 5, 0, 3, 1, 0, 0, 0));
    lemma_tm(p, 18, 3, 0, 1, 1, 0, 0, 0, 18, 1, 0, 3, 1, 0, 0, 0);
    assert(t1 * s3 == (324) * mn(p, 4, 0, 4, 2, 0, 0, 0));
    lemma_tm(p, 18, 3, 0, 1, 1, 0, 0, 0, 1, 0, 4, 0, 0, 0, 0, 0);
    assert(t1 * s4 == (18) * mn(p, 3, 4, 1, 1, 0, 0, 0));
    lemma_tm(p, 18, 3, 0, 1, 1, 0, 0, 0, -9, 0, 0, 4, 2, 0, 0, 0);
    assert(t1 * s5 == (-162) * mn(p, 3, 0, 5, 3, 0, 0, 0));
    lemma_tm(p, 18, 3, 0, 1, 1, 0, 0, 0, 27, 0, 0, 4, 0, 0, 0, 0);
    assert(t1 * s6 == (486) * mn(p, 3, 0, 5, 1, 0, 0, 0));
    assert(t1 * q == (-162) * mn(p, 7, 0, 1, 1, 0, 0, 0) + (324) * mn(p, 6, 0, 2, 2, 0, 0, 0) + (-972) * mn(p, 5, 0, 3, 1, 0, 0, 0) + (324) * mn(p, 4, 0, 4, 2, 0, 0, 0) + (18) * mn(p, 3, 4, 1, 1, 0, 0, 0) + (-162) * mn(p, 3, 0, 5, 3, 0, 0, 0) + (486) * mn(p, 3, 0, 5, 1, 0, 0, 0));
    lemma_tm(p, -54, 2, 0, 2, 0, 0, 0, 0, -9, 4, 0, 0, 0, 0, 0, 0);
    assert(t2 * s0 == (486) * mn(p, 6, 0, 2, 0, 0, 0, 0));
    lemma_tm(p, -54, 2, 0, 2, 0, 0, 0, 0, 18, 3, 0, 1, 1, 0, 0, 0);
    assert(t2 * s1 == (-972) * mn(p, 5, 0, 3, 1, 0, 0, 0));
    lemma_tm(p, -54, 2, 0, 2, 0, 0, 0, 0, -54, 2, 0, 2, 0, 0, 0, 0);
    assert(t2 * s2 == (2916) * mn(p, 4, 0, 4, 0, 0, 0, 0));
    lemma_tm(p, -54, 2, 0, 2, 0, 0, 0, 0, 18, 1, 0, 3, 1, 0, 0, 0);
    assert(t2 * s3 == (-972) * mn(p, 3, 0, 5, 1, 0, 0, 0));
    lemma_tm(p, -54, 2, 0, 2, 0, 0, 0, 0, 1, 0, 4, 0, 0, 0, 0, 0);
    assert(t2 * s4 == (-54) * mn(p, 2, 4, 2, 0, 0, 0, 0));
    lemma_tm(p, -54, 2, 0, 2, 0, 0, 0, 0, -9, 0, 0, 4, 2, 0, 0, 0);
    assert(t2 * s5 == (486) * mn(p, 2, 0, 6, 2, 0, 0, 0));
    lemma_tm(p, -54, 2, 0, 2, 0, 0, 0, 0, 27, 0, 0, 4, 0, 0, 0, 0);
    assert(t2 * s6 == (-1458) * mn(p, 2, 0, 6, 0, 0, 0, 0));
    assert(t2 * q == (486) * mn(p, 6, 0, 2, 0, 0, 0, 0) + (-972) * mn(p, 5, 0, 3, 1, 0, 0, 0) + (2916) * mn(p, 4, 0, 4, 0, 0, 0, 0) + (-972) * mn(p, 3, 0, 5, 1, 0, 0, 0) + (-54) * mn(p, 2, 4, 2, 0, 0, 0, 0) + (486) * mn(p, 2, 0, 6, 2, 0, 0, 0) + (-1458) * mn(p, 2, 0, 6, 0, 0, 0, 0));
    lemma_tm(p, 18, 1, 0, 3, 1, 0, 0, 0, -9, 4, 0, 0, 0, 0, 0, 0);
    assert(t3 * s0 == (-162) * mn(p, 5, 0, 3, 1, 0, 0, 0));
    lemma_tm(p, 18, 1, 0, 3, 1, 0, 0, 0, 18, 3, 0, 1, 1, 0, 0, 0);
    assert(t3 * s1 == (324) * mn(p, 4, 0, 4, 2, 0, 0, 0));
    lemma_tm(p, 18, 1, 0, 3, 1, 0, 0, 0, -54, 2, 0, 2, 0, 0, 0, 0);
    assert(t3 * s2 == (-972) * mn(p, 3, 0, 5, 1, 0, 0, 0));
    lemma_tm(p, 18, 1, 0, 3, 1, 0, 0, 0, 18, 1, 0, 3, 1, 0, 0, 0);
    assert(t3 * s3 == (324) * mn(p, 2, 0, 6, 2, 0, 0, 0));
    lemma_tm(p, 18, 1, 0, 3, 1, 0, 0, 0, 1, 0, 4, 0, 0, 0, 0, 0);
    assert(t3 * s4 == (18) * mn(p, 1, 4, 3, 1, 0, 0, 0));
    lemma_tm(p, 18, 1, 0, 3, 1, 0, 0, 0, -9, 0, 0, 4, 2, 0, 0, 0);
    assert(t3 * s5 == (-162) * mn(p, 1, 0, 7, 3, 0, 0, 0));
    lemma_tm(p, 18, 1, 0, 3, 1, 0, 0, 0, 27, 0, 0, 4, 0, 0, 0, 0);
    assert(t3 * s6 == (486) * mn(p, 1, 0, 7, 1, 0, 0, 0));
    assert(t3 * q == (-162) * mn(p, 5, 0, 3, 1, 0, 0, 0) + (324) * mn(p, 4, 0, 4, 2, 0, 0, 0) + (-972) * mn(p, 3, 0, 5, 1, 0, 0, 0) + (324) * mn(p, 2, 0, 6, 2, 0, 0, 0) + (18) * mn(p, 1, 4, 3, 1, 0, 0, 0) + (-162) * mn(p, 1, 0, 7, 3, 0, 0, 0) + (486) * mn(p, 1, 0, 7, 1, 0, 0, 0));
    lemma_tm(p, 1, 0, 4, 0, 0, 0, 0, 0, -9, 4, 0, 0, 0, 0, 0, 0);
    assert(t4 * s0 == (-9) * mn(p, 4, 4, 0, 0, 0, 0, 0));
    lemma_tm(p, 1, 0, 4, 0, 0, 0, 0, 0, 18, 3, 0, 1, 1, 0, 0, 0);
    assert(t4 * s1 == (18) * mn(p, 3, 4, 1, 1, 0, 0, 0));
    lemma_tm(p, 1, 0, 4, 0, 0, 0, 0, 0, -54, 2, 0, 2, 0, 0, 0, 0);
    assert(t4 * s2 == (-54) * mn(p, 2, 4, 2, 0, 0, 0, 0));
    lemma_tm(p, 1, 0, 4, 0, 0, 0, 0, 0, 18, 1, 0, 3, 1, 0, 0, 0);
    assert(t4 * s3 == (18) * mn(p, 1, 4, 3, 1, 0, 0, 0));
    lemma_tm(p, 1, 0, 4, 0, 0, 0, 0, 0, 1, 0, 4, 0, 0, 0, 0, 0);
    assert(t4 * s4 == (1) * mn(p, 0, 8, 0, 0, 0, 0, 0));
    lemma_tm(p, 1, 0, 4, 0, 0, 0, 0, 0, -9, 0, 0, 4, 2, 0, 0, 0);
    assert(t4 * s5 == (-9) * mn(p, 0, 4, 4, 2, 0, 0, 0));
    lemma_tm(p, 1, 0, 4, 0, 0, 0, 0, 0, 27, 0, 0, 4, 0, 0, 0, 0);
    assert(t4 * s6 == (27) * mn(p, 0, 4, 4, 0, 0, 0, 0));
    assert(t4 * q == (-9) * mn(p, 4, 4, 0, 0, 0, 0, 0) + (18) * mn(p, 3, 4, 1, 1, 0, 0, 0) + (-54) * mn(p, 2, 4, 2, 0, 0, 0, 0) + (18) * mn(p, 1, 4, 3, 1, 0, 0, 0) + (1) * mn(p, 0, 8, 0, 0, 0, 0, 0) + (-9) * mn(p, 0, 4, 4, 2, 0, 0, 0) + (27) * mn(p, 0, 4, 4, 0, 0, 0, 0));
    lemma_tm(p, -9, 0, 0, 4, 2, 0, 0, 0, -9, 4, 0, 0, 0, 0, 0, 0);
    assert(t5 * s0 == (81) * mn(p, 4, 0, 4, 2, 0, 0, 0));
    lemma_tm(p, -9, 0, 0, 4, 2, 0, 0, 0, 18, 3, 0, 1, 1, 0, 0, 0);
    assert(t5 * s1 == (-162) * mn(p, 3, 0, 5, 3, 0, 0, 0));
    lemma_tm(p, -9, 0, 0, 4, 2, 0, 0, 0, -54, 2, 0, 2, 0, 0, 0, 0);
    assert(t5 * s2 == (486) * mn(p, 2, 0, 6, 2, 0, 0, 0));
    lemma_tm(p, -9, 0, 0, 4, 2, 0, 0, 0, 18, 1, 0, 3, 1, 0, 0, 0);
    assert(t5 * s3 == (-162) * mn(p, 1, 0, 7, 3, 0, 0, 0));
    lemma_tm(p, -9, 0, 0, 4, 2, 0, 0, 0, 1, 0, 4, 0, 0, 0, 0, 0);
    assert(t5 * s4 == (-9) * mn(p, 0, 4, 4, 2, 0, 0, 0));
    lemma_tm(p, -9, 0, 0, 4, 2, 0, 0, 0, -9, 0, 0, 4, 2, 0, 0, 0);
    assert(t5 * s5 == (81) * mn(p, 0, 0, 8, 4, 0, 0, 0));
    lemma_tm(p, -9, 0, 0, 4, 2, 0, 0, 0, 27, 0, 0, 4, 0, 0, 0, 0);
    assert(t5 * s6 == (-243) * mn(p, 0, 0, 8, 2, 0, 0, 0));
    assert(t5 * q == (81) * mn(p, 4, 0, 4, 2, 0, 0, 0) + (-162) * mn(p, 3, 0, 5, 3, 0, 0, 0) + (486) * mn(p, 2, 0, 6, 2, 0, 0, 0) + (-162) * mn(p, 1, 0, 7, 3, 0, 0, 0) + (-9) * mn(p, 0, 4, 4, 2, 0, 0, 0) + (81) * mn(p, 0, 0, 8, 4, 0, 0, 0) + (-243) * mn(p, 0, 0, 8, 2, 0, 0, 0));
    lemma_tm(p, 27, 0, 0, 4, 0, 0, 0, 0, -9, 4, 0, 0, 0, 0, 0, 0);
    assert(t6 * s0 == (-243) * mn(p, 4, 0, 4, 0, 0, 0, 0));
    lemma_tm(p, 27, 0, 0, 4, 0, 0, 0, 0, 18, 3, 0, 1, 1, 0, 0, 0);
    assert(t6 * s1 == (486) * mn(p, 3, 0, 5, 1, 0, 0, 0));
    lemma_tm(p, 27, 0, 0, 4, 0, 0, 0, 0, -54, 2, 0, 2, 0, 0, 0, 0);
    assert(t6 * s2 == (-1458) * mn(p, 2, 0, 6, 0, 0, 0, 0));
    lemma_tm(p, 27, 0, 0, 4, 0, 0, 0, 0, 18, 1, 0, 3, 1, 0, 0, 0);
    assert(t6 * s3 == (486) * mn(p, 1, 0, 7, 1, 0, 0, 0));
    lemma_tm(p, 27, 0, 0, 4, 0, 0, 0, 0, 1, 0, 4, 0, 0, 0, 0, 0);
    assert(t6 * s4 == (27) * mn(p, 0, 4, 4, 0, 0, 0, 0));
    lemma_tm(p, 27, 0, 0, 4, 0, 0, 0, 0, -9, 0, 0, 4, 2, 0, 0, 0);
    assert(t6 * s5 == (-243) * mn(p, 0, 0, 8, 2, 0, 0, 0));
    lemma_tm(p, 27, 0, 0, 4, 0, 0, 0, 0, 27, 0, 0, 4, 0, 0, 0, 0);
    assert(t6 * s6 == (729) * mn(p, 0, 0, 8, 0, 0, 0, 0));
    assert(t6 * q == (-243) * mn(p, 4, 0, 4, 0, 0, 0, 0) + (486) * mn(p, 3, 0, 5, 1, 0, 0, 0) + (-1458) * mn(p, 2, 0, 6, 0, 0, 0, 0) + (486) * mn(p, 1, 0, 7, 1, 0, 0, 0) + (27) * mn(p, 0, 4, 4, 0, 0, 0, 0) + (-243) * mn(p, 0, 0, 8, 2, 0, 0, 0) + (729) * mn(p, 0, 0, 8, 0, 0, 0, 0));
    assert(pp6 * q == (81) * mn(p, 8, 0, 0, 0, 0, 0, 0) + (-324) * mn(p, 7, 0, 1, 1, 0, 0, 0) + (324) * mn(p, 6, 0, 2, 2, 0, 0, 0) + (972) * mn(p, 6, 0, 2, 0, 0, 0, 0) + (-2268) * mn(p, 5, 0, 3, 1, 0, 0, 0) + (-18) * mn(p, 4, 4, 0, 0, 0, 0, 0) + (810) * mn(p, 4, 0, 4, 2, 0, 0, 0) + (2430) * mn(p, 4, 0, 4, 0, 0, 0, 0) + (36) * mn(p, 3, 4, 1, 1, 0, 0, 0) + (-324) * mn(p, 3, 0, 5, 3, 0, 0, 0) + (-972) * mn(p, 3, 0, 5, 1, 0, 0, 0) + (-108) * mn(p, 2, 4, 2, 0, 0, 0, 0) + (1296) * mn(p, 2, 0, 6, 2, 0, 0, 0) + (-2916) * mn(p, 2, 0, 6, 0, 0, 0, 0) + (36) * mn(p, 1, 4, 3, 1, 0, 0, 0) + (-324) * mn(p, 1, 0, 7, 3, 0, 0, 0) + (972) * mn(p, 1, 0, 7, 1, 0, 0, 0) + (1) * mn(p, 0, 8, 0, 0, 0, 0, 0) + (-18) * mn(p, 0, 4, 4, 2, 0, 0, 0) + (54) * mn(p, 0, 4, 4, 0, 0, 0, 0) + (81) * mn(p, 0, 0, 8, 4, 0, 0, 0) + (-486) * mn(p, 0, 0, 8, 2, 0, 0, 0) + (729) * mn(p, 0, 0, 8, 0, 0, 0, 0));
}

#[verifier::rlimit(100)]
proof fn dc_prod14(p: Pt)
    ensures
        ((81) * mn(p, 8, 0, 0, 0, 0, 0, 0) + (-324) * mn(p, 7, 0, 1, 1, 0, 0, 0) + (324) * mn(p, 6, 0, 2, 2, 0, 0, 0) + (972) * mn(p, 6, 0, 2, 0, 0, 0, 0) + (-2268) * mn(p, 5, 0, 3, 1, 0, 0, 0) + (-18) * mn(p, 4, 4, 0, 0, 0, 0, 0) + (810) * mn(p, 4, 0, 4, 2, 0, 0, 0) + (2430) * mn(p, 4, 0, 4, 0, 0, 0, 0) + (36) * mn(p, 3, 4, 1, 1, 0, 0, 0) + (-324) * mn(p, 3, 0, 5, 3, 0, 0, 0) + (-972) * mn(p, 3, 0, 5, 1, 0, 0, 0) + (-108) * mn(p, 2, 4, 2, 0, 0, 0, 0) + (1296) * mn(p, 2, 0, 6, 2, 0, 0, 0) + (-2916) * mn(p, 2, 0, 6, 0, 0, 0, 0) + (36) * mn(p, 1, 4, 3, 1, 0, 0, 0) + (-324) * mn(p, 1, 0, 7, 3, 0, 0, 0) + (972) * mn(p, 1, 0, 7, 1, 0, 0, 0) + (1) * mn(p, 0, 8, 0, 0, 0, 0, 0) + (-18) * mn(p, 0, 4, 4, 2, 0, 0, 0) + (54) * mn(p, 0, 4, 4, 0, 0, 0, 0) + (81) * mn(p, 0, 0, 8, 4, 0, 0, 0) + (-486) * mn(p, 0, 0, 8, 2, 0, 0, 0) + (729) * mn(p, 0, 0, 8, 0, 0, 0, 0)) * ((8) * mn(p, 0, 3, 1, 0, 0, 0, 0)) == (648) * mn(p, 8, 3, 1, 0, 0, 0, 0) + (-2592) * mn(p, 7, 3, 2, 1, 0, 0, 0) + (2592) * mn(p, 6, 3, 3, 2, 0, 0, 0) + (7776) * mn(p, 6, 3, 3, 0, 0, 0, 0) + (-18144) * mn(p, 5, 3, 4, 1, 0, 0, 0) + (-144) * mn(p, 4, 7, 1, 0, 0, 0, 0) + (6480) * mn(p, 4, 3, 5, 2, 0, 0, 0) + (19440) * mn(p, 4, 3, 5, 0, 0, 0, 0) + (288) * mn(p, 3, 7, 2, 1, 0, 0, 0) + (-2592) * mn(p, 3, 3, 6, 3, 0, 0, 0) + (-7776) * mn(p, 3, 3, 6, 1, 0, 0, 0) + (-864) * mn(p, 2, 7, 3, 0, 0, 0, 0) + (10368) * mn(p, 2, 3, 7, 2, 0, 0, 0) + (-23328) * mn(p, 2, 3, 7, 0, 0, 0, 0) + (288) * mn(p, 1, 7, 4, 1, 0, 0, 0) + (-2592) * mn(p, 1, 3, 8, 3, 0, 0, 0) + (7776) * mn(p, 1, 3, 8, 1, 0, 0, 0) + (8) * mn(p, 0, 11, 1, 0, 0, 0, 0) + (-144) * mn(p, 0, 7, 5, 2, 0, 0, 0) + (432) * mn(p, 0, 7, 5, 0, 0, 0, 0) + (648) * mn(p, 0, 3, 9, 4, 0, 0, 0) + (-3888) * mn(p, 0, 3, 9, 2, 0, 0, 0) + (5832) * mn(p, 0, 3, 9, 0, 0, 0, 0),
{
    let t0 = (81) * mn(p, 8, 0, 0, 0, 0, 0, 0);
    let t1 = (-324) * mn(p, 7, 0, 1, 1, 0, 0, 0);
    let t2 = (324) * mn(p, 6, 0, 2, 2, 0, 0, 0);
    let t3 = (972) * mn(p, 6, 0, 2, 0, 0, 0, 0);
    let t4 = (-2268) * mn(p, 5, 0, 3, 1, 0, 0, 0);
    let t5 = (-18) * mn(p, 4, 4, 0, 0, 0, 0, 0);
    let t6 = (810) * mn(p, 4, 0, 4, 2, 0, 0, 0);
    let t7 = (2430) * mn(p, 4, 0, 4, 0, 0, 0, 0);
    let t8 = (36) * mn(p, 3, 4, 1, 1, 0, 0, 0);
    let t9 = (-324) * mn(p, 3, 0, 5, 3, 0, 0, 0);
    let t10 = (-972) * mn(p, 3, 0, 5, 1, 0, 0, 0);
    let t11 = (-108) * mn(p, 2, 4, 2, 0, 0, 0, 0);
    let t12 = (1296) * mn(p, 2, 0, 6, 2, 0, 0, 0);
    let t13 = (-2916) * mn(p, 2, 0, 6, 0, 0, 0, 0);
    let t14 = (36) * mn(p, 1, 4, 3, 1, 0, 0, 0);
    let t15 = (-324) * mn(p, 1, 0, 7, 3, 0, 0, 0);
    let t16 = (972) * mn(p, 1, 0, 7, 1, 0, 0, 0);
    let t17 = (1) * mn(p, 0, 8, 0, 0, 0, 0, 0);
    let t18 = (-18) * mn(p, 0, 4, 4, 2, 0, 0, 0);
    let t19 = (54) * mn(p, 0, 4, 4, 0, 0, 0, 0);
    let t20 = (81) * mn(p, 0, 0, 8, 4, 0, 0, 0);
    let t21 = (-486) * mn(p, 0, 0, 8, 2, 0, 0, 0);
    let t22 = (729) * mn(p, 0, 0, 8, 0, 0, 0, 0);
    let s0 = (8) * mn(p, 0, 3, 1, 0, 0, 0, 0);
    let pp0 = t0;
    let pp1 = pp0 + t1;
    let pp2 = pp1 + t2;
    let pp3 = pp2 + t3;
    let pp4 = pp3 + t4;
    let pp5 = pp4 + t5;
    let pp6 = pp5 + t6;
    let pp7 = pp6 + t7;
    let pp8 = pp7 + t8;
    let pp9 = pp8 + t9;
    let pp10 = pp9 + t10;
    let pp11 = pp10 + t11;
    let pp12 = pp11 + t12;
    let pp13 = pp12 + t13;
    let pp14 = pp13 + t14;
    let pp15 = pp14 + t15;
    let pp16 = pp15 + t16;
    let pp17 = pp16 + t17;
    let pp18 = pp17 + t18;
    let pp19 = pp18 + t19;
    let pp20 = pp19 + t20;
    let pp21 = pp20 + t21;
    let pp22 = pp21 + t22;
    let qq0 = s0;
    let q = qq0;
    lemma_mul_is_distributive_add_other_way(q, pp0, t1);
    lemma_mul_is_distributive_add_other_way(q, pp1, t2);
    lemma_mul_is_distributive_add_other_way(q, pp2, t3);
    lemma_mul_is_distributive_add_other_way(q, pp3, t4);
    lemma_mul_is_distributive_add_other_way(q, pp4, t5);
    lemma_mul_is_distributive_add_other_way(q, pp5, t6);
    lemma_mul_is_distributive_add_other_way(q, pp6, t7);
    lemma_mul_is_distributive_add_other_way(q, pp7, t8);
    lemma_mul_is_distributive_add_other_way(q, pp8, t9);
    lemma_mul_is_distributive_add_other_way(q, pp9, t10);
    lemma_mul_is_distributive_add_other_way(q, pp10, t11);
    lemma_mul_is_distributive_add_other_way(q, pp11, t12);
    lemma_mul_is_distributive_add_other_way(q, pp12, t13);
    lemma_mul_is_distributive_add_other_way(q, pp13, t14);
    lemma_mul_is_distributive_add_other_way(q, pp14, t15);
    lemma_mul_is_distributive_add_other_way(q, pp15, t16);
    lemma_mul_is_distributive_add_other_way(q, pp16, t17);
    lemma_mul_is_distributive_add_other_way(q, pp17, t18);
    lemma_mul_is_distributive_add_other_way(q, pp18, t19);
    lemma_mul_is_distributive_add_other_way(q, pp19, t20);
    lemma_mul_is_distributive_add_other_way(q, pp20, t21);
    lemma_mul_is_distributive_add_other_way(q, pp21, t22);
    lemma_tm(p, 81, 8, 0, 0, 0, 0, 0, 0, 8, 0, 3, 1, 0, 0, 0, 0);
    assert(t0 * s0 == (648) * mn(p, 8, 3, 1, 0, 0, 0, 0));
    assert(t0 * q == (648) * mn(p, 8, 3, 1, 0, 0, 0, 0));
    lemma_tm(p, -324, 7, 0, 1, 1, 0, 0, 0, 8, 0, 3, 1, 0, 0, 0, 0);
    assert(t1 * s0 == (-2592) * mn(p, 7, 3, 2, 1, 0, 0, 0));
    assert(t1 * q == (-2592) * mn(p, 7, 3, 2, 1, 0, 0, 0));
    lemma_tm(p, 324, 6, 0, 2, 2, 0, 0, 0, 8, 0, 3, 1, 0, 0, 0, 0);
    assert(t2 * s0 == (2592) * mn(p, 6, 3, 3, 2, 0, 0, 0));
    assert(t2 * q == (2592) * mn(p, 6, 3, 3, 2, 0, 0, 0));
    lemma_tm(p, 972, 6, 0, 2, 0, 0, 0, 0, 8, 0, 3, 1, 0, 0, 0, 0);
    assert(t3 * s0 == (7776) * mn(p, 6, 3, 3, 0, 0, 0, 0));
    assert(t3 * q == (7776) * mn(p, 6, 3, 3, 0, 0, 0, 0));
    lemma_tm(p, -2268, 5, 0, 3, 1, 0, 0, 0, 8, 0, 3, 1, 0, 0, 0, 0);
    assert(t4 * s0 == (-18144) * mn(p, 5, 3, 4, 1, 0, 0, 0));
    assert(t4 * q == (-18144) * mn(p, 5, 3, 4, 1, 0, 0, 0));
    lemma_tm(p, -18, 4, 4, 0, 0, 0, 0, 0, 8, 0, 3, 1, 0, 0, 0, 0);
    assert(t5 * s0 == (-144) * mn(p, 4, 7, 1, 0, 0, 0, 0));
    assert(t5 * q == (-144) * mn(p, 4, 7, 1, 0, 0, 0, 0));
    lemma_tm(p, 810, 4, 0, 4, 2, 0, 0, 0, 8, 0, 3, 1, 0, 0, 0, 0);
    assert(t6 * s0 == (6480) * mn(p, 4, 3, 5, 2, 0, 0, 0));
    assert(t6 * q == (6480) * mn(p, 4, 3, 5, 2, 0, 0, 0));
    lemma_tm(p, 2430, 4, 0, 4, 0, 0, 0, 0, 8, 0, 3, 1, 0, 0, 0, 0);
    assert(t7 * s0 == (19440) * mn(p, 4, 3, 5, 0, 0, 0, 0));
    assert(t7 * q == (19440) * mn(p, 4, 3, 5, 0, 0, 0, 0));
    lemma_tm(p, 36, 3, 4, 1, 1, 0, 0, 0, 8, 0, 3, 1, 0, 0, 0, 0);
    assert(t8 * s0 == (288) * mn(p, 3, 7, 2, 1, 0, 0, 0));
    assert(t8 * q == (288) * mn(p, 3, 7, 2, 1, 0, 0, 0));
    lemma_tm(p, -324, 3, 0, 5, 3, 0, 0, 0, 8, 0, 3, 1, 0, 0, 0, 0);
    assert(t9 * s0 == (-2592) * mn(p, 3, 3, 6, 3, 0, 0, 0));
    assert(t9 * q == (-2592) * mn(p, 3, 3, 6, 3, 0, 0, 0));
    lemma_tm(p, -972, 3, 0, 5, 1, 0, 0, 0, 8, 0, 3, 1, 0, 0, 0, 0);
    assert(t10 * s0 == (-7776) * mn(p, 3, 3, 6, 1, 0, 0, 0));
    assert(t10 * q == (-7776) * mn(p, 3, 3, 6, 1, 0, 0, 0));
    lemma_tm(p, -108, 2, 4, 2, 0, 0, 0, 0, 8, 0, 3, 1, 0, 0, 0, 0);
    assert(t11 * s0 == (-864) * mn(p, 2, 7, 3, 0, 0, 0, 0));
    assert(t11 * q == (-864) * mn(p, 2, 7, 3, 0, 0, 0, 0));
    lemma_tm(p, 1296, 2, 0, 6, 2, 0, 0, 0, 8, 0, 3, 1, 0, 0, 0, 0);
    assert(t12 * s0 == (10368) * mn(p, 2, 3, 7, 2, 0, 0, 0));
    assert(t12 * q == (10368) * mn(p, 2, 3, 7, 2, 0, 0, 0));
    lemma_tm(p, -2916, 2, 0, 6, 0, 0, 0, 0, 8, 0, 3, 1, 0, 0, 0, 0);
    assert(t13 * s0 == (-23328) * mn(p, 2, 3, 7, 0, 0, 0, 0));
    assert(t13 * q == (-23328) * mn(p, 2, 3, 7, 0, 0, 0, 0));
    lemma_tm(p, 36, 1, 4, 3, 1, 0, 0, 0, 8, 0, 3, 1, 0, 0, 0, 0);
    assert(t14 * s0 == (288) * mn(p, 1, 7, 4, 1, 0, 0, 0));
    assert(t14 * q == (288) * mn(p, 1, 7, 4, 1, 0, 0, 0));
    lemma_tm(p, -324, 1, 0, 7, 3, 0, 0, 0, 8, 0, 3, 1, 0, 0, 0, 0);
    assert(t15 * s0 == (-2592) * mn(p, 1, 3, 8, 3, 0, 0, 0));
    assert(t15 * q == (-2592) * mn(p, 1, 3, 8, 3, 0, 0, 0));
    lemma_tm(p, 972, 1, 0, 7, 1, 0, 0, 0, 8, 0, 3, 1, 0, 0, 0, 0);
    assert(t16 * s0 == (7776) * mn(p, 1, 3, 8, 1, 0, 0, 0));
    assert(t16 * q == (7776) * mn(p, 1, 3, 8, 1, 0, 0, 0));
    lemma_tm(p, 1, 0, 8, 0, 0, 0, 0, 0, 8, 0, 3, 1, 0, 0, 0, 0);
    assert(t17 * s0 == (8) * mn(p, 0, 11, 1, 0, 0, 0, 0));
    assert(t17 * q == (8) * mn(p, 0, 11, 1, 0, 0, 0, 0));
    lemma_tm(p, -18, 0, 4, 4, 2, 0, 0, 0, 8, 0, 3, 1, 0, 0, 0, 0);
    assert(t18 * s0 == (-144) * mn(p, 0, 7, 5, 2, 0, 0, 0));
    assert(t18 * q == (-144) * mn(p, 0, 7, 5, 2, 0, 0, 0));
    lemma_tm(p, 54, 0, 4, 4, 0, 0, 0, 0, 8, 0, 3, 1, 0, 0, 0, 0);
    assert(t19 * s0 == (432) * mn(p, 0, 7, 5, 0, 0, 0, 0));
    assert(t19 * q == (432) * mn(p, 0, 7, 5, 0, 0, 0, 0));
    lemma_tm(p, 81, 0, 0, 8, 4, 0, 0, 0, 8, 0, 3, 1, 0, 0, 0, 0);
    assert(t20 * s0 == (648) * mn(p, 0, 3, 9, 4, 0, 0, 0));
    assert(t20 * q == (648) * mn(p, 0, 3, 9, 4, 0, 0, 0));
    lemma_tm(p, -486, 0, 0, 8, 2, 0, 0, 0, 8, 0, 3, 1, 0, 0, 0, 0);
    assert(t21 * s0 == (-3888) * mn(p, 0, 3, 9, 2, 0, 0, 0));
    assert(t21 * q == (-3888) * mn(p, 0, 3, 9, 2, 0, 0, 0));
    lemma_tm(p, 729, 0, 0, 8, 0, 0, 0, 0, 8, 0, 3, 1, 0, 0, 0, 0);
    assert(t22 * s0 == (5832) * mn(p, 0, 3, 9, 0, 0, 0, 0));
    assert(t22 * q == (5832) * mn(p, 0, 3, 9, 0, 0, 0, 0));
    assert(pp22 * q == (648) * mn(p, 8, 3, 1, 0, 0, 0, 0) + (-2592) * mn(p, 7, 3, 2, 1, 0, 0, 0) + (2592) * mn(p, 6, 3, 3, 2, 0, 0, 0) + (7776) * mn(p, 6, 3, 3, 0, 0, 0, 0) + (-18144) * mn(p, 5, 3, 4, 1, 0, 0, 0) + (-144) * mn(p, 4, 7, 1, 0, 0, 0, 0) + (6480) * mn(p, 4, 3, 5, 2, 0, 0, 0) + (19440) * mn(p, 4, 3, 5, 0, 0, 0, 0) + (288) * mn(p, 3, 7, 2, 1, 0, 0, 0) + (-2592) * mn(p, 3, 3, 6, 3, 0, 0, 0) + (-7776) * mn(p, 3, 3, 6, 1, 0, 0, 0) + (-864) * mn(p, 2, 7, 3, 0, 0, 0, 0) + (10368) * mn(p, 2, 3, 7, 2, 0, 0, 0) + (-23328) * mn(p, 2, 3, 7, 0, 0, 0, 0) + (288) * mn(p, 1, 7, 4, 1, 0, 0, 0) + (-2592) * mn(p, 1, 3, 8, 3, 0, 0, 0) + (7776) * mn(p, 1, 3, 8, 1, 0, 0, 0) + (8) * mn(p, 0, 11, 1, 0, 0, 0, 0) + (-144) * mn(p, 0, 7, 5, 2, 0, 0, 0) + (432) * mn(p, 0, 7, 5, 0, 0, 0, 0) + (648) * mn(p, 0, 3, 9, 4, 0, 0, 0) + (-3888) * mn(p, 0, 3, 9, 2, 0, 0, 0) + (5832) * mn(p, 0, 3, 9, 0, 0, 0, 0));
}

#[verifier::rlimit(100)]
proof fn dc_prod15(p: Pt)
    ensures
        ((18) * mn(p, 2, 1, 1, 0, 0, 0, 0) + (2) * mn(p, 1, 3, 0, 0, 0, 0, 0) + (-18) * mn(p, 1, 1, 2, 1, 0, 0, 0) + (18) * mn(p, 0, 1, 3, 0, 0, 0, 0)) * ((18) * mn(p, 2, 1, 1, 0, 0, 0, 0) + (2) * mn(p, 1, 3, 0, 0, 0, 0, 0) + (-18) * mn(p, 1, 1, 2, 1, 0, 0, 0) + (18) * mn(p, 0, 1, 3, 0, 0, 0, 0)) == (324) * mn(p, 4, 2, 2, 0, 0, 0, 0) + (72) * mn(p, 3, 4, 1, 0, 0, 0, 0) + (-648) * mn(p, 3, 2, 3, 1, 0, 0, 0) + (4) * mn(p, 2, 6, 0, 0, 0, 0, 0) + (-72) * mn(p, 2, 4, 2, 1, 0, 0, 0) + (324) * mn(p, 2, 2, 4, 2, 0, 0, 0) + (648) * mn(p, 2, 2, 4, 0, 0, 0, 0) + (72) * mn(p, 1, 4, 3, 0, 0, 0, 0) + (-648) * mn(p, 1, 2, 5, 1, 0, 0, 0) + (324) * mn(p, 0, 2, 6, 0, 0, 0, 0),
{
    let t0 = (18) * mn(p, 2, 1, 1, 0, 0, 0, 0);
    let t1 = (2) * mn(p, 1, 3, 0, 0, 0, 0, 0);
    let t2 = (-18) * mn(p, 1, 1, 2, 1, 0, 0, 0);
    let t3 = (18) * mn(p, 0, 1, 3, 0, 0, 0, 0);
    let s0 = (18) * mn(p, 2, 1, 1, 0, 0, 0, 0);
    let s1 = (2) * mn(p, 1, 3, 0, 0, 0, 0, 0);
    let s2 = (-18) * mn(p, 1, 1, 2, 1, 0, 0, 0);
    let s3 = (18) * mn(p, 0, 1, 3, 0, 0, 0, 0);
    let pp0 = t0;
    let pp1 = pp0 + t1;
    let pp2 = pp1 + t2;
    let pp3 = pp2 + t3;
    let qq0 = s0;
    let qq1 = qq0 + s1;
    let qq2 = qq1 + s2;
    let qq3 = qq2 + s3;
    let q = qq3;
    lemma_mul_is_distributive_add_other_way(q, pp0, t1);
    lemma_mul_is_distributive_add_other_way(q, pp1, t2);
    lemma_mul_is_distributive_add_other_way(q, pp2, t3);
    lemma_mul_is_distributive_add(t0, qq0, s1);
    lemma_mul_is_distributive_add(t0, qq1, s2);
    lemma_mul_is_distributive_add(t0, qq2, s3);
    lemma_mul_is_distributive_add(t1, qq0, s1);
    lemma_mul_is_distributive_add(t1, qq1, s2);
    lemma_mul_is_distributive_add(t1, qq2, s3);
    lemma_mul_is_distributive_add(t2, qq0, s1);
    lemma_mul_is_distributive_add(t2, qq1, s2);
    lemma_mul_is_distributive_add(t2, qq2, s3);
    lemma_mul_is_distributive_add(t3, qq0, s1);
    lemma_mul_is_distributive_add(t3, qq1, s2);
    lemma_mul_is_distributive_add(t3, qq2, s3);
    lemma_tm(p, 18, 2, 1, 1, 0, 0, 0, 0, 18, 2, 1, 1, 0, 0, 0, 0);
    assert(t0 * s0 == (324) * mn(p, 4, 2, 2, 0, 0, 0, 0));
    lemma_tm(p, 18, 2, 1, 1, 0, 0, 0, 0, 2, 1, 3, 0, 0, 0, 0, 0);
    assert(t0 * s1 == (36) * mn(p, 3, 4, 1, 0, 0, 0, 0));
    lemma_tm(p, 18, 2, 1, 1, 0, 0, 0, 0, -18, 1, 1, 2, 1, 0, 0, 0);
    assert(t0 * s2 == (-324) * mn(p, 3, 2, 3, 1, 0, 0, 0));
    lemma_tm(p, 18, 2, 1, 1, 0, 0, 0, 0, 18, 0, 1, 3, 0, 0, 0, 0);
    assert(t0 * s3 == (324) * mn(p, 2, 2, 4, 0, 0, 0, 0));
    assert(t0 * q == (324) * mn(p, 4, 2, 2, 0, 0, 0, 0) + (36) * mn(p, 3, 4, 1, 0, 0, 0, 0) + (-324) * mn(p, 3, 2, 3, 1, 0, 0, 0) + (324) * mn(p, 2, 2, 4, 0, 0, 0, 0));
    lemma_tm(p, 2, 1, 3, 0, 0, 0, 0, 0, 18, 2, 1, 1, 0, 0, 0, 0);
    assert(t1 * s0 == (36) * mn(p, 3, 4, 1, 0, 0, 0, 0));
    lemma_tm(p, 2, 1, 3, 0, 0, 0, 0, 0, 2, 1, 3, 0, 0, 0, 0, 0);
    assert(t1 * s1 == (4) * mn(p, 2, 6, 0, 0, 0, 0, 0));
    lemma_tm(p, 2, 1, 3, 0, 0, 0, 0, 0, -18, 1, 1, 2, 1, 0, 0, 0);
    assert(t1 * s2 == (-36) * mn(p, 2, 4, 2, 1, 0, 0, 0));
    lemma_tm(p, 2, 1, 3, 0, 0, 0, 0, 0, 18, 0, 1, 3, 0, 0, 0, 0);
    assert(t1 * s3 == (36) * mn(p, 1, 4, 3, 0, 0, 0, 0));
    assert(t1 * q == (36) * mn(p, 3, 4, 1, 0, 0, 0, 0) + (4) * mn(p, 2, 6, 0, 0, 0, 0, 0) + (-36) * mn(p, 2, 4, 2, 1, 0, 0, 0) + (36) * mn(p, 1, 4, 3, 0, 0, 0, 0));
    lemma_tm(p, -18, 1, 1, 2, 1, 0, 0, 0, 18, 2, 1, 1, 0, 0, 0, 0);
    assert(t2 * s0 == (-324) * mn(p, 3, 2, 3, 1, 0, 0, 0));
    lemma_tm(p, -18, 1, 1, 2, 1, 0, 0, 0, 2, 1, 3, 0, 0, 0, 0, 0);
    assert(t2 * s1 == (-36) * mn(p, 2, 4, 2, 1, 0, 0, 0));
    lemma_tm(p, -18, 1, 1, 2, 1, 0, 0, 0, -18, 1, 1, 2, 1, 0, 0, 0);
    assert(t2 * s2 == (324) * mn(p, 2, 2, 4, 2, 0, 0, 0));
    lemma_tm(p, -18, 1, 1, 2, 1, 0, 0, 0, 18, 0, 1, 3, 0, 0, 0, 0);
    assert(t2 * s3 == (-324) * mn(p, 1, 2, 5, 1, 0, 0, 0));
    assert(t2 * q == (-324) * mn(p, 3, 2, 3, 1, 0, 0, 0) + (-36) * mn(p, 2, 4, 2, 1, 0, 0, 0) + (324) * mn(p, 2, 2, 4, 2, 0, 0, 0) + (-324) * mn(p, 1, 2, 5, 1, 0, 0, 0));
    lemma_tm(p, 18, 0, 1, 3, 0, 0, 0, 0, 18, 2, 1, 1, 0, 0, 0, 0);
    assert(t3 * s0 == (324) * mn(p, 2, 2, 4, 0, 0, 0, 0));
    lemma_tm(p, 18, 0, 1, 3, 0, 0, 0, 0, 2, 1, 3, 0, 0, 0, 0, 0);
    assert(t3 * s1 == (36) * mn(p, 1, 4, 3, 0, 0, 0, 0));
    lemma_tm(p, 18, 0, 1, 3, 0, 0, 0, 0, -18, 1, 1, 2, 1, 0, 0, 0);
    assert(t3 * s2 == (-324) * mn(p, 1, 2, 5, 1, 0, 0, 0));
    lemma_tm(p, 18, 0, 1, 3, 0, 0, 0, 0, 18, 0, 1, 3, 0, 0, 0, 0);
    assert(t3 * s3 == (324) * mn(p, 0, 2, 6, 0, 0, 0, 0));
    assert(t3 * q == (324) * mn(p, 2, 2, 4, 0, 0, 0, 0) + (36) * mn(p, 1, 4, 3, 0, 0, 0, 0) + (-324) * mn(p, 1, 2, 5, 1, 0, 0, 0) + (324) * mn(p, 0, 2, 6, 0, 0, 0, 0));
    assert(pp3 * q == (324) * mn(p, 4, 2, 2, 0, 0, 0, 0) + (72) * mn(p, 3, 4, 1, 0, 0, 0, 0) + (-648) * mn(p, 3, 2, 3, 1, 0, 0, 0) + (4) * mn(p, 2, 6, 0, 0, 0, 0, 0) + (-72) * mn(p, 2, 4, 2, 1, 0, 0, 0) + (324) * mn(p, 2, 2, 4, 2, 0, 0, 0) + (648) * mn(p, 2, 2, 4, 0, 0, 0, 0) + (72) * mn(p, 1, 4, 3, 0, 0, 0, 0) + (-648) * mn(p, 1, 2, 5, 1, 0, 0, 0) + (324) * mn(p, 0, 2, 6, 0, 0, 0, 0));
}

#[verifier::rlimit(100)]
proof fn dc_prod16(p: Pt)
    ensures
        ((324) * mn(p, 4, 2, 2, 0, 0, 0, 0) + (72) * mn(p, 3, 4, 1, 0, 0, 0, 0) + (-648) * mn(p, 3, 2, 3, 1, 0, 0, 0) + (4) * mn(p, 2, 6, 0, 0, 0, 0, 0) + (-72) * mn(p, 2, 4, 2, 1, 0, 0, 0) + (324) * mn(p, 2, 2, 4, 2, 0, 0, 0) + (648) * mn(p, 2, 2, 4, 0, 0, 0, 0) + (72) * mn(p, 1, 4, 3, 0, 0, 0, 0) + (-648) * mn(p, 1, 2, 5, 1, 0, 0, 0) + (324) * mn(p, 0, 2, 6, 0, 0, 0, 0)) * ((18) * mn(p, 2, 1, 1, 0, 0, 0, 0) + (2) * mn(p, 1, 3, 0, 0, 0, 0, 0) + (-18) * mn(p, 1, 1, 2, 1, 0, 0, 0) + (18) * mn(p, 0, 1, 3, 0, 0, 0, 0)) == (5832) * mn(p, 6, 3, 3, 0, 0, 0, 0) + (1944) * mn(p, 5, 5, 2, 0, 0, 0, 0) + (-17496) * mn(p, 5, 3, 4, 1, 0, 0, 0) + (216) * mn(p, 4, 7, 1, 0, 0, 0, 0) + (-3888) * mn(p, 4, 5, 3, 1, 0, 0, 0) + (17496) * mn(p, 4, 3, 5, 2, 0, 0, 0) + (17496) * mn(p, 4, 3, 5, 0, 0, 0, 0) + (8) * mn(p, 3, 9, 0, 0, 0, 0, 0) + (-216) * mn(p, 3, 7, 2, 1, 0, 0, 0) + (1944) * mn(p, 3, 5, 4, 2, 0, 0, 0) + (3888) * mn(p, 3, 5, 4, 0, 0, 0, 0) + (-5832) * mn(p, 3, 3, 6, 3, 0, 0, 0) + (-34992) * mn(p, 3, 3, 6, 1, 0, 0, 0) + (216) * mn(p, 2, 7, 3, 0, 0, 0, 0) + (-3888) * mn(p, 2, 5, 5, 1, 0, 0, 0) + (17496) * mn(p, 2, 3, 7, 2, 0, 0, 0) + (17496) * mn(p, 2, 3, 7, 0, 0, 0, 0) + (1944) * mn(p, 1, 5, 6, 0, 0, 0, 0) + (-17496) * mn(p, 1, 3, 8, 1, 0, 0, 0) + (5832) * mn(p, 0, 3, 9, 0, 0, 0, 0),
{
    let t0 = (324) * mn(p, 4, 2, 2, 0, 0, 0, 0);
    let t1 = (72) * mn(p, 3, 4, 1, 0, 0, 0, 0);
    let t2 = (-648) * mn(p, 3, 2, 3, 1, 0, 0, 0);
    let t3 = (4) * mn(p, 2, 6, 0, 0, 0, 0, 0);
    let t4 = (-72) * mn(p, 2, 4, 2, 1, 0, 0, 0);
    let t5 = (324) * mn(p, 2, 2, 4, 2, 0, 0, 0);
    let t6 = (648) * mn(p, 2, 2, 4, 0, 0, 0, 0);
    let t7 = (72) * mn(p, 1, 4, 3, 0, 0, 0, 0);
    let t8 = (-648) * mn(p, 1, 2, 5, 1, 0, 0, 0);
    let t9 = (324) * mn(p, 0, 2, 6, 0, 0, 0, 0);
    let s0 = (18) * mn(p, 2, 1, 1, 0, 0, 0, 0);
    let s1 = (2) * mn(p, 1, 3, 0, 0, 0, 0, 0);
    let s2 = (-18) * mn(p, 1, 1, 2, 1, 0, 0, 0);
    let s3 = (18) * mn(p, 0, 1, 3, 0, 0, 0, 0);
    let pp0 = t0;
    let pp1 = pp0 + t1;
    let pp2 = pp1 + t2;
    let pp3 = pp2 + t3;
    let pp4 = pp3 + t4;
    let pp5 = pp4 + t5;
    let pp6 = pp5 + t6;
    let pp7 = pp6 + t7;
    let pp8 = pp7 + t8;
    let pp9 = pp8 + t9;
    let qq0 = s0;
    let qq1 = qq0 + s1;
    let qq2 = qq1 + s2;
    let qq3 = qq2 + s3;
    let q = qq3;
    lemma_mul_is_distributive_add_other_way(q, pp0, t1);
    lemma_mul_is_distributive_add_other_way(q, pp1, t2);
    lemma_mul_is_distributive_add_other_way(q, pp2, t3);
    lemma_mul_is_distributive_add_other_way(q, pp3, t4);
    lemma_mul_is_distributive_add_other_way(q, pp4, t5);
    lemma_mul_is_distributive_add_other_way(q, pp5, t6);
    lemma_mul_is_distributive_add_other_way(q, pp6, t7);
    lemma_mul_is_distributive_add_other_way(q, pp7, t8);
    lemma_mul_is_distributive_add_other_way(q, pp8, t9);
    lemma_mul_is_distributive_add(t0, qq0, s1);
    lemma_mul_is_distributive_add(t0, qq1, s2);
    lemma_mul_is_distributive_add(t0, qq2, s3);
    lemma_mul_is_distributive_add(t1, qq0, s1);
    lemma_mul_is_distributive_add(t1, qq1, s2);
    lemma_mul_is_distributive_add(t1, qq2, s3);
    lemma_mul_is_distributive_add(t2, qq0, s1);
    lemma_mul_is_distributive_add(t2, qq1, s2);
    lemma_mul_is_distributive_add(t2, qq2, s3);
    lemma_mul_is_distributive_add(t3, qq0, s1);
    lemma_mul_is_distributive_add(t3, qq1, s2);
    lemma_mul_is_distributive_add(t3, qq2, s3);
    lemma_mul_is_distributive_add(t4, qq0, s1);
    lemma_mul_is_distributive_add(t4, qq1, s2);
    lemma_mul_is_distributive_add(t4, qq2, s3);
    lemma_mul_is_distributive_add(t5, qq0, s1);
    lemma_mul_is_distributive_add(t5, qq1, s2);
    lemma_mul_is_distributive_add(t5, qq2, s3);
    lemma_mul_is_distributive_add(t6, qq0, s1);
    lemma_mul_is_distributive_add(t6, qq1, s2);
    lemma_mul_is_distributive_add(t6, qq2, s3);
    lemma_mul_is_distributive_add(t7, qq0, s1);
    lemma_mul_is_distributive_add(t7, qq1, s2);
    lemma_mul_is_distributive_add(t7, qq2, s3);
    lemma_mul_is_distributive_add(t8, qq0, s1);
    lemma_mul_is_distributive_add(t8, qq1, s2);
    lemma_mul_is_distributive_add(t8, qq2, s3);
    lemma_mul_is_distributive_add(t9, qq0, s1);
    lemma_mul_is_distributive_add(t9, qq1, s2);
    lemma_mul_is_distributive_add(t9, qq2, s3);
    lemma_tm(p, 324, 4, 2, 2, 0, 0, 0, 0, 18, 2, 1, 1, 0, 0, 0, 0);
    assert(t0 * s0 == (5832) * mn(p, 6, 3, 3, 0, 0, 0, 0));
    lemma_tm(p, 324, 4, 2, 2, 0, 0, 0, 0, 2, 1, 3, 0, 0, 0, 0, 0);
    assert(t0 * s1 == (648) * mn(p, 5, 5, 2, 0, 0, 0, 0));
    lemma_tm(p, 324, 4, 2, 2, 0, 0, 0, 0, -18, 1, 1, 2, 1, 0, 0, 0);
    assert(t0 * s2 == (-5832) * mn(p, 5, 3, 4, 1, 0, 0, 0));
    lemma_tm(p, 324, 4, 2, 2, 0, 0, 0, 0, 18, 0, 1, 3, 0, 0, 0, 0);
    assert(t0 * s3 == (5832) * mn(p, 4, 3, 5, 0, 0, 0, 0));
    assert(t0 * q == (5832) * mn(p, 6, 3, 3, 0, 0, 0, 0) + (648) * mn(p, 5, 5, 2, 0, 0, 0, 0) + (-5832) * mn(p, 5, 3, 4, 1, 0, 0, 0) + (5832) * mn(p, 4, 3, 5, 0, 0, 0, 0));
    lemma_tm(p, 72, 3, 4, 1, 0, 0, 0, 0, 18, 2, 1, 1, 0, 0, 0, 0);
    assert(t1 * s0 == (1296) * mn(p, 5, 5, 2, 0, 0, 0, 0));
    lemma_tm(p, 72, 3, 4, 1, 0, 0, 0, 0, 2, 1, 3, 0, 0, 0, 0, 0);
    assert(t1 * s1 == (144) * mn(p, 4, 7, 1, 0, 0, 0, 0));
    lemma_tm(p, 72, 3, 4, 1, 0, 0, 0, 0, -18, 1, 1, 2, 1, 0, 0, 0);
    assert(t1 * s2 == (-1296) * mn(p, 4, 5, 3, 1, 0, 0, 0));
    lemma_tm(p, 72, 3, 4, 1, 0, 0, 0, 0, 18, 0, 1, 3, 0, 0, 0, 0);
    assert(t1 * s3 == (1296) * mn(p, 3, 5, 4, 0, 0, 0, 0));
    assert(t1 * q == (1296) * mn(p, 5, 5, 2, 0, 0, 0, 0) + (144) * mn(p, 4, 7, 1, 0, 0, 0, 0) + (-1296) * mn(p, 4, 5, 3, 1, 0, 0, 0) + (1296) * mn(p, 3, 5, 4, 0, 0, 0, 0));
    lemma_tm(p, -648, 3, 2, 3, 1, 0, 0, 0, 18, 2, 1, 1, 0, 0, 0, 0);
    assert(t2 * s0 == (-11664) * mn(p, 5, 3, 4, 1, 0, 0, 0));
    lemma_tm(p, -648, 3, 2, 3, 1, 0, 0, 0, 2, 1, 3, 0, 0, 0, 0, 0);
    assert(t2 * s1 == (-1296) * mn(p, 4, 5, 3, 1, 0, 0, 0));
    lemma_tm(p, -648, 3, 2, 3, 1, 0, 0, 0, -18, 1, 1, 2, 1, 0, 0, 0);
    assert(t2 * s2 == (11664) * mn(p, 4, 3, 5, 2, 0, 0, 0));
    lemma_tm(p, -648, 3, 2, 3, 1, 0, 0, 0, 18, 0, 1, 3, 0, 0, 0, 0);
    assert(t2 * s3 == (-11664) * mn(p, 3, 3, 6, 1, 0, 0, 0));
    assert(t2 * q == (-11664) * mn(p, 5, 3, 4, 1, 0, 0, 0) + (-1296) * mn(p, 4, 5, 3, 1, 0, 0, 0) + (11664) * mn(p, 4, 3, 5, 2, 0, 0, 0) + (-11664) * mn(p, 3, 3, 6, 1, 0, 0, 0));
    lemma_tm(p, 4, 2, 6, 0, 0, 0, 0, 0, 18, 2, 1, 1, 0, 0, 0, 0);
    assert(t3 * s0 == (72) * mn(p, 4, 7, 1, 0, 0, 0, 0));
    lemma_tm(p, 4, 2, 6, 0, 0, 0, 0, 0, 2, 1, 3, 0, 0, 0, 0, 0);
    assert(t3 * s1 == (8) * mn(p, 3, 9, 0, 0, 0, 0, 0));
    lemma_tm(p, 4, 2, 6, 0, 0, 0, 0, 0, -18, 1, 1, 2, 1, 0, 0, 0);
    assert(t3 * s2 == (-72) * mn(p, 3, 7, 2, 1, 0, 0, 0));
    lemma_tm(p, 4, 2, 6, 0, 0, 0, 0, 0, 18, 0, 1, 3, 0, 0, 0, 0);
    assert(t3 * s3 == (72) * mn(p, 2, 7, 3, 0, 0, 0, 0));
    assert(t3 * q == (72) * mn(p, 4, 7, 1, 0, 0, 0, 0) + (8) * mn(p, 3, 9, 0, 0, 0, 0, 0) + (-72) * mn(p, 3, 7, 2, 1, 0, 0, 0) + (72) * mn(p, 2, 7, 3, 0, 0, 0, 0));
    lemma_tm(p, -72, 2, 4, 2, 1, 0, 0, 0, 18, 2, 1, 1, 0, 0, 0, 0);
    assert(t4 * s0 == (-1296) * mn(p, 4, 5, 3, 1, 0, 0, 0));
    lemma_tm(p, -72, 2, 4, 2, 1, 0, 0, 0, 2, 1, 3, 0, 0, 0, 0, 0);
    assert(t4 * s1 == (-144) * mn(p, 3, 7, 2, 1, 0, 0, 0));
    lemma_tm(p, -72, 2, 4, 2, 1, 0, 0, 0, -18, 1, 1, 2, 1, 0, 0, 0);
    assert(t4 * s2 == (1296) * mn(p, 3, 5, 4, 2, 0, 0, 0));
    lemma_tm(p, -72, 2, 4, 2, 1, 0, 0, 0, 18, 0, 1, 3, 0, 0, 0, 0);
    assert(t4 * s3 == (-1296) * mn(p, 2, 5, 5, 1, 0, 0, 0));
    assert(t4 * q == (-1296) * mn(p, 4, 5, 3, 1, 0, 0, 0) + (-144) * mn(p, 3, 7, 2, 1, 0, 0, 0) + (1296) * mn(p, 3, 5, 4, 2, 0, 0, 0) + (-1296) * mn(p, 2, 5, 5, 1, 0, 0, 0));
    lemma_tm(p, 324, 2, 2, 4, 2, 0, 0, 0, 18, 2, 1, 1, 0, 0, 0, 0);
    assert(t5 * s0 == (5832) * mn(p, 4, 3, 5, 2, 0, 0, 0));
    lemma_tm(p, 324, 2, 2, 4, 2, 0, 0, 0, 2, 1, 3, 0, 0, 0, 0, 0);
    assert(t5 * s1 == (648) * mn(p, 3, 5, 4, 2, 0, 0, 0));
    lemma_tm(p, 324, 2, 2, 4, 2, 0, 0, 0, -18, 1, 1, 2, 1, 0, 0, 0);
    assert(t5 * s2 == (-5832) * mn(p, 3, 3, 6, 3, 0, 0, 0));
    lemma_tm(p, 324, 2, 2, 4, 2, 0, 0, 0, 18, 0, 1, 3, 0, 0, 0, 0);
    assert(t5 * s3 == (5832) * mn(p, 2, 3, 7, 2, 0, 0, 0));
    assert(t5 * q == (5832) * mn(p, 4, 3, 5, 2, 0, 0, 0) + (648) * mn(p, 3, 5, 4, 2, 0, 0, 0) + (-5832) * mn(p, 3, 3, 6, 3, 0, 0, 0) + (5832) * mn(p, 2, 3, 7, 2, 0, 0, 0));
    lemma_tm(p, 648, 2, 2, 4, 0, 0, 0, 0, 18, 2, 1, 1, 0, 0, 0, 0);
    assert(t6 * s0 == (11664) * mn(p, 4, 3, 5, 0, 0, 0, 0));
    lemma_tm(p, 648, 2, 2, 4, 0, 0, 0, 0, 2, 1, 3, 0, 0, 0, 0, 0);
    assert(t6 * s1 == (1296) * mn(p, 3, 5, 4, 0, 0, 0, 0));
    lemma_tm(p, 648, 2, 2, 4, 0, 0, 0, 0, -18, 1, 1, 2, 1, 0, 0, 0);
    assert(t6 * s2 == (-11664) * mn(p, 3, 3, 6, 1, 0, 0, 0));
    lemma_tm(p, 648, 2, 2, 4, 0, 0, 0, 0, 18, 0, 1, 3, 0, 0, 0, 0);
    assert(t6 * s3 == (11664) * mn(p, 2, 3, 7, 0, 0, 0, 0));
    assert(t6 * q == (11664) * mn(p, 4, 3, 5, 0, 0, 0, 0) + (1296) * mn(p, 3, 5, 4, 0, 0, 0, 0) + (-11664) * mn(p, 3, 3, 6, 1, 0, 0, 0) + (11664) * mn(p, 2, 3, 7, 0, 0, 0, 0));
    lemma_tm(p, 72, 1, 4, 3, 0, 0, 0, 0, 18, 2, 1, 1, 0, 0, 0, 0);
    assert(t7 * s0 == (1296) * mn(p, 3, 5, 4, 0, 0, 0, 0));
    lemma_tm(p, 72, 1, 4, 3, 0, 0, 0, 0, 2, 1, 3, 0, 0, 0, 0, 0);
    assert(t7 * s1 == (144) * mn(p, 2, 7, 3, 0, 0, 0, 0));
    lemma_tm(p, 72, 1, 4, 3, 0, 0, 0, 0, -18, 1, 1, 2, 1, 0, 0, 0);
    assert(t7 * s2 == (-1296) * mn(p, 2, 5, 5, 1, 0, 0, 0));
    lemma_tm(p, 72, 1, 4, 3, 0, 0, 0, 0, 18, 0, 1, 3, 0, 0, 0, 0);
    assert(t7 * s3 == (1296) * mn(p, 1, 5, 6, 0, 0, 0, 0));
    assert(t7 * q == (1296) * mn(p, 3, 5, 4, 0, 0, 0, 0) + (144) * mn(p, 2, 7, 3, 0, 0, 0, 0) + (-1296) * mn(p, 2, 5, 5, 1, 0, 0, 0) + (1296) * mn(p, 1, 5, 6, 0, 0, 0, 0));
    lemma_tm(p, -648, 1, 2, 5, 1, 0, 0, 0, 18, 2, 1, 1, 0, 0, 0, 0);
    assert(t8 * s0 == (-11664) * mn(p, 3, 3, 6, 1, 0, 0, 0));
    lemma_tm(p, -648, 1, 2, 5, 1, 0, 0, 0, 2, 1, 3, 0, 0, 0, 0, 0);
    assert(t8 * s1 == (-1296) * mn(p, 2, 5, 5, 1, 0, 0, 0));
    lemma_tm(p, -648, 1, 2, 5, 1, 0, 0, 0, -18, 1, 1, 2, 1, 0, 0, 0);
    assert(t8 * s2 == (11664) * mn(p, 2, 3, 7, 2, 0, 0, 0));
    lemma_tm(p, -648, 1, 2, 5, 1, 0, 0, 0, 18, 0, 1, 3, 0, 0, 0, 0);
    assert(t8 * s3 == (-11664) * mn(p, 1, 3, 8, 1, 0, 0, 0));
    assert(t8 * q == (-11664) * mn(p, 3, 3, 6, 1, 0, 0, 0) + (-1296) * mn(p, 2, 5, 5, 1, 0, 0, 0) + (11664) * mn(p, 2, 3, 7, 2, 0, 0, 0) + (-11664) * mn(p, 1, 3, 8, 1, 0, 0, 0));
    lemma_tm(p, 324, 0, 2, 6, 0, 0, 0, 0, 18, 2, 1, 1, 0, 0, 0, 0);
    assert(t9 * s0 == (5832) * mn(p, 2, 3, 7, 0, 0, 0, 0));
    lemma_tm(p, 324, 0, 2, 6, 0, 0, 0, 0, 2, 1, 3, 0, 0, 0, 0, 0);
    assert(t9 * s1 == (648) * mn(p, 1, 5, 6, 0, 0, 0, 0));
    lemma_tm(p, 324, 0, 2, 6, 0, 0, 0, 0, -18, 1, 1, 2, 1, 0, 0, 0);
    assert(t9 * s2 == (-5832) * mn(p, 1, 3, 8, 1, 0, 0, 0));
    lemma_tm(p, 324, 0, 2, 6, 0, 0, 0, 0, 18, 0, 1, 3, 0, 0, 0, 0);
    assert(t9 * s3 == (5832) * mn(p, 0, 3, 9, 0, 0, 0, 0));
    assert(t9 * q == (5832) * mn(p, 2, 3, 7, 0, 0, 0, 0) + (648) * mn(p, 1, 5, 6, 0, 0, 0, 0) + (-5832) * mn(p, 1, 3, 8, 1, 0, 0, 0) + (5832) * mn(p, 0, 3, 9, 0, 0, 0, 0));
    assert(pp9 * q == (5832) * mn(p, 6, 3, 3, 0, 0, 0, 0) + (1944) * mn(p, 5, 5, 2, 0, 0, 0, 0) + (-17496) * mn(p, 5, 3, 4, 1, 0, 0, 0) + (216) * mn(p, 4, 7, 1, 0, 0, 0, 0) + (-3888) * mn(p, 4, 5, 3, 1, 0, 0, 0) + (17496) * mn(p, 4, 3, 5, 2, 0, 0, 0) + (17496) * mn(p, 4, 3, 5, 0, 0, 0, 0) + (8) * mn(p, 3, 9, 0, 0, 0, 0, 0) + (-216) * mn(p, 3, 7, 2, 1, 0, 0, 0) + (1944) * mn(p, 3, 5, 4, 2, 0, 0, 0) + (3888) * mn(p, 3, 5, 4, 0, 0, 0, 0) + (-5832) * mn(p, 3, 3, 6, 3, 0, 0, 0) + (-34992) * mn(p, 3, 3, 6, 1, 0, 0, 0) + (216) * mn(p, 2, 7, 3, 0, 0, 0, 0) + (-3888) * mn(p, 2, 5, 5, 1, 0, 0, 0) + (17496) * mn(p, 2, 3, 7, 2, 0, 0, 0) + (17496) * mn(p, 2, 3, 7, 0, 0, 0, 0) + (1944) * mn(p, 1, 5, 6, 0, 0, 0, 0) + (-17496) * mn(p, 1, 3, 8, 1, 0, 0, 0) + (5832) * mn(p, 0, 3, 9, 0, 0, 0, 0));
}

#[verifier::rlimit(100)]
proof fn dc_prod17(p: Pt)
    ensures
        ((18) * mn(p, 2, 1, 1, 0, 0, 0, 0) + (2) * mn(p, 1, 3, 0, 0, 0, 0, 0) + (-18) * mn(p, 1, 1, 2, 1, 0, 0, 0) + (18) * mn(p, 0, 1, 3, 0, 0, 0, 0)) * ((8) * mn(p, 0, 3, 1, 0, 0, 0, 0)) == (144) * mn(p, 2, 4, 2, 0, 0, 0, 0) + (16) * mn(p, 1, 6, 1, 0, 0, 0, 0) + (-144) * mn(p, 1, 4, 3, 1, 0, 0, 0) + (144) * mn(p, 0, 4, 4, 0, 0, 0, 0),
{
    let t0 = (18) * mn(p, 2, 1, 1, 0, 0, 0, 0);
    let t1 = (2) * mn(p, 1, 3, 0, 0, 0, 0, 0);
    let t2 = (-18) * mn(p, 1, 1, 2, 1, 0, 0, 0);
    let t3 = (18) * mn(p, 0, 1, 3, 0, 0, 0, 0);
    let s0 = (8) * mn(p, 0, 3, 1, 0, 0, 0, 0);
    let pp0 = t0;
    let pp1 = pp0 + t1;
    let pp2 = pp1 + t2;
    let pp3 = pp2 + t3;
    let qq0 = s0;
    let q = qq0;
    lemma_mul_is_distributive_add_other_way(q, pp0, t1);
    lemma_mul_is_distributive_add_other_way(q, pp1, t2);
    lemma_mul_is_distributive_add_other_way(q, pp2, t3);
    lemma_tm(p, 18, 2, 1, 1, 0, 0, 0, 0, 8, 0, 3, 1, 0, 0, 0, 0);
    assert(t0 * s0 == (144) * mn(p, 2, 4, 2, 0, 0, 0, 0));
    assert(t0 * q == (144) * mn(p, 2, 4, 2, 0, 0, 0, 0));
    lemma_tm(p, 2, 1, 3, 0, 0, 0, 0, 0, 8, 0, 3, 1, 0, 0, 0, 0);
    assert(t1 * s0 == (16) * mn(p, 1, 6, 1, 0, 0, 0, 0));
    assert(t1 * q == (16) * mn(p, 1, 6, 1, 0, 0, 0, 0));
    lemma_tm(p, -18, 1, 1, 2, 1, 0, 0, 0, 8, 0, 3, 1, 0, 0, 0, 0);
    assert(t2 * s0 == (-144) * mn(p, 1, 4, 3, 1, 0, 0, 0));
    assert(t2 * q == (-144) * mn(p, 1, 4, 3, 1, 0, 0, 0));
    lemma_tm(p, 18, 0, 1, 3, 0, 0, 0, 0, 8, 0, 3, 1, 0, 0, 0, 0);
    assert(t3 * s0 == (144) * mn(p, 0, 4, 4, 0, 0, 0, 0));
    assert(t3 * q == (144) * mn(p, 0, 4, 4, 0, 0, 0, 0));
    assert(pp3 * q == (144) * mn(p, 2, 4, 2, 0, 0, 0, 0) + (16) * mn(p, 1, 6, 1, 0, 0, 0, 0) + (-144) * mn(p, 1, 4, 3, 1, 0, 0, 0) + (144) * mn(p, 0, 4, 4, 0, 0, 0, 0));
}

#[verifier::rlimit(100)]
proof fn dc_prod18(p: Pt)
    ensures
        ((144) * mn(p, 2, 4, 2, 0, 0, 0, 0) + (16) * mn(p, 1, 6, 1, 0, 0, 0, 0) + (-144) * mn(p, 1, 4, 3, 1, 0, 0, 0) + (144) * mn(p, 0, 4, 4, 0, 0, 0, 0)) * ((8) * mn(p, 0, 3, 1, 0, 0, 0, 0)) == (1152) * mn(p, 2, 7, 3, 0, 0, 0, 0) + (128) * mn(p, 1, 9, 2, 0, 0, 0, 0) + (-1152) * mn(p, 1, 7, 4, 1, 0, 0, 0) + (1152) * mn(p, 0, 7, 5, 0, 0, 0, 0),
{
    let t0 = (144) * mn(p, 2, 4, 2, 0, 0, 0, 0);
    let t1 = (16) * mn(p, 1, 6, 1, 0, 0, 0, 0);
    let t2 = (-144) * mn(p, 1, 4, 3, 1, 0, 0, 0);
    let t3 = (144) * mn(p, 0, 4, 4, 0, 0, 0, 0);
    let s0 = (8) * mn(p, 0, 3, 1, 0, 0, 0, 0);
    let pp0 = t0;
    let pp1 = pp0 + t1;
    let pp2 = pp1 + t2;
    let pp3 = pp2 + t3;
    let qq0 = s0;
    let q = qq0;
    lemma_mul_is_distributive_add_other_way(q, pp0, t1);
    lemma_mul_is_distributive_add_other_way(q, pp1, t2);
    lemma_mul_is_distributive_add_other_way(q, pp2, t3);
    lemma_tm(p, 144, 2, 4, 2, 0, 0, 0, 0, 8, 0, 3, 1, 0, 0, 0, 0);
    assert(t0 * s0 == (1152) * mn(p, 2, 7, 3, 0, 0, 0, 0));
    assert(t0 * q == (1152) * mn(p, 2, 7, 3, 0, 0, 0, 0));
    lemma_tm(p, 16, 1, 6, 1, 0, 0, 0, 0, 8, 0, 3, 1, 0, 0, 0, 0);
    assert(t1 * s0 == (128) * mn(p, 1, 9, 2, 0, 0, 0, 0));
    assert(t1 * q == (128) * mn(p, 1, 9, 2, 0, 0, 0, 0));
    lemma_tm(p, -144, 1, 4, 3, 1, 0, 0, 0, 8, 0, 3, 1, 0, 0, 0, 0);
    assert(t2 * s0 == (-1152) * mn(p, 1, 7, 4, 1, 0, 0, 0));
    assert(t2 * q == (-1152) * mn(p, 1, 7, 4, 1, 0, 0, 0));
    lemma_tm(p, 144, 0, 4, 4, 0, 0, 0, 0, 8, 0, 3, 1, 0, 0, 0, 0);
    assert(t3 * s0 == (1152) * mn(p, 0, 7, 5, 0, 0, 0, 0));
    assert(t3 * q == (1152) * mn(p, 0, 7, 5, 0, 0, 0, 0));
    assert(pp3 * q == (1152) * mn(p, 2, 7, 3, 0, 0, 0, 0) + (128) * mn(p, 1, 9, 2, 0, 0, 0, 0) + (-1152) * mn(p, 1, 7, 4, 1, 0, 0, 0) + (1152) * mn(p, 0, 7, 5, 0, 0, 0, 0));
}

#[verifier::rlimit(100)]
proof fn dc_prod19(p: Pt)
    ensures
        ((8) * mn(p, 0, 3, 1, 0, 0, 0, 0)) * ((8) * mn(p, 0, 3, 1, 0, 0, 0, 0)) == (64) * mn(p, 0, 6, 2, 0, 0, 0, 0),
{
    let t0 = (8) * mn(p, 0, 3, 1, 0, 0, 0, 0);
    let s0 = (8) * mn(p, 0, 3, 1, 0, 0, 0, 0);
    let pp0 = t0;
    let qq0 = s0;
    let q = qq0;
    lemma_tm(p, 8, 0, 3, 1, 0, 0, 0, 0, 8, 0, 3, 1, 0, 0, 0, 0);
    assert(t0 * s0 == (64) * mn(p, 0, 6, 2, 0, 0, 0, 0));
    assert(t0 * q == (64) * mn(p, 0, 6, 2, 0, 0, 0, 0));
    assert(pp0 * q == (64) * mn(p, 0, 6, 2, 0, 0, 0, 0));
}

#[verifier::rlimit(100)]
proof fn dc_prod20(p: Pt)
    ensures
        ((64) * mn(p, 0, 6, 2, 0, 0, 0, 0)) * ((8) * mn(p, 0, 3, 1, 0, 0, 0, 0)) == (512) * mn(p, 0, 9, 3, 0, 0, 0, 0),
{
    let t0 = (64) * mn(p, 0, 6, 2, 0, 0, 0, 0);
    let s0 = (8) * mn(p, 0, 3, 1, 0, 0, 0, 0);
    let pp0 = t0;
    let qq0 = s0;
    let q = qq0;
    lemma_tm(p, 64, 0, 6, 2, 0, 0, 0, 0, 8, 0, 3, 1, 0, 0, 0, 0);
    assert(t0 * s0 == (512) * mn(p, 0, 9, 3, 0, 0, 0, 0));
    assert(t0 * q == (512) * mn(p, 0, 9, 3, 0, 0, 0, 0));
    assert(pp0 * q == (512) * mn(p, 0, 9, 3, 0, 0, 0, 0));
}

#[verifier::rlimit(100)]
proof fn dc_prod21(p: Pt)
    ensures
        ((1) * mn(p, 0, 0, 0, 1, 0, 0, 0)) * ((512) * mn(p, 0, 9, 3, 0, 0, 0, 0)) == (512) * mn(p, 0, 9, 3, 1, 0, 0, 0),
{
    let t0 = (1) * mn(p, 0, 0, 0, 1, 0, 0, 0);
    let s0 = (512) * mn(p, 0, 9, 3, 0, 0, 0, 0);
    let pp0 = t0;
    let qq0 = s0;
    let q = qq0;
    lemma_tm(p, 1, 0, 0, 0, 1, 0, 0, 0, 512, 0, 9, 3, 0, 0, 0, 0);
    assert(t0 * s0 == (512) * mn(p, 0, 9, 3, 1, 0, 0, 0));
    assert(t0 * q == (512) * mn(p, 0, 9, 3, 1, 0, 0, 0));
    assert(pp0 * q == (512) * mn(p, 0, 9, 3, 1, 0, 0, 0));
}

#[verifier::rlimit(100)]
proof fn dc_prod22(p: Pt)
    ensures
        ((1) * mn(p, 0, 2, 0, 0, 0, 0, 0)) * ((1) * mn(p, 0, 0, 1, 0, 0, 0, 0)) == (1) * mn(p, 0, 2, 1, 0, 0, 0, 0),
{
    let t0 = (1) * mn(p, 0, 2, 0, 0, 0, 0, 0);
    let s0 = (1) * mn(p, 0, 0, 1, 0, 0, 0, 0);
    let pp0 = t0;
    let qq0 = s0;
    let q = qq0;
    lemma_tm(p, 1, 0, 2, 0, 0, 0, 0, 0, 1, 0, 0, 1, 0, 0, 0, 0);
    assert(t0 * s0 == (1) * mn(p, 0, 2, 1, 0, 0, 0, 0));
    assert(t0 * q == (1) * mn(p, 0, 2, 1, 0, 0, 0, 0));
    assert(pp0 * q == (1) * mn(p, 0, 2, 1, 0, 0, 0, 0));
}

#[verifier::rlimit(100)]
proof fn dc_prod23(p: Pt)
    ensures
        ((1) * mn(p, 2, 0, 0, 0, 0, 0, 0)) * ((1) * mn(p, 1, 0, 0, 0, 0, 0, 0)) == (1) * mn(p, 3, 0, 0, 0, 0, 0, 0),
{
    let t0 = (1) * mn(p, 2, 0, 0, 0, 0, 0, 0);
    let s0 = (1) * mn(p, 1, 0, 0, 0, 0, 0, 0);
    let pp0 = t0;
    let qq0 = s0;
    let q = qq0;
    lemma_tm(p, 1, 2, 0, 0, 0, 0, 0, 0, 1, 1, 0, 0, 0, 0, 0, 0);
    assert(t0 * s0 == (1) * mn(p, 3, 0, 0, 0, 0, 0, 0));
    assert(t0 * q == (1) * mn(p, 3, 0, 0, 0, 0, 0, 0));
    assert(pp0 * q == (1) * mn(p, 3, 0, 0, 0, 0, 0, 0));
}

#[verifier::rlimit(100)]
proof fn dc_prod24(p: Pt)
    ensures
        ((1) * mn(p, 1, 0, 1, 0, 0, 0, 0)) * ((1) * mn(p, 0, 0, 1, 0, 0, 0, 0)) == (1) * mn(p, 1, 0, 2, 0, 0, 0, 0),
{
    let t0 = (1) * mn(p, 1, 0, 1, 0, 0, 0, 0);
    let s0 = (1) * mn(p, 0, 0, 1, 0, 0, 0, 0);
    let pp0 = t0;
    let qq0 = s0;
    let q = qq0;
    lemma_tm(p, 1, 1, 0, 1, 0, 0, 0, 0, 1, 0, 0, 1, 0, 0, 0, 0);
    assert(t0 * s0 == (1) * mn(p, 1, 0, 2, 0, 0, 0, 0));
    assert(t0 * q == (1) * mn(p, 1, 0, 2, 0, 0, 0, 0));
    assert(pp0 * q == (1) * mn(p, 1, 0, 2, 0, 0, 0, 0));
}

#[verifier::rlimit(100)]
proof fn dc_prod25(p: Pt)
    ensures
        ((1) * mn(p, 0, 0, 2, 0, 0, 0, 0)) * ((1) * mn(p, 0, 0, 1, 0, 0, 0, 0)) == (1) * mn(p, 0, 0, 3, 0, 0, 0, 0),
{
    let t0 = (1) * mn(p, 0, 0, 2, 0, 0, 0, 0);
    let s0 = (1) * mn(p, 0, 0, 1, 0, 0, 0, 0);
    let pp0 = t0;
    let qq0 = s0;
    let q = qq0;
    lemma_tm(p, 1, 0, 0, 2, 0, 0, 0, 0, 1, 0, 0, 1, 0, 0, 0, 0);
    assert(t0 * s0 == (1) * mn(p, 0, 0, 3, 0, 0, 0, 0));
    assert(t0 * q == (1) * mn(p, 0, 0, 3, 0, 0, 0, 0));
    assert(pp0 * q == (1) * mn(p, 0, 0, 3, 0, 0, 0, 0));
}

#[verifier::rlimit(100)]
proof fn dc_prod26(p: Pt)
    ensures
        ((1) * mn(p, 0, 0, 0, 1, 0, 0, 0)) * ((1) * mn(p, 0, 0, 3, 0, 0, 0, 0)) == (1) * mn(p, 0, 0, 3, 1, 0, 0, 0),
{
    let t0 = (1) * mn(p, 0, 0, 0, 1, 0, 0, 0);
    let s0 = (1) * mn(p, 0, 0, 3, 0, 0, 0, 0);
    let pp0 = t0;
    let qq0 = s0;
    let q = qq0;
    lemma_tm(p, 1, 0, 0, 0, 1, 0, 0, 0, 1, 0, 0, 3, 0, 0, 0, 0);
    assert(t0 * s0 == (1) * mn(p, 0, 0, 3, 1, 0, 0, 0));
    assert(t0 * q == (1) * mn(p, 0, 0, 3, 1, 0, 0, 0));
    assert(pp0 * q == (1) * mn(p, 0, 0, 3, 1, 0, 0, 0));
}

#[verifier::rlimit(100)]
proof fn dc_prod27(p: Pt)
    ensures
        ((-648) * mn(p, 5, 3, 1, 0, 0, 0, 0) + (2592) * mn(p, 4, 3, 2, 1, 0, 0, 0) + (-2592) * mn(p, 3, 3, 3, 2, 0, 0, 0) + (-3888) * mn(p, 3, 3, 3, 0, 0, 0, 0) + (1296) * mn(p, 2, 5, 2, 0, 0, 0, 0) + (9072) * mn(p, 2, 3, 4, 1, 0, 0, 0) + (360) * mn(p, 1, 7, 1, 0, 0, 0, 0) + (-1296) * mn(p, 1, 5, 3, 1, 0, 0, 0) + (648) * mn(p, 1, 3, 5, 2, 0, 0, 0) + (-13608) * mn(p, 1, 3, 5, 0, 0, 0, 0) + (8) * mn(p, 0, 9, 0, 0, 0, 0, 0) + (-504) * mn(p, 0, 7, 2, 1, 0, 0, 0) + (-648) * mn(p, 0, 5, 4, 2, 0, 0, 0) + (3888) * mn(p, 0, 5, 4, 0, 0, 0, 0) + (-648) * mn(p, 0, 3, 6, 3, 0, 0, 0) + (3888) * mn(p, 0, 3, 6, 1, 0, 0, 0)) * ((-1) * mn(p, 3, 0, 0, 0, 0, 0, 0) + (3) * mn(p, 1, 0, 2, 0, 0, 0, 0) + (1) * mn(p, 0, 2, 1, 0, 0, 0, 0) + (-1) * mn(p, 0, 0, 3, 1, 0, 0, 0)) == (648) * mn(p, 8, 3, 1, 0, 0, 0, 0) + (-2592) * mn(p, 7, 3, 2, 1, 0, 0, 0) + (2592) * mn(p, 6, 3, 3, 2, 0, 0, 0) + (1944) * mn(p, 6, 3, 3, 0, 0, 0, 0) + (-1944) * mn(p, 5, 5, 2, 0, 0, 0, 0) + (-648) * mn(p, 5, 3, 4, 1, 0, 0, 0) + (-360) * mn(p, 4, 7, 1, 0, 0, 0, 0) + (3888) * mn(p, 4, 5, 3, 1, 0, 0, 0) + (-11016) * mn(p, 4, 3, 5, 2, 0, 0, 0) + (1944) * mn(p, 4, 3, 5, 0, 0, 0, 0) + (-8) * mn(p, 3, 9, 0, 0, 0, 0, 0) + (504) * mn(p, 3, 7, 2, 1, 0, 0, 0) + (-1944) * mn(p, 3, 5, 4, 2, 0, 0, 0) + (-3888) * mn(p, 3, 5, 4, 0, 0, 0, 0) + (3240) * mn(p, 3, 3, 6, 3, 0, 0, 0) + (27216) * mn(p, 3, 3, 6, 1, 0, 0, 0) + (2376) * mn(p, 2, 7, 3, 0, 0, 0, 0) + (3888) * mn(p, 2, 5, 5, 1, 0, 0, 0) + (-7128) * mn(p, 2, 3, 7, 2, 0, 0, 0) + (-40824) * mn(p, 2, 3, 7, 0, 0, 0, 0) + (384) * mn(p, 1, 9, 2, 0, 0, 0, 0) + (-3168) * mn(p, 1, 7, 4, 1, 0, 0, 0) + (-1944) * mn(p, 1, 5, 6, 0, 0, 0, 0) + (-2592) * mn(p, 1, 3, 8, 3, 0, 0, 0) + (25272) * mn(p, 1, 3, 8, 1, 0, 0, 0) + (8) * mn(p, 0, 11, 1, 0, 0, 0, 0) + (-512) * mn(p, 0, 9, 3, 1, 0, 0, 0) + (-144) * mn(p, 0, 7, 5, 2, 0, 0, 0) + (3888) * mn(p, 0, 7, 5, 0, 0, 0, 0) + (648) * mn(p, 0, 3, 9, 4, 0, 0, 0) + (-3888) * mn(p, 0, 3, 9, 2, 0, 0, 0),
{
    let t0 = (-648) * mn(p, 5, 3, 1, 0, 0, 0, 0);
    let t1 = (2592) * mn(p, 4, 3, 2, 1, 0, 0, 0);
    let t2 = (-2592) * mn(p, 3, 3, 3, 2, 0, 0, 0);
    let t3 = (-3888) * mn(p, 3, 3, 3, 0, 0, 0, 0);
    let t4 = (1296) * mn(p, 2, 5, 2, 0, 0, 0, 0);
    let t5 = (9072) * mn(p, 2, 3, 4, 1, 0, 0, 0);
    let t6 = (360) * mn(p, 1, 7, 1, 0, 0, 0, 0);
    let t7 = (-1296) * mn(p, 1, 5, 3, 1, 0, 0, 0);
    let t8 = (648) * mn(p, 1, 3, 5, 2, 0, 0, 0);
    let t9 = (-13608) * mn(p, 1, 3, 5, 0, 0, 0, 0);
    let t10 = (8) * mn(p, 0, 9, 0, 0, 0, 0, 0);
    let t11 = (-504) * mn(p, 0, 7, 2, 1, 0, 0, 0);
    let t12 = (-648) * mn(p, 0, 5, 4, 2, 0, 0, 0);
    let t13 = (3888) * mn(p, 0, 5, 4, 0, 0, 0, 0);
    let t14 = (-648) * mn(p, 0, 3, 6, 3, 0, 0, 0);
    let t15 = (3888) * mn(p, 0, 3, 6, 1, 0, 0, 0);
    let s0 = (-1) * mn(p, 3, 0, 0, 0, 0, 0, 0);
    let s1 = (3) * mn(p, 1, 0, 2, 0, 0, 0, 0);
    let s2 = (1) * mn(p, 0, 2, 1, 0, 0, 0, 0);
    let s3 = (-1) * mn(p, 0, 0, 3, 1, 0, 0, 0);
    let pp0 = t0;
    let pp1 = pp0 + t1;
    let pp2 = pp1 + t2;
    let pp3 = pp2 + t3;
    let pp4 = pp3 + t4;
    let pp5 = pp4 + t5;
    let pp6 = pp5 + t6;
    let pp7 = pp6 + t7;
    let pp8 = pp7 + t8;
    let pp9 = pp8 + t9;
    let pp10 = pp9 + t10;
    let pp11 = pp10 + t11;
    let pp12 = pp11 + t12;
    let pp13 = pp12 + t13;
    let pp14 = pp13 + t14;
    let pp15 = pp14 + t15;
    let qq0 = s0;
    let qq1 = qq0 + s1;
    let qq2 = qq1 + s2;
    let qq3 = qq2 + s3;
    let q = qq3;
    lemma_mul_is_distributive_add_other_way(q, pp0, t1);
    lemma_mul_is_distributive_add_other_way(q, pp1, t2);
    lemma_mul_is_distributive_add_other_way(q, pp2, t3);
    lemma_mul_is_distributive_add_other_way(q, pp3, t4);
    lemma_mul_is_distributive_add_other_way(q, pp4, t5);
    lemma_mul_is_distributive_add_other_way(q, pp5, t6);
    lemma_mul_is_distributive_add_other_way(q, pp6, t7);
    lemma_mul_is_distributive_add_other_way(q, pp7, t8);
    lemma_mul_is_distributive_add_other_way(q, pp8, t9);
    lemma_mul_is_distributive_add_other_way(q, pp9, t10);
    lemma_mul_is_distributive_add_other_way(q, pp10, t11);
    lemma_mul_is_distributive_add_other_way(q, pp11, t12);
    lemma_mul_is_distributive_add_other_way(q, pp12, t13);
    lemma_mul_is_distributive_add_other_way(q, pp13, t14);
    lemma_mul_is_distributive_add_other_way(q, pp14, t15);
    lemma_mul_is_distributive_add(t0, qq0, s1);
    lemma_mul_is_distributive_add(t0, qq1, s2);
    lemma_mul_is_distributive_add(t0, qq2, s3);
    lemma_mul_is_distributive_add(t1, qq0, s1);
    lemma_mul_is_distributive_add(t1, qq1, s2);
    lemma_mul_is_distributive_add(t1, qq2, s3);
    lemma_mul_is_distributive_add(t2, qq0, s1);
    lemma_mul_is_distributive_add(t2, qq1, s2);
    lemma_mul_is_distributive_add(t2, qq2, s3);
    lemma_mul_is_distributive_add(t3, qq0, s1);
    lemma_mul_is_distributive_add(t3, qq1, s2);
    lemma_mul_is_distributive_add(t3, qq2, s3);
    lemma_mul_is_distributive_add(t4, qq0, s1);
    lemma_mul_is_distributive_add(t4, qq1, s2);
    lemma_mul_is_distributive_add(t4, qq2, s3);
    lemma_mul_is_distributive_add(t5, qq0, s1);
    lemma_mul_is_distributive_add(t5, qq1, s2);
    lemma_mul_is_distributive_add(t5, qq2, s3);
    lemma_mul_is_distributive_add(t6, qq0, s1);
    lemma_mul_is_distributive_add(t6, qq1, s2);
    lemma_mul_is_distributive_add(t6, qq2, s3);
    lemma_mul_is_distributive_add(t7, qq0, s1);
    lemma_mul_is_distributive_add(t7, qq1, s2);
    lemma_mul_is_distributive_add(t7, qq2, s3);
    lemma_mul_is_distributive_add(t8, qq0, s1);
    lemma_mul_is_distributive_add(t8, qq1, s2);
    lemma_mul_is_distributive_add(t8, qq2, s3);
    lemma_mul_is_distributive_add(t9, qq0, s1);
    lemma_mul_is_distributive_add(t9, qq1, s2);
    lemma_mul_is_distributive_add(t9, qq2, s3);
    lemma_mul_is_distributive_add(t10, qq0, s1);
    lemma_mul_is_distributive_add(t10, qq1, s2);
    lemma_mul_is_distributive_add(t10, qq2, s3);
    lemma_mul_is_distributive_add(t11, qq0, s1);
    lemma_mul_is_distributive_add(t11, qq1, s2);
    lemma_mul_is_distributive_add(t11, qq2, s3);
    lemma_mul_is_distributive_add(t12, qq0, s1);
    lemma_mul_is_distributive_add(t12, qq1, s2);
    lemma_mul_is_distributive_add(t12, qq2, s3);
    lemma_mul_is_distributive_add(t13, qq0, s1);
    lemma_mul_is_distributive_add(t13, qq1, s2);
    lemma_mul_is_distributive_add(t13, qq2, s3);
    lemma_mul_is_distributive_add(t14, qq0, s1);
    lemma_mul_is_distributive_add(t14, qq1, s2);
    lemma_mul_is_distributive_add(t14, qq2, s3);
    lemma_mul_is_distributive_add(t15, qq0, s1);
    lemma_mul_is_distributive_add(t15, qq1, s2);
    lemma_mul_is_distributive_add(t15, qq2, s3);
    lemma_tm(p, -648, 5, 3, 1, 0, 0, 0, 0, -1, 3, 0, 0, 0, 0, 0, 0);
    assert(t0 * s0 == (648) * mn(p, 8, 3, 1, 0, 0, 0, 0));
    lemma_tm(p, -648, 5, 3, 1, 0, 0, 0, 0, 3, 1, 0, 2, 0, 0, 0, 0);
    assert(t0 * s1 == (-1944) * mn(p, 6, 3, 3, 0, 0, 0, 0));
    lemma_tm(p, -648, 5, 3, 1, 0, 0, 0, 0, 1, 0, 2, 1, 0, 0, 0, 0);
    assert(t0 * s2 == (-648) * mn(p, 5, 5, 2, 0, 0, 0, 0));
    lemma_tm(p, -648, 5, 3, 1, 0, 0, 0, 0, -1, 0, 0, 3, 1, 0, 0, 0);
    assert(t0 * s3 == (648) * mn(p, 5, 3, 4, 1, 0, 0, 0));
    assert(t0 * q == (648) * mn(p, 8, 3, 1, 0, 0, 0, 0) + (-1944) * mn(p, 6, 3, 3, 0, 0, 0, 0) + (-648) * mn(p, 5, 5, 2, 0, 0, 0, 0) + (648) * mn(p, 5, 3, 4, 1, 0, 0, 0));
    lemma_tm(p, 2592, 4, 3, 2, 1, 0, 0, 0, -1, 3, 0, 0, 0, 0, 0, 0);
    assert(t1 * s0 == (-2592) * mn(p, 7, 3, 2, 1, 0, 0, 0));
    lemma_tm(p, 2592, 4, 3, 2, 1, 0, 0, 0, 3, 1, 0, 2, 0, 0, 0, 0);
    assert(t1 * s1 == (7776) * mn(p, 5, 3, 4, 1, 0, 0, 0));
    lemma_tm(p, 2592, 4, 3, 2, 1, 0, 0, 0, 1, 0, 2, 1, 0, 0, 0, 0);
    assert(t1 * s2 == (2592) * mn(p, 4, 5, 3, 1, 0, 0, 0));
    lemma_tm(p, 2592, 4, 3, 2, 1, 0, 0, 0, -1, 0, 0, 3, 1, 0, 0, 0);
    assert(t1 * s3 == (-2592) * mn(p, 4, 3, 5, 2, 0, 0, 0));
    assert(t1 * q == (-2592) * mn(p, 7, 3, 2, 1, 0, 0, 0) + (7776) * mn(p, 5, 3, 4, 1, 0, 0, 0) + (2592) * mn(p, 4, 5, 3, 1, 0, 0, 0) + (-2592) * mn(p, 4, 3, 5, 2, 0, 0, 0));
    lemma_tm(p, -2592, 3, 3, 3, 2, 0, 0, 0, -1, 3, 0, 0, 0, 0, 0, 0);
    assert(t2 * s0 == (2592) * mn(p, 6, 3, 3, 2, 0, 0, 0));
    lemma_tm(p, -2592, 3, 3, 3, 2, 0, 0, 0, 3, 1, 0, 2, 0, 0, 0, 0);
    assert(t2 * s1 == (-7776) * mn(p, 4, 3, 5, 2, 0, 0, 0));
    lemma_tm(p, -2592, 3, 3, 3, 2, 0, 0, 0, 1, 0, 2, 1, 0, 0, 0, 0);
    assert(t2 * s2 == (-2592) * mn(p, 3, 5, 4, 2, 0, 0, 0));
    lemma_tm(p, -2592, 3, 3, 3, 2, 0, 0, 0, -1, 0, 0, 3, 1, 0, 0, 0);
    assert(t2 * s3 == (2592) * mn(p, 3, 3, 6, 3, 0, 0, 0));
    assert(t2 * q == (2592) * mn(p, 6, 3, 3, 2, 0, 0, 0) + (-7776) * mn(p, 4, 3, 5, 2, 0, 0, 0) + (-2592) * mn(p, 3, 5, 4, 2, 0, 0, 0) + (2592) * mn(p, 3, 3, 6, 3, 0, 0, 0));
    lemma_tm(p, -3888, 3, 3, 3, 0, 0, 0, 0, -1, 3, 0, 0, 0, 0, 0, 0);
    assert(t3 * s0 == (3888) * mn(p, 6, 3, 3, 0, 0, 0, 0));
    lemma_tm(p, -3888, 3, 3, 3, 0, 0, 0, 0, 3, 1, 0, 2, 0, 0, 0, 0);
    assert(t3 * s1 == (-11664) * mn(p, 4, 3, 5, 0, 0, 0, 0));
    lemma_tm(p, -3888, 3, 3, 3, 0, 0, 0, 0, 1, 0, 2, 1, 0, 0, 0, 0);
    assert(t3 * s2 == (-3888) * mn(p, 3, 5, 4, 0, 0, 0, 0));
    lemma_tm(p, -3888, 3, 3, 3, 0, 0, 0, 0, -1, 0, 0, 3, 1, 0, 0, 0);
    assert(t3 * s3 == (3888) * mn(p, 3, 3, 6, 1, 0, 0, 0));
    assert(t3 * q == (3888) * mn(p, 6, 3, 3, 0, 0, 0, 0) + (-11664) * mn(p, 4, 3, 5, 0, 0, 0, 0) + (-3888) * mn(p, 3, 5, 4, 0, 0, 0, 0) + (3888) * mn(p, 3, 3, 6, 1, 0, 0, 0));
    lemma_tm(p, 1296, 2, 5, 2, 0, 0, 0, 0, -1, 3, 0, 0, 0, 0, 0, 0);
    assert(t4 * s0 == (-1296) * mn(p, 5, 5, 2, 0, 0, 0, 0));
    lemma_tm(p, 1296, 2, 5, 2, 0, 0, 0, 0, 3, 1, 0, 2, 0, 0, 0, 0);
    assert(t4 * s1 == (3888) * mn(p, 3, 5, 4, 0, 0, 0, 0));
    lemma_tm(p, 1296, 2, 5, 2, 0, 0, 0, 0, 1, 0, 2, 1, 0, 0, 0, 0);
    assert(t4 * s2 == (1296) * mn(p, 2, 7, 3, 0, 0, 0, 0));
    lemma_tm(p, 1296, 2, 5, 2, 0, 0, 0, 0, -1, 0, 0, 3, 1, 0, 0, 0);
    assert(t4 * s3 == (-1296) * mn(p, 2, 5, 5, 1, 0, 0, 0));
    assert(t4 * q == (-1296) * mn(p, 5, 5, 2, 0, 0, 0, 0) + (3888) * mn(p, 3, 5, 4, 0, 0, 0, 0) + (1296) * mn(p, 2, 7, 3, 0, 0, 0, 0) + (-1296) * mn(p, 2, 5, 5, 1, 0, 0, 0));
    lemma_tm(p, 9072, 2, 3, 4, 1, 0, 0, 0, -1, 3, 0, 0, 0, 0, 0, 0);
    assert(t5 * s0 == (-9072) * mn(p, 5, 3, 4, 1, 0, 0, 0));
    lemma_tm(p, 9072, 2, 3, 4, 1, 0, 0, 0, 3, 1, 0, 2, 0, 0, 0, 0);
    assert(t5 * s1 == (27216) * mn(p, 3, 3, 6, 1, 0, 0, 0));
    lemma_tm(p, 9072, 2, 3, 4, 1, 0, 0, 0, 1, 0, 2, 1, 0, 0, 0, 0);
    assert(t5 * s2 == (9072) * mn(p, 2, 5, 5, 1, 0, 0, 0));
    lemma_tm(p, 9072, 2, 3, 4, 1, 0, 0, 0, -1, 0, 0, 3, 1, 0, 0, 0);
    assert(t5 * s3 == (-9072) * mn(p, 2, 3, 7, 2, 0, 0, 0));
    assert(t5 * q == (-9072) * mn(p, 5, 3, 4, 1, 0, 0, 0) + (27216) * mn(p, 3, 3, 6, 1, 0, 0, 0) + (9072) * mn(p, 2, 5, 5, 1, 0, 0, 0) + (-9072) * mn(p, 2, 3, 7, 2, 0, 0, 0));
    lemma_tm(p, 360, 1, 7, 1, 0, 0, 0, 0, -1, 3, 0, 0, 0, 0, 0, 0);
    assert(t6 * s0 == (-360) * mn(p, 4, 7, 1, 0, 0, 0, 0));
    lemma_tm(p, 360, 1, 7, 1, 0, 0, 0, 0, 3, 1, 0, 2, 0, 0, 0, 0);
    assert(t6 * s1 == (1080) * mn(p, 2, 7, 3, 0, 0, 0, 0));
    lemma_tm(p, 360, 1, 7, 1, 0, 0, 0, 0, 1, 0, 2, 1, 0, 0, 0, 0);
    assert(t6 * s2 == (360) * mn(p, 1, 9, 2, 0, 0, 0, 0));
    lemma_tm(p, 360, 1, 7, 1, 0, 0, 0, 0, -1, 0, 0, 3, 1, 0, 0, 0);
    assert(t6 * s3 == (-360) * mn(p, 1, 7, 4, 1, 0, 0, 0));
    assert(t6 * q == (-360) * mn(p, 4, 7, 1, 0, 0, 0, 0) + (1080) * mn(p, 2, 7, 3, 0, 0, 0, 0) + (360) * mn(p, 1, 9, 2, 0, 0, 0, 0) + (-360) * mn(p, 1, 7, 4, 1, 0, 0, 0));
    lemma_tm(p, -1296, 1, 5, 3, 1, 0, 0, 0, -1, 3, 0, 0, 0, 0, 0, 0);
    assert(t7 * s0 == (1296) * mn(p, 4, 5, 3, 1, 0, 0, 0));
    lemma_tm(p, -1296, 1, 5, 3, 1, 0, 0, 0, 3, 1, 0, 2, 0, 0, 0, 0);
    assert(t7 * s1 == (-3888) * mn(p, 2, 5, 5, 1, 0, 0, 0));
    lemma_tm(p, -1296, 1, 5, 3, 1, 0, 0, 0, 1, 0, 2, 1, 0, 0, 0, 0);
    assert(t7 * s2 == (-1296) * mn(p, 1, 7, 4, 1, 0, 0, 0));
    lemma_tm(p, -1296, 1, 5, 3, 1, 0, 0, 0, -1, 0, 0, 3, 1, 0, 0, 0);
    assert(t7 * s3 == (1296) * mn(p, 1, 5, 6, 2, 0, 0, 0));
    assert(t7 * q == (1296) * mn(p, 4, 5, 3, 1, 0, 0, 0) + (-3888) * mn(p, 2, 5, 5, 1, 0, 0, 0) + (-1296) * mn(p, 1, 7, 4, 1, 0, 0, 0) + (1296) * mn(p, 1, 5, 6, 2, 0, 0, 0));
    lemma_tm(p, 648, 1, 3, 5, 2, 0, 0, 0, -1, 3, 0, 0, 0, 0, 0, 0);
    assert(t8 * s0 == (-648) * mn(p, 4, 3, 5, 2, 0, 0, 0));
    lemma_tm(p, 648, 1, 3, 5, 2, 0, 0, 0, 3, 1, 0, 2, 0, 0, 0, 0);
    assert(t8 * s1 == (1944) * mn(p, 2, 3, 7, 2, 0, 0, 0));
    lemma_tm(p, 648, 1, 3, 5, 2, 0, 0, 0, 1, 0, 2, 1, 0, 0, 0, 0);
    assert(t8 * s2 == (648) * mn(p, 1, 5, 6, 2, 0, 0, 0));
    lemma_tm(p, 648, 1, 3, 5, 2, 0, 0, 0, -1, 0, 0, 3, 1, 0, 0, 0);
    assert(t8 * s3 == (-648) * mn(p, 1, 3, 8, 3, 0, 0, 0));
    assert(t8 * q == (-648) * mn(p, 4, 3, 5, 2, 0, 0, 0) + (1944) * mn(p, 2, 3, 7, 2, 0, 0, 0) + (648) * mn(p, 1, 5, 6, 2, 0, 0, 0) + (-648) * mn(p, 1, 3, 8, 3, 0, 0, 0));
    lemma_tm(p, -13608, 1, 3, 5, 0, 0, 0, 0, -1, 3, 0, 0, 0, 0, 0, 0);
    assert(t9 * s0 == (13608) * mn(p, 4, 3, 5, 0, 0, 0, 0));
    lemma_tm(p, -13608, 1, 3, 5, 0, 0, 0, 0, 3, 1, 0, 2, 0, 0, 0, 0);
    assert(t9 * s1 == (-40824) * mn(p, 2, 3, 7, 0, 0, 0, 0));
    lemma_tm(p, -13608, 1, 3, 5, 0, 0, 0, 0, 1, 0, 2, 1, 0, 0, 0, 0);
    assert(t9 * s2 == (-13608) * mn(p, 1, 5, 6, 0, 0, 0, 0));
    lemma_tm(p, -13608, 1, 3, 5, 0, 0, 0, 0, -1, 0, 0, 3, 1, 0, 0, 0);
    assert(t9 * s3 == (13608) * mn(p, 1, 3, 8, 1, 0, 0, 0));
    assert(t9 * q == (13608) * mn(p, 4, 3, 5, 0, 0, 0, 0) + (-40824) * mn(p, 2, 3, 7, 0, 0, 0, 0) + (-13608) * mn(p, 1, 5, 6, 0, 0, 0, 0) + (13608) * mn(p, 1, 3, 8, 1, 0, 0, 0));
    lemma_tm(p, 8, 0, 9, 0, 0, 0, 0, 0, -1, 3, 0, 0, 0, 0, 0, 0);
    assert(t10 * s0 == (-8) * mn(p, 3, 9, 0, 0, 0, 0, 0));
    lemma_tm(p, 8, 0, 9, 0, 0, 0, 0, 0, 3, 1, 0, 2, 0, 0, 0, 0);
    assert(t10 * s1 == (24) * mn(p, 1, 9, 2, 0, 0, 0, 0));
    lemma_tm(p, 8, 0, 9, 0, 0, 0, 0, 0, 1, 0, 2, 1, 0, 0, 0, 0);
    assert(t10 * s2 == (8) * mn(p, 0, 11, 1, 0, 0, 0, 0));
    lemma_tm(p, 8, 0, 9, 0, 0, 0, 0, 0, -1, 0, 0, 3, 1, 0, 0, 0);
    assert(t10 * s3 == (-8) * mn(p, 0, 9, 3, 1, 0, 0, 0));
    assert(t10 * q == (-8) * mn(p, 3, 9, 0, 0, 0, 0, 0) + (24) * mn(p, 1, 9, 2, 0, 0, 0, 0) + (8) * mn(p, 0, 11, 1, 0, 0, 0, 0) + (-8) * mn(p, 0, 9, 3, 1, 0, 0, 0));
    lemma_tm(p, -504, 0, 7, 2, 1, 0, 0, 0, -1, 3, 0, 0, 0, 0, 0, 0);
    assert(t11 * s0 == (504) * mn(p, 3, 7, 2, 1, 0, 0, 0));
    lemma_tm(p, -504, 0, 7, 2, 1, 0, 0, 0, 3, 1, 0, 2, 0, 0, 0, 0);
    assert(t11 * s1 == (-1512) * mn(p, 1, 7, 4, 1, 0, 0, 0));
    lemma_tm(p, -504, 0, 7, 2, 1, 0, 0, 0, 1, 0, 2, 1, 0, 0, 0, 0);
    assert(t11 * s2 == (-504) * mn(p, 0, 9, 3, 1, 0, 0, 0));
    lemma_tm(p, -504, 0, 7, 2, 1, 0, 0, 0, -1, 0, 0, 3, 1, 0, 0, 0);
    assert(t11 * s3 == (504) * mn(p, 0, 7, 5, 2, 0, 0, 0));
    assert(t11 * q == (504) * mn(p, 3, 7, 2, 1, 0, 0, 0) + (-1512) * mn(p, 1, 7, 4, 1, 0, 0, 0) + (-504) * mn(p, 0, 9, 3, 1, 0, 0, 0) + (504) * mn(p, 0, 7, 5, 2, 0, 0, 0));
    lemma_tm(p, -648, 0, 5, 4, 2, 0, 0, 0, -1, 3, 0, 0, 0, 0, 0, 0);
    assert(t12 * s0 == (648) * mn(p, 3, 5, 4, 2, 0, 0, 0));
    lemma_tm(p, -648, 0, 5, 4, 2, 0, 0, 0, 3, 1, 0, 2, 0, 0, 0, 0);
    assert(t12 * s1 == (-1944) * mn(p, 1, 5, 6, 2, 0, 0, 0));
    lemma_tm(p, -648, 0, 5, 4, 2, 0, 0, 0, 1, 0, 2, 1, 0, 0, 0, 0);
    assert(t12 * s2 == (-648) * mn(p, 0, 7, 5, 2, 0, 0, 0));
    lemma_tm(p, -648, 0, 5, 4, 2, 0, 0, 0, -1, 0, 0, 3, 1, 0, 0, 0);
    assert(t12 * s3 == (648) * mn(p, 0, 5, 7, 3, 0, 0, 0));
    assert(t12 * q == (648) * mn(p, 3, 5, 4, 2, 0, 0, 0) + (-1944) * mn(p, 1, 5, 6, 2, 0, 0, 0) + (-648) * mn(p, 0, 7, 5, 2, 0, 0, 0) + (648) * mn(p, 0, 5, 7, 3, 0, 0, 0));
    lemma_tm(p, 3888, 0, 5, 4, 0, 0, 0, 0, -1, 3, 0, 0, 0, 0, 0, 0);
    assert(t13 * s0 == (-3888) * mn(p, 3, 5, 4, 0, 0, 0, 0));
    lemma_tm(p, 3888, 0, 5, 4, 0, 0, 0, 0, 3, 1, 0, 2, 0, 0, 0, 0);
    assert(t13 * s1 == (11664) * mn(p, 1, 5, 6, 0, 0, 0, 0));
    lemma_tm(p, 3888, 0, 5, 4, 0, 0, 0, 0, 1, 0, 2, 1, 0, 0, 0, 0);
    assert(t13 * s2 == (3888) * mn(p, 0, 7, 5, 0, 0, 0, 0));
    lemma_tm(p, 3888, 0, 5, 4, 0, 0, 0, 0, -1, 0, 0, 3, 1, 0, 0, 0);
    assert(t13 * s3 == (-3888) * mn(p, 0, 5, 7, 1, 0, 0, 0));
    assert(t13 * q == (-3888) * mn(p, 3, 5, 4, 0, 0, 0, 0) + (11664) * mn(p, 1, 5, 6, 0, 0, 0, 0) + (3888) * mn(p, 0, 7, 5, 0, 0, 0, 0) + (-3888) * mn(p, 0, 5, 7, 1, 0, 0, 0));
    lemma_tm(p, -648, 0, 3, 6, 3, 0, 0, 0, -1, 3, 0, 0, 0, 0, 0, 0);
    assert(t14 * s0 == (648) * mn(p, 3, 3, 6, 3, 0, 0, 0));
    lemma_tm(p, -648, 0, 3, 6, 3, 0, 0, 0, 3, 1, 0, 2, 0, 0, 0, 0);
    assert(t14 * s1 == (-1944) * mn(p, 1, 3, 8, 3, 0, 0, 0));
    lemma_tm(p, -648, 0, 3, 6, 3, 0, 0, 0, 1, 0, 2, 1, 0, 0, 0, 0);
    assert(t14 * s2 == (-648) * mn(p, 0, 5, 7, 3, 0, 0, 0));
    lemma_tm(p, -648, 0, 3, 6, 3, 0, 0, 0, -1, 0, 0, 3, 1, 0, 0, 0);
    assert(t14 * s3 == (648) * mn(p, 0, 3, 9, 4, 0, 0, 0));
    assert(t14 * q == (648) * mn(p, 3, 3, 6, 3, 0, 0, 0) + (-1944) * mn(p, 1, 3, 8, 3, 0, 0, 0) + (-648) * mn(p, 0, 5, 7, 3, 0, 0, 0) + (648) * mn(p, 0, 3, 9, 4, 0, 0, 0));
    lemma_tm(p, 3888, 0, 3, 6, 1, 0, 0, 0, -1, 3, 0, 0, 0, 0, 0, 0);
    assert(t15 * s0 == (-3888) * mn(p, 3, 3, 6, 1, 0, 0, 0));
    lemma_tm(p, 3888, 0, 3, 6, 1, 0, 0, 0, 3, 1, 0, 2, 0, 0, 0, 0);
    assert(t15 * s1 == (11664) * mn(p, 1, 3, 8, 1, 0, 0, 0));
    lemma_tm(p, 3888, 0, 3, 6, 1, 0, 0, 0, 1, 0, 2, 1, 0, 0, 0, 0);
    assert(t15 * s2 == (3888) * mn(p, 0, 5, 7, 1, 0, 0, 0));
    lemma_tm(p, 3888, 0, 3, 6, 1, 0, 0, 0, -1, 0, 0, 3, 1, 0, 0, 0);
    assert(t15 * s3 == (-3888) * mn(p, 0, 3, 9, 2, 0, 0, 0));
    assert(t15 * q == (-3888) * mn(p, 3, 3, 6, 1, 0, 0, 0) + (11664) * mn(p, 1, 3, 8, 1, 0, 0, 0) + (3888) * mn(p, 0, 5, 7, 1, 0, 0, 0) + (-3888) * mn(p, 0, 3, 9, 2, 0, 0, 0));
    assert(pp15 * q == (648) * mn(p, 8, 3, 1, 0, 0, 0, 0) + (-2592) * mn(p, 7, 3, 2, 1, 0, 0, 0) + (2592) * mn(p, 6, 3, 3, 2, 0, 0, 0) + (1944) * mn(p, 6, 3, 3, 0, 0, 0, 0) + (-1944) * mn(p, 5, 5, 2, 0, 0, 0, 0) + (-648) * mn(p, 5, 3, 4, 1, 0, 0, 0) + (-360) * mn(p, 4, 7, 1, 0, 0, 0, 0) + (3888) * mn(p, 4, 5, 3, 1, 0, 0, 0) + (-11016) * mn(p, 4, 3, 5, 2, 0, 0, 0) + (1944) * mn(p, 4, 3, 5, 0, 0, 0, 0) + (-8) * mn(p, 3, 9, 0, 0, 0, 0, 0) + (504) * mn(p, 3, 7, 2, 1, 0, 0, 0) + (-1944) * mn(p, 3, 5, 4, 2, 0, 0, 0) + (-3888) * mn(p, 3, 5, 4, 0, 0, 0, 0) + (3240) * mn(p, 3, 3, 6, 3, 0, 0, 0) + (27216) * mn(p, 3, 3, 6, 1, 0, 0, 0) + (2376) * mn(p, 2, 7, 3, 0, 0, 0, 0) + (3888) * mn(p, 2, 5, 5, 1, 0, 0, 0) + (-7128) * mn(p, 2, 3, 7, 2, 0, 0, 0) + (-40824) * mn(p, 2, 3, 7, 0, 0, 0, 0) + (384) * mn(p, 1, 9, 2, 0, 0, 0, 0) + (-3168) * mn(p, 1, 7, 4, 1, 0, 0, 0) + (-1944) * mn(p, 1, 5, 6, 0, 0, 0, 0) + (-2592) * mn(p, 1, 3, 8, 3, 0, 0, 0) + (25272) * mn(p, 1, 3, 8, 1, 0, 0, 0) + (8) * mn(p, 0, 11, 1, 0, 0, 0, 0) + (-512) * mn(p, 0, 9, 3, 1, 0, 0, 0) + (-144) * mn(p, 0, 7, 5, 2, 0, 0, 0) + (3888) * mn(p, 0, 7, 5, 0, 0, 0, 0) + (648) * mn(p, 0, 3, 9, 4, 0, 0, 0) + (-3888) * mn(p, 0, 3, 9, 2, 0, 0, 0));
}

#[verifier::rlimit(100)]
pub(crate) proof fn lemma_double_curve_identity(x: int, y: int, z: int, b: int)
    ensures
        ({
            let p = Pt { v0: x, v1: y, v2: z, v3: b, v4: 0, v5: 0, v6: 0 };
            curve_poly(rcb_double(x, y, z, b).0, rcb_double(x, y, z, b).1, rcb_double(x, y, z, b).2, b) == dc_cof0(p) * curve_poly(x, y, z, b)
        }),
{
    let p = Pt { v0: x, v1: y, v2: z, v3: b, v4: 0, v5: 0, v6: 0 };
    lemma_vars(p);
    assert(x == (1) * mn(p, 1, 0, 0, 0, 0, 0, 0));
    assert(y == (1) * mn(p, 0, 1, 0, 0, 0, 0, 0));
    assert(z == (1) * mn(p, 0, 0, 1, 0, 0, 0, 0));
    assert(b == (1) * mn(p, 0, 0, 0, 1, 0, 0, 0));
    dc_prod0(p);
    let n0 = x * x;
    assert(n0 == (1) * mn(p, 2, 0, 0, 0, 0, 0, 0));
    dc_prod1(p);
    let n1 = y * y;
    assert(n1 == (1) * mn(p, 0, 2, 0, 0, 0, 0, 0));
    dc_prod2(p);
    let n2 = z * z;
    assert(n2 == (1) * mn(p, 0, 0, 2, 0, 0, 0, 0));
    dc_prod3(p);
    let n3 = x * y;
    assert(n3 == (1) * mn(p, 1, 1, 0, 0, 0, 0, 0));
    let n4 = 2 * n3;
    assert(n4 == (2) * mn(p, 1, 1, 0, 0, 0, 0, 0));
    dc_prod4(p);
    let n5 = y * z;
    assert(n5 == (1) * mn(p, 0, 1, 1, 0, 0, 0, 0));
    let n6 = 2 * n5;
    assert(n6 == (2) * mn(p, 0, 1, 1, 0, 0, 0, 0));
    dc_prod5(p);
    let n7 = x * z;
    assert(n7 == (1) * mn(p, 1, 0, 1, 0, 0, 0, 0));
    let n8 = 2 * n7;
    assert(n8 == (2) * mn(p, 1, 0, 1, 0, 0, 0, 0));
    dc_prod6(p);
    let n9 = b * n2;
    assert(n9 == (1) * mn(p, 0, 0, 2, 1, 0, 0, 0));
    let n10 = n9 - n8;
    assert(n10 == (-2) * mn(p, 1, 0, 1, 0, 0, 0, 0) + (1) * mn(p, 0, 0, 2, 1, 0, 0, 0));
    let n11 = 3 * n10;
    assert(n11 == (-6) * mn(p, 1, 0, 1, 0, 0, 0, 0) + (3) * mn(p, 0, 0, 2, 1, 0, 0, 0));
    let n12 = n1 - n11;
    assert(n12 == (6) * mn(p, 1, 0, 1, 0, 0, 0, 0) + (1) * mn(p, 0, 2, 0, 0, 0, 0, 0) + (-3) * mn(p, 0, 0, 2, 1, 0, 0, 0));
    let n13 = n1 + n11;
    assert(n13 == (-6) * mn(p, 1, 0, 1, 0, 0, 0, 0) + (1) * mn(p, 0, 2, 0, 0, 0, 0, 0) + (3) * mn(p, 0, 0, 2, 1, 0, 0, 0));
    dc_prod7(p);
    let n14 = b * n8;
    assert(n14 == (2) * mn(p, 1, 0, 1, 1, 0, 0, 0));
    let n15 = 3 * n2;
    assert(n15 == (3) * mn(p, 0, 0, 2, 0, 0, 0, 0));
    let n16 = n14 - n15;
    assert(n16 == (2) * mn(p, 1, 0, 1, 1, 0, 0, 0) + (-3) * mn(p, 0, 0, 2, 0, 0, 0, 0));
    let n17 = n16 - n0;
    assert(n17 == (-1) * mn(p, 2, 0, 0, 0, 0, 0, 0) + (2) * mn(p, 1, 0, 1, 1, 0, 0, 0) + (-3) * mn(p, 0, 0, 2, 0, 0, 0, 0));
    let n18 = 3 * n17;
    assert(n18 == (-3) * mn(p, 2, 0, 0, 0, 0, 0, 0) + (6) * mn(p, 1, 0, 1, 1, 0, 0, 0) + (-9) * mn(p, 0, 0, 2, 0, 0, 0, 0));
    let n19 = 3 * n0;
    assert(n19 == (3) * mn(p, 2, 0, 0, 0, 0, 0, 0));
    let n20 = n19 - n15;
    assert(n20 == (3) * mn(p, 2, 0, 0, 0, 0, 0, 0) + (-3) * mn(p, 0, 0, 2, 0, 0, 0, 0));
    dc_prod8(p);
    let n21 = n12 * n4;
    assert(n21 == (12) * mn(p, 2, 1, 1, 0, 0, 0, 0) + (2) * mn(p, 1, 3, 0, 0, 0, 0, 0) + (-6) * mn(p, 1, 1, 2, 1, 0, 0, 0));
    dc_prod9(p);
    let n22 = n18 * n6;
    assert(n22 == (-6) * mn(p, 2, 1, 1, 0, 0, 0, 0) + (12) * mn(p, 1, 1, 2, 1, 0, 0, 0) + (-18) * mn(p, 0, 1, 3, 0, 0, 0, 0));
    let n23 = n21 - n22;
    assert(n23 == (18) * mn(p, 2, 1, 1, 0, 0, 0, 0) + (2) * mn(p, 1, 3, 0, 0, 0, 0, 0) + (-18) * mn(p, 1, 1, 2, 1, 0, 0, 0) + (18) * mn(p, 0, 1, 3, 0, 0, 0, 0));
    dc_prod10(p);
    let n24 = n13 * n12;
    assert(n24 == (-36) * mn(p, 2, 0, 2, 0, 0, 0, 0) + (36) * mn(p, 1, 0, 3, 1, 0, 0, 0) + (1) * mn(p, 0, 4, 0, 0, 0, 0, 0) + (-9) * mn(p, 0, 0, 4, 2, 0, 0, 0));
    dc_prod11(p);
    let n25 = n20 * n18;
    assert(n25 == (-9) * mn(p, 4, 0, 0, 0, 0, 0, 0) + (18) * mn(p, 3, 0, 1, 1, 0, 0, 0) + (-18) * mn(p, 2, 0, 2, 0, 0, 0, 0) + (-18) * mn(p, 1, 0, 3, 1, 0, 0, 0) + (27) * mn(p, 0, 0, 4, 0, 0, 0, 0));
    let n26 = n24 + n25;
    assert(n26 == (-9) * mn(p, 4, 0, 0, 0, 0, 0, 0) + (18) * mn(p, 3, 0, 1, 1, 0, 0, 0) + (-54) * mn(p, 2, 0, 2, 0, 0, 0, 0) + (18) * mn(p, 1, 0, 3, 1, 0, 0, 0) + (1) * mn(p, 0, 4, 0, 0, 0, 0, 0) + (-9) * mn(p, 0, 0, 4, 2, 0, 0, 0) + (27) * mn(p, 0, 0, 4, 0, 0, 0, 0));
    dc_prod12(p);
    let n27 = n6 * n1;
    assert(n27 == (2) * mn(p, 0, 3, 1, 0, 0, 0, 0));
    let n28 = 4 * n27;
    assert(n28 == (8) * mn(p, 0, 3, 1, 0, 0, 0, 0));
    dc_prod13(p);
    let n29 = n26 * n26;
    assert(n29 == (81) * mn(p, 8, 0, 0, 0, 0, 0, 0) + (-324) * mn(p, 7, 0, 1, 1, 0, 0, 0) + (324) * mn(p, 6, 0, 2, 2, 0, 0, 0) + (972) * mn(p, 6, 0, 2, 0, 0, 0, 0) + (-2268) * mn(p, 5, 0, 3, 1, 0, 0, 0) + (-18) * mn(p, 4, 4, 0, 0, 0, 0, 0) + (810) * mn(p, 4, 0, 4, 2, 0, 0, 0) + (2430) * mn(p, 4, 0, 4, 0, 0, 0, 0) + (36) * mn(p, 3, 4, 1, 1, 0, 0, 0) + (-324) * mn(p, 3, 0, 5, 3, 0, 0, 0) + (-972) * mn(p, 3, 0, 5, 1, 0, 0, 0) + (-108) * mn(p, 2, 4, 2, 0, 0, 0, 0) + (1296) * mn(p, 2, 0, 6, 2, 0, 0, 0) + (-2916) * mn(p, 2, 0, 6, 0, 0, 0, 0) + (36) * mn(p, 1, 4, 3, 1, 0, 0, 0) + (-324) * mn(p, 1, 0, 7, 3, 0, 0, 0) + (972) * mn(p, 1, 0, 7, 1, 0, 0, 0) + (1) * mn(p, 0, 8, 0, 0, 0, 0, 0) + (-18) * mn(p, 0, 4, 4, 2, 0, 0, 0) + (54) * mn(p, 0, 4, 4, 0, 0, 0, 0) + (81) * mn(p, 0, 0, 8, 4, 0, 0, 0) + (-486) * mn(p, 0, 0, 8, 2, 0, 0, 0) + (729) * mn(p, 0, 0, 8, 0, 0, 0, 0));
    dc_prod14(p);
    let n30 = n29 * n28;
    assert(n30 == (648) * mn(p, 8, 3, 1, 0, 0, 0, 0) + (-2592) * mn(p, 7, 3, 2, 1, 0, 0, 0) + (2592) * mn(p, 6, 3, 3, 2, 0, 0, 0) + (7776) * mn(p, 6, 3, 3, 0, 0, 0, 0) + (-18144) * mn(p, 5, 3, 4, 1, 0, 0, 0) + (-144) * mn(p, 4, 7, 1, 0, 0, 0, 0) + (6480) * mn(p, 4, 3, 5, 2, 0, 0, 0) + (19440) * mn(p, 4, 3, 5, 0, 0, 0, 0) + (288) * mn(p, 3, 7, 2, 1, 0, 0, 0) + (-2592) * mn(p, 3, 3, 6, 3, 0, 0, 0) + (-7776) * mn(p, 3, 3, 6, 1, 0, 0, 0) + (-864) * mn(p, 2, 7, 3, 0, 0, 0, 0) + (10368) * mn(p, 2, 3, 7, 2, 0, 0, 0) + (-23328) * mn(p, 2, 3, 7, 0, 0, 0, 0) + (288) * mn(p, 1, 7, 4, 1, 0, 0, 0) + (-2592) * mn(p, 1, 3, 8, 3, 0, 0, 0) + (7776) * mn(p, 1, 3, 8, 1, 0, 0, 0) + (8) * mn(p, 0, 11, 1, 0, 0, 0, 0) + (-144) * mn(p, 0, 7, 5, 2, 0, 0, 0) + (432) * mn(p, 0, 7, 5, 0, 0, 0, 0) + (648) * mn(p, 0, 3, 9, 4, 0, 0, 0) + (-3888) * mn(p, 0, 3, 9, 2, 0, 0, 0) + (5832) * mn(p, 0, 3, 9, 0, 0, 0, 0));
    dc_prod15(p);
    let n31 = n23 * n23;
    assert(n31 == (324) * mn(p, 4, 2, 2, 0, 0, 0, 0) + (72) * mn(p, 3, 4, 1, 0, 0, 0, 0) + (-648) * mn(p, 3, 2, 3, 1, 0, 0, 0) + (4) * mn(p, 2, 6, 0, 0, 0, 0, 0) + (-72) * mn(p, 2, 4, 2, 1, 0, 0, 0) + (324) * mn(p, 2, 2, 4, 2, 0, 0, 0) + (648) * mn(p, 2, 2, 4, 0, 0, 0, 0) + (72) * mn(p, 1, 4, 3, 0, 0, 0, 0) + (-648) * mn(p, 1, 2, 5, 1, 0, 0, 0) + (324) * mn(p, 0, 2, 6, 0, 0, 0, 0));
    dc_prod16(p);
    let n32 = n31 * n23;
    assert(n32 == (5832) * mn(p, 6, 3, 3, 0, 0, 0, 0) + (1944) * mn(p, 5, 5, 2, 0, 0, 0, 0) + (-17496) * mn(p, 5, 3, 4, 1, 0, 0, 0) + (216) * mn(p, 4, 7, 1, 0, 0, 0, 0) + (-3888) * mn(p, 4, 5, 3, 1, 0, 0, 0) + (17496) * mn(p, 4, 3, 5, 2, 0, 0, 0) + (17496) * mn(p, 4, 3, 5, 0, 0, 0, 0) + (8) * mn(p, 3, 9, 0, 0, 0, 0, 0) + (-216) * mn(p, 3, 7, 2, 1, 0, 0, 0) + (1944) * mn(p, 3, 5, 4, 2, 0, 0, 0) + (3888) * mn(p, 3, 5, 4, 0, 0, 0, 0) + (-5832) * mn(p, 3, 3, 6, 3, 0, 0, 0) + (-34992) * mn(p, 3, 3, 6, 1, 0, 0, 0) + (216) * mn(p, 2, 7, 3, 0, 0, 0, 0) + (-3888) * mn(p, 2, 5, 5, 1, 0, 0, 0) + (17496) * mn(p, 2, 3, 7, 2, 0, 0, 0) + (17496) * mn(p, 2, 3, 7, 0, 0, 0, 0) + (1944) * mn(p, 1, 5, 6, 0, 0, 0, 0) + (-17496) * mn(p, 1, 3, 8, 1, 0, 0, 0) + (5832) * mn(p, 0, 3, 9, 0, 0, 0, 0));
    dc_prod17(p);
    let n33 = n23 * n28;
    assert(n33 == (144) * mn(p, 2, 4, 2, 0, 0, 0, 0) + (16) * mn(p, 1, 6, 1, 0, 0, 0, 0) + (-144) * mn(p, 1, 4, 3, 1, 0, 0, 0) + (144) * mn(p, 0, 4, 4, 0, 0, 0, 0));
    dc_prod18(p);
    let n34 = n33 * n28;
    assert(n34 == (1152) * mn(p, 2, 7, 3, 0, 0, 0, 0) + (128) * mn(p, 1, 9, 2, 0, 0, 0, 0) + (-1152) * mn(p, 1, 7, 4, 1, 0, 0, 0) + (1152) * mn(p, 0, 7, 5, 0, 0, 0, 0));
    let n35 = 3 * n34;
    assert(n35 == (3456) * mn(p, 2, 7, 3, 0, 0, 0, 0) + (384) * mn(p, 1, 9, 2, 0, 0, 0, 0) + (-3456) * mn(p, 1, 7, 4, 1, 0, 0, 0) + (3456) * mn(p, 0, 7, 5, 0, 0, 0, 0));
    let n36 = n32 - n35;
    assert(n36 == (5832) * mn(p, 6, 3, 3, 0, 0, 0, 0) + (1944) * mn(p, 5, 5, 2, 0, 0, 0, 0) + (-17496) * mn(p, 5, 3, 4, 1, 0, 0, 0) + (216) * mn(p, 4, 7, 1, 0, 0, 0, 0) + (-3888) * mn(p, 4, 5, 3, 1, 0, 0, 0) + (17496) * mn(p, 4, 3, 5, 2, 0, 0, 0) + (17496) * mn(p, 4, 3, 5, 0, 0, 0, 0) + (8) * mn(p, 3, 9, 0, 0, 0, 0, 0) + (-216) * mn(p, 3, 7, 2, 1, 0, 0, 0) + (1944) * mn(p, 3, 5, 4, 2, 0, 0, 0) + (3888) * mn(p, 3, 5, 4, 0, 0, 0, 0) + (-5832) * mn(p, 3, 3, 6, 3, 0, 0, 0) + (-34992) * mn(p, 3, 3, 6, 1, 0, 0, 0) + (-3240) * mn(p, 2, 7, 3, 0, 0, 0, 0) + (-3888) * mn(p, 2, 5, 5, 1, 0, 0, 0) + (17496) * mn(p, 2, 3, 7, 2, 0, 0, 0) + (17496) * mn(p, 2, 3, 7, 0, 0, 0, 0) + (-384) * mn(p, 1, 9, 2, 0, 0, 0, 0) + (3456) * mn(p, 1, 7, 4, 1, 0, 0, 0) + (1944) * mn(p, 1, 5, 6, 0, 0, 0, 0) + (-17496) * mn(p, 1, 3, 8, 1, 0, 0, 0) + (-3456) * mn(p, 0, 7, 5, 0, 0, 0, 0) + (5832) * mn(p, 0, 3, 9, 0, 0, 0, 0));
    dc_prod19(p);
    let n37 = n28 * n28;
    assert(n37 == (64) * mn(p, 0, 6, 2, 0, 0, 0, 0));
    dc_prod20(p);
    let n38 = n37 * n28;
    assert(n38 == (512) * mn(p, 0, 9, 3, 0, 0, 0, 0));
    dc_prod21(p);
    let n39 = b * n38;
    assert(n39 == (512) * mn(p, 0, 9, 3, 1, 0, 0, 0));
    let n40 = n36 + n39;
    assert(n40 == (5832) * mn(p, 6, 3, 3, 0, 0, 0, 0) + (1944) * mn(p, 5, 5, 2, 0, 0, 0, 0) + (-17496) * mn(p, 5, 3, 4, 1, 0, 0, 0) + (216) * mn(p, 4, 7, 1, 0, 0, 0, 0) + (-3888) * mn(p, 4, 5, 3, 1, 0, 0, 0) + (17496) * mn(p, 4, 3, 5, 2, 0, 0, 0) + (17496) * mn(p, 4, 3, 5, 0, 0, 0, 0) + (8) * mn(p, 3, 9, 0, 0, 0, 0, 0) + (-216) * mn(p, 3, 7, 2, 1, 0, 0, 0) + (1944) * mn(p, 3, 5, 4, 2, 0, 0, 0) + (3888) * mn(p, 3, 5, 4, 0, 0, 0, 0) + (-5832) * mn(p, 3, 3, 6, 3, 0, 0, 0) + (-34992) * mn(p, 3, 3, 6, 1, 0, 0, 0) + (-3240) * mn(p, 2, 7, 3, 0, 0, 0, 0) + (-3888) * mn(p, 2, 5, 5, 1, 0, 0, 0) + (17496) * mn(p, 2, 3, 7, 2, 0, 0, 0) + (17496) * mn(p, 2, 3, 7, 0, 0, 0, 0) + (-384) * mn(p, 1, 9, 2, 0, 0, 0, 0) + (3456) * mn(p, 1, 7, 4, 1, 0, 0, 0) + (1944) * mn(p, 1, 5, 6, 0, 0, 0, 0) + (-17496) * mn(p, 1, 3, 8, 1, 0, 0, 0) + (512) * mn(p, 0, 9, 3, 1, 0, 0, 0) + (-3456) * mn(p, 0, 7, 5, 0, 0, 0, 0) + (5832) * mn(p, 0, 3, 9, 0, 0, 0, 0));
    let n41 = n30 - n40;
    assert(n41 == (648) * mn(p, 8, 3, 1, 0, 0, 0, 0) + (-2592) * mn(p, 7, 3, 2, 1, 0, 0, 0) + (2592) * mn(p, 6, 3, 3, 2, 0, 0, 0) + (1944) * mn(p, 6, 3, 3, 0, 0, 0, 0) + (-1944) * mn(p, 5, 5, 2, 0, 0, 0, 0) + (-648) * mn(p, 5, 3, 4, 1, 0, 0, 0) + (-360) * mn(p, 4, 7, 1, 0, 0, 0, 0) + (3888) * mn(p, 4, 5, 3, 1, 0, 0, 0) + (-11016) * mn(p, 4, 3, 5, 2, 0, 0, 0) + (1944) * mn(p, 4, 3, 5, 0, 0, 0, 0) + (-8) * mn(p, 3, 9, 0, 0, 0, 0, 0) + (504) * mn(p, 3, 7, 2, 1, 0, 0, 0) + (-1944) * mn(p, 3, 5, 4, 2, 0, 0, 0) + (-3888) * mn(p, 3, 5, 4, 0, 0, 0, 0) + (3240) * mn(p, 3, 3, 6, 3, 0, 0, 0) + (27216) * mn(p, 3, 3, 6, 1, 0, 0, 0) + (2376) * mn(p, 2, 7, 3, 0, 0, 0, 0) + (3888) * mn(p, 2, 5, 5, 1, 0, 0, 0) + (-7128) * mn(p, 2, 3, 7, 2, 0, 0, 0) + (-40824) * mn(p, 2, 3, 7, 0, 0, 0, 0) + (384) * mn(p, 1, 9, 2, 0, 0, 0, 0) + (-3168) * mn(p, 1, 7, 4, 1, 0, 0, 0) + (-1944) * mn(p, 1, 5, 6, 0, 0, 0, 0) + (-2592) * mn(p, 1, 3, 8, 3, 0, 0, 0) + (25272) * mn(p, 1, 3, 8, 1, 0, 0, 0) + (8) * mn(p, 0, 11, 1, 0, 0, 0, 0) + (-512) * mn(p, 0, 9, 3, 1, 0, 0, 0) + (-144) * mn(p, 0, 7, 5, 2, 0, 0, 0) + (3888) * mn(p, 0, 7, 5, 0, 0, 0, 0) + (648) * mn(p, 0, 3, 9, 4, 0, 0, 0) + (-3888) * mn(p, 0, 3, 9, 2, 0, 0, 0));
    dc_prod22(p);
    let n42 = n1 * z;
    assert(n42 == (1) * mn(p, 0, 2, 1, 0, 0, 0, 0));
    dc_prod23(p);
    let n43 = n0 * x;
    assert(n43 == (1) * mn(p, 3, 0, 0, 0, 0, 0, 0));
    dc_prod24(p);
    let n44 = n7 * z;
    assert(n44 == (1) * mn(p, 1, 0, 2, 0, 0, 0, 0));
    let n45 = 3 * n44;
    assert(n45 == (3) * mn(p, 1, 0, 2, 0, 0, 0, 0));
    let n46 = n43 - n45;
    assert(n46 == (1) * mn(p, 3, 0, 0, 0, 0, 0, 0) + (-3) * mn(p, 1, 0, 2, 0, 0, 0, 0));
    dc_prod25(p);
    let n47 = n2 * z;
    assert(n47 == (1) * mn(p, 0, 0, 3, 0, 0, 0, 0));
    dc_prod26(p);
    let n48 = b * n47;
    assert(n48 == (1) * mn(p, 0, 0, 3, 1, 0, 0, 0));
    let n49 = n46 + n48;
    assert(n49 == (1) * mn(p, 3, 0, 0, 0, 0, 0, 0) + (-3) * mn(p, 1, 0, 2, 0, 0, 0, 0) + (1) * mn(p, 0, 0, 3, 1, 0, 0, 0));
    let n50 = n42 - n49;
    assert(n50 == (-1) * mn(p, 3, 0, 0, 0, 0, 0, 0) + (3) * mn(p, 1, 0, 2, 0, 0, 0, 0) + (1) * mn(p, 0, 2, 1, 0, 0, 0, 0) + (-1) * mn(p, 0, 0, 3, 1, 0, 0, 0));
    dc_prod27(p);
    assert(n41 == dc_cof0(p) * n50);
}

pub(crate) open spec fn dt0_cof0(p: Pt) -> int {
    (-18) * mn(p, 1, 1, 2, 0, 0, 0, 0)
}

#[verifier::rlimit(100)]
proof fn dt0_prod0(p: Pt)
    ensures
        ((1) * mn(p, 1, 0, 0, 0, 0, 0, 0)) * ((1) * mn(p, 1, 0, 0, 0, 0, 0, 0)) == (1) * mn(p, 2, 0, 0, 0, 0, 0, 0),
{
    let t0 = (1) * mn(p, 1, 0, 0, 0, 0, 0, 0);
    let s0 = (1) * mn(p, 1, 0, 0, 0, 0, 0, 0);
    let pp0 = t0;
    let qq0 = s0;
    let q = qq0;
    lemma_tm(p, 1, 1, 0, 0, 0, 0, 0, 0, 1, 1, 0, 0, 0, 0, 0, 0);
    assert(t0 * s0 == (1) * mn(p, 2, 0, 0, 0, 0, 0, 0));
    assert(t0 * q == (1) * mn(p, 2, 0, 0, 0, 0, 0, 0));
    assert(pp0 * q == (1) * mn(p, 2, 0, 0, 0, 0, 0, 0));
}

#[verifier::rlimit(100)]
proof fn dt0_prod1(p: Pt)
    ensures
        ((1) * mn(p, 0, 1, 0, 0, 0, 0, 0)) * ((1) * mn(p, 0, 1, 0, 0, 0, 0, 0)) == (1) * mn(p, 0, 2, 0, 0, 0, 0, 0),
{
    let t0 = (1) * mn(p, 0, 1, 0, 0, 0, 0, 0);
    let s0 = (1) * mn(p, 0, 1, 0, 0, 0, 0, 0);
    let pp0 = t0;
    let qq0 = s0;
    let q = qq0;
    lemma_tm(p, 1, 0, 1, 0, 0, 0, 0, 0, 1, 0, 1, 0, 0, 0, 0, 0);
    assert(t0 * s0 == (1) * mn(p, 0, 2, 0, 0, 0, 0, 0));
    assert(t0 * q == (1) * mn(p, 0, 2, 0, 0, 0, 0, 0));
    assert(pp0 * q == (1) * mn(p, 0, 2, 0, 0, 0, 0, 0));
}

#[verifier::rlimit(100)]
proof fn dt0_prod2(p: Pt)
    ensures
        ((1) * mn(p, 0, 0, 1, 0, 0, 0, 0)) * ((1) * mn(p, 0, 0, 1, 0, 0, 0, 0)) == (1) * mn(p, 0, 0, 2, 0, 0, 0, 0),
{
    let t0 = (1) * mn(p, 0, 0, 1, 0, 0, 0, 0);
    let s0 = (1) * mn(p, 0, 0, 1, 0, 0, 0, 0);
    let pp0 = t0;
    let qq0 = s0;
    let q = qq0;
    lemma_tm(p, 1, 0, 0, 1, 0, 0, 0, 0, 1, 0, 0, 1, 0, 0, 0, 0);
    assert(t0 * s0 == (1) * mn(p, 0, 0, 2, 0, 0, 0, 0));
    assert(t0 * q == (1) * mn(p, 0, 0, 2, 0, 0, 0, 0));
    assert(pp0 * q == (1) * mn(p, 0, 0, 2, 0, 0, 0, 0));
}

#[verifier::rlimit(100)]
proof fn dt0_prod3(p: Pt)
    ensures
        ((1) * mn(p, 1, 0, 0, 0, 0, 0, 0)) * ((1) * mn(p, 0, 1, 0, 0, 0, 0, 0)) == (1) * mn(p, 1, 1, 0, 0, 0, 0, 0),
{
    let t0 = (1) * mn(p, 1, 0, 0, 0, 0, 0, 0);
    let s0 = (1) * mn(p, 0, 1, 0, 0, 0, 0, 0);
    let pp0 = t0;
    let qq0 = s0;
    let q = qq0;
    lemma_tm(p, 1, 1, 0, 0, 0, 0, 0, 0, 1, 0, 1, 0, 0, 0, 0, 0);
    assert(t0 * s0 == (1) * mn(p, 1, 1, 0, 0, 0, 0, 0));
    assert(t0 * q == (1) * mn(p, 1, 1, 0, 0, 0, 0, 0));
    assert(pp0 * q == (1) * mn(p, 1, 1, 0, 0, 0, 0, 0));
}

#[verifier::rlimit(100)]
proof fn dt0_prod4(p: Pt)
    ensures
        ((1) * mn(p, 0, 1, 0, 0, 0, 0, 0)) * ((1) * mn(p, 0, 0, 1, 0, 0, 0, 0)) == (1) * mn(p, 0, 1, 1, 0, 0, 0, 0),
{
    let t0 = (1) * mn(p, 0, 1, 0, 0, 0, 0, 0);
    let s0 = (1) * mn(p, 0, 0, 1, 0, 0, 0, 0);
    let pp0 = t0;
    let qq0 = s0;
    let q = qq0;
    lemma_tm(p, 1, 0, 1, 0, 0, 0, 0, 0, 1, 0, 0, 1, 0, 0, 0, 0);
    assert(t0 * s0 == (1) * mn(p, 0, 1, 1, 0, 0, 0, 0));
    assert(t0 * q == (1) * mn(p, 0, 1, 1, 0, 0, 0, 0));
    assert(pp0 * q == (1) * mn(p, 0, 1, 1, 0, 0, 0, 0));
}

#[verifier::rlimit(100)]
proof fn dt0_prod5(p: Pt)
    ensures
        ((1) * mn(p, 1, 0, 0, 0, 0, 0, 0)) * ((1) * mn(p, 0, 0, 1, 0, 0, 0, 0)) == (1) * mn(p, 1, 0, 1, 0, 0, 0, 0),
{
    let t0 = (1) * mn(p, 1, 0, 0, 0, 0, 0, 0);
    let s0 = (1) * mn(p, 0, 0, 1, 0, 0, 0, 0);
    let pp0 = t0;
    let qq0 = s0;
    let q = qq0;
    lemma_tm(p, 1, 1, 0, 0, 0, 0, 0, 0, 1, 0, 0, 1, 0, 0, 0, 0);
    assert(t0 * s0 == (1) * mn(p, 1, 0, 1, 0, 0, 0, 0));
    assert(t0 * q == (1) * mn(p, 1, 0, 1, 0, 0, 0, 0));
    assert(pp0 * q == (1) * mn(p, 1, 0, 1, 0, 0, 0, 0));
}

#[verifier::rlimit(100)]
proof fn dt0_prod6(p: Pt)
    ensures
        ((1) * mn(p, 0, 0, 0, 1, 0, 0, 0)) * ((1) * mn(p, 0, 0, 2, 0, 0, 0, 0)) == (1) * mn(p, 0, 0, 2, 1, 0, 0, 0),
{
    let t0 = (1) * mn(p, 0, 0, 0, 1, 0, 0, 0);
    let s0 = (1) * mn(p, 0, 0, 2, 0, 0, 0, 0);
    let pp0 = t0;
    let qq0 = s0;
    let q = qq0;
    lemma_tm(p, 1, 0, 0, 0, 1, 0, 0, 0, 1, 0, 0, 2, 0, 0, 0, 0);
    assert(t0 * s0 == (1) * mn(p, 0, 0, 2, 1, 0, 0, 0));
    assert(t0 * q == (1) * mn(p, 0, 0, 2, 1, 0, 0, 0));
    assert(pp0 * q == (1) * mn(p, 0, 0, 2, 1, 0, 0, 0));
}

#[verifier::rlimit(100)]
proof fn dt0_prod7(p: Pt)
    ensures
        ((1) * mn(p, 0, 0, 0, 1, 0, 0, 0)) * ((2) * mn(p, 1, 0, 1, 0, 0, 0, 0)) == (2) * mn(p, 1, 0, 1, 1, 0, 0, 0),
{
    let t0 = (1) * mn(p, 0, 0, 0, 1, 0, 0, 0);
    let s0 = (2) * mn(p, 1, 0, 1, 0, 0, 0, 0);
    let pp0 = t0;
    let qq0 = s0;
    let q = qq0;
    lemma_tm(p, 1, 0, 0, 0, 1, 0, 0, 0, 2, 1, 0, 1, 0, 0, 0, 0);
    assert(t0 * s0 == (2) * mn(p, 1, 0, 1, 1, 0, 0, 0));
    assert(t0 * q == (2) * mn(p, 1, 0, 1, 1, 0, 0, 0));
    assert(pp0 * q == (2) * mn(p, 1, 0, 1, 1, 0, 0, 0));
}

#[verifier::rlimit(100)]
proof fn dt0_prod8(p: Pt)
    ensures
        ((6) * mn(p, 1, 0, 1, 0, 0, 0, 0) + (1) * mn(p, 0, 2, 0, 0, 0, 0, 0) + (-3) * mn(p, 0, 0, 2, 1, 0, 0, 0)) * ((2) * mn(p, 1, 1, 0, 0, 0, 0, 0)) == (12) * mn(p, 2, 1, 1, 0, 0, 0, 0) + (2) * mn(p, 1, 3, 0, 0, 0, 0, 0) + (-6) * mn(p, 1, 1, 2, 1, 0, 0, 0),
{
    let t0 = (6) * mn(p, 1, 0, 1, 0, 0, 0, 0);
    let t1 = (1) * mn(p, 0, 2, 0, 0, 0, 0, 0);
    let t2 = (-3) * mn(p, 0, 0, 2, 1, 0, 0, 0);
    let s0 = (2) * mn(p, 1, 1, 0, 0, 0, 0, 0);
    let pp0 = t0;
    let pp1 = pp0 + t1;
    let pp2 = pp1 + t2;
    let qq0 = s0;
    let q = qq0;
    lemma_mul_is_distributive_add_other_way(q, pp0, t1);
    lemma_mul_is_distributive_add_other_way(q, pp1, t2);
    lemma_tm(p, 6, 1, 0, 1, 0, 0, 0, 0, 2, 1, 1, 0, 0, 0, 0, 0);
    assert(t0 * s0 == (12) * mn(p, 2, 1, 1, 0, 0, 0, 0));
    assert(t0 * q == (12) * mn(p, 2, 1, 1, 0, 0, 0, 0));
    lemma_tm(p, 1, 0, 2, 0, 0, 0, 0, 0, 2, 1, 1, 0, 0, 0, 0, 0);
    assert(t1 * s0 == (2) * mn(p, 1, 3, 0, 0, 0, 0, 0));
    assert(t1 * q == (2) * mn(p, 1, 3, 0, 0, 0, 0, 0));
    lemma_tm(p, -3, 0, 0, 2, 1, 0, 0, 0, 2, 1, 1, 0, 0, 0, 0, 0);
    assert(t2 * s0 == (-6) * mn(p, 1, 1, 2, 1, 0, 0, 0));
    assert(t2 * q == (-6) * mn(p, 1, 1, 2, 1, 0, 0, 0));
    assert(pp2 * q == (12) * mn(p, 2, 1, 1, 0, 0, 0, 0) + (2) * mn(p, 1, 3, 0, 0, 0, 0, 0) + (-6) * mn(p, 1, 1, 2, 1, 0, 0, 0));
}

#[verifier::rlimit(100)]
proof fn dt0_prod9(p: Pt)
    ensures
        ((-3) * mn(p, 2, 0, 0, 0, 0, 0, 0) + (6) * mn(p, 1, 0, 1, 1, 0, 0, 0) + (-9) * mn(p, 0, 0, 2, 0, 0, 0, 0)) * ((2) * mn(p, 0, 1, 1, 0, 0, 0, 0)) == (-6) * mn(p, 2, 1, 1, 0, 0, 0, 0) + (12) * mn(p, 1, 1, 2, 1, 0, 0, 0) + (-18) * mn(p, 0, 1, 3, 0, 0, 0, 0),
{
    let t0 = (-3) * mn(p, 2, 0, 0, 0, 0, 0, 0);
    let t1 = (6) * mn(p, 1, 0, 1, 1, 0, 0, 0);
    let t2 = (-9) * mn(p, 0, 0, 2, 0, 0, 0, 0);
    let s0 = (2) * mn(p, 0, 1, 1, 0, 0, 0, 0);
    let pp0 = t0;
    let pp1 = pp0 + t1;
    let pp2 = pp1 + t2;
    let qq0 = s0;
    let q = qq0;
    lemma_mul_is_distributive_add_other_way(q, pp0, t1);
    lemma_mul_is_distributive_add_other_way(q, pp1, t2);
    lemma_tm(p, -3, 2, 0, 0, 0, 0, 0, 0, 2, 0, 1, 1, 0, 0, 0, 0);
    assert(t0 * s0 == (-6) * mn(p, 2, 1, 1, 0, 0, 0, 0));
    assert(t0 * q == (-6) * mn(p, 2, 1, 1, 0, 0, 0, 0));
    lemma_tm(p, 6, 1, 0, 1, 1, 0, 0, 0, 2, 0, 1, 1, 0, 0, 0, 0);
    assert(t1 * s0 == (12) * mn(p, 1, 1, 2, 1, 0, 0, 0));
    assert(t1 * q == (12) * mn(p, 1, 1, 2, 1, 0, 0, 0));
    lemma_tm(p, -9, 0, 0, 2, 0, 0, 0, 0, 2, 0, 1, 1, 0, 0, 0, 0);
    assert(t2 * s0 == (-18) * mn(p, 0, 1, 3, 0, 0, 0, 0));
    assert(t2 * q == (-18) * mn(p, 0, 1, 3, 0, 0, 0, 0));
    assert(pp2 * q == (-6) * mn(p, 2, 1, 1, 0, 0, 0, 0) + (12) * mn(p, 1, 1, 2, 1, 0, 0, 0) + (-18) * mn(p, 0, 1, 3, 0, 0, 0, 0));
}

#[verifier::rlimit(100)]
proof fn dt0_prod10(p: Pt)
    ensures
        ((-6) * mn(p, 1, 0, 1, 0, 0, 0, 0) + (1) * mn(p, 0, 2, 0, 0, 0, 0, 0) + (3) * mn(p, 0, 0, 2, 1, 0, 0, 0)) * ((6) * mn(p, 1, 0, 1, 0, 0, 0, 0) + (1) * mn(p, 0, 2, 0, 0, 0, 0, 0) + (-3) * mn(p, 0, 0, 2, 1, 0, 0, 0)) == (-36) * mn(p, 2, 0, 2, 0, 0, 0, 0) + (36) * mn(p, 1, 0, 3, 1, 0, 0, 0) + (1) * mn(p, 0, 4, 0, 0, 0, 0, 0) + (-9) * mn(p, 0, 0, 4, 2, 0, 0, 0),
{
    let t0 = (-6) * mn(p, 1, 0, 1, 0, 0, 0, 0);
    let t1 = (1) * mn(p, 0, 2, 0, 0, 0, 0, 0);
    let t2 = (3) * mn(p, 0, 0, 2, 1, 0, 0, 0);
    let s0 = (6) * mn(p, 1, 0, 1, 0, 0, 0, 0);
    let s1 = (1) * mn(p, 0, 2, 0, 0, 0, 0, 0);
    let s2 = (-3) * mn(p, 0, 0, 2, 1, 0, 0, 0);
    let pp0 = t0;
    let pp1 = pp0 + t1;
    let pp2 = pp1 + t2;
    let qq0 = s0;
    let qq1 = qq0 + s1;
    let qq2 = qq1 + s2;
    let q = qq2;
    lemma_mul_is_distributive_add_other_way(q, pp0, t1);
    lemma_mul_is_distributive_add_other_way(q, pp1, t2);
    lemma_mul_is_distributive_add(t0, qq0, s1);
    lemma_mul_is_distributive_add(t0, qq1, s2);
    lemma_mul_is_distributive_add(t1, qq0, s1);
    lemma_mul_is_distributive_add(t1, qq1, s2);
    lemma_mul_is_distributive_add(t2, qq0, s1);
    lemma_mul_is_distributive_add(t2, qq1, s2);
    lemma_tm(p, -6, 1, 0, 1, 0, 0, 0, 0, 6, 1, 0, 1, 0, 0, 0, 0);
    assert(t0 * s0 == (-36) * mn(p, 2, 0, 2, 0, 0, 0, 0));
    lemma_tm(p, -6, 1, 0, 1, 0, 0, 0, 0, 1, 0, 2, 0, 0, 0, 0, 0);
    assert(t0 * s1 == (-6) * mn(p, 1, 2, 1, 0, 0, 0, 0));
    lemma_tm(p, -6, 1, 0, 1, 0, 0, 0, 0, -3, 0, 0, 2, 1, 0, 0, 0);
    assert(t0 * s2 == (18) * mn(p, 1, 0, 3, 1, 0, 0, 0));
    assert(t0 * q == (-36) * mn(p, 2, 0, 2, 0, 0, 0, 0) + (-6) * mn(p, 1, 2, 1, 0, 0, 0, 0) + (18) * mn(p, 1, 0, 3, 1, 0, 0, 0));
    lemma_tm(p, 1, 0, 2, 0, 0, 0, 0, 0, 6, 1, 0, 1, 0, 0, 0, 0);
    assert(t1 * s0 == (6) * mn(p, 1, 2, 1, 0, 0, 0, 0));
    lemma_tm(p, 1, 0, 2, 0, 0, 0, 0, 0, 1, 0, 2, 0, 0, 0, 0, 0);
    assert(t1 * s1 == (1) * mn(p, 0, 4, 0, 0, 0, 0, 0));
    lemma_tm(p, 1, 0, 2, 0, 0, 0, 0, 0, -3, 0, 0, 2, 1, 0, 0, 0);
    assert(t1 * s2 == (-3) * mn(p, 0, 2, 2, 1, 0, 0, 0));
    assert(t1 * q == (6) * mn(p, 1, 2, 1, 0, 0, 0, 0) + (1) * mn(p, 0, 4, 0, 0, 0, 0, 0) + (-3) * mn(p, 0, 2, 2, 1, 0, 0, 0));
    lemma_tm(p, 3, 0, 0, 2, 1, 0, 0, 0, 6, 1, 0, 1, 0, 0, 0, 0);
    assert(t2 * s0 == (18) * mn(p, 1, 0, 3, 1, 0, 0, 0));
    lemma_tm(p, 3, 0, 0, 2, 1, 0, 0, 0, 1, 0, 2, 0, 0, 0, 0, 0);
    assert(t2 * s1 == (3) * mn(p, 0, 2, 2, 1, 0, 0, 0));
    lemma_tm(p, 3, 0, 0, 2, 1, 0, 0, 0, -3, 0, 0, 2, 1, 0, 0, 0);
    assert(t2 * s2 == (-9) * mn(p, 0, 0, 4, 2, 0, 0, 0));
    assert(t2 * q == (18) * mn(p, 1, 0, 3, 1, 0, 0, 0) + (3) * mn(p, 0, 2, 2, 1, 0, 0, 0) + (-9) * mn(p, 0, 0, 4, 2, 0, 0, 0));
    assert(pp2 * q == (-36) * mn(p, 2, 0, 2, 0, 0, 0, 0) + (36) * mn(p, 1, 0, 3, 1, 0, 0, 0) + (1) * mn(p, 0, 4, 0, 0, 0, 0, 0) + (-9) * mn(p, 0, 0, 4, 2, 0, 0, 0));
}

#[verifier::rlimit(100)]
proof fn dt0_prod11(p: Pt)
    ensures
        ((3) * mn(p, 2, 0, 0, 0, 0, 0, 0) + (-3) * mn(p, 0, 0, 2, 0, 0, 0, 0)) * ((-3) * mn(p, 2, 0, 0, 0, 0, 0, 0) + (6) * mn(p, 1, 0, 1, 1, 0, 0, 0) + (-9) * mn(p, 0, 0, 2, 0, 0, 0, 0)) == (-9) * mn(p, 4, 0, 0, 0, 0, 0, 0) + (18) * mn(p, 3, 0, 1, 1, 0, 0, 0) + (-18) * mn(p, 2, 0, 2, 0, 0, 0, 0) + (-18) * mn(p, 1, 0, 3, 1, 0, 0, 0) + (27) * mn(p, 0, 0, 4, 0, 0, 0, 0),
{
    let t0 = (3) * mn(p, 2, 0, 0, 0, 0, 0, 0);
    let t1 = (-3) * mn(p, 0, 0, 2, 0, 0, 0, 0);
    let s0 = (-3) * mn(p, 2, 0, 0, 0, 0, 0, 0);
    let s1 = (6) * mn(p, 1, 0, 1, 1, 0, 0, 0);
    let s2 = (-9) * mn(p, 0, 0, 2, 0, 0, 0, 0);
    let pp0 = t0;
    let pp1 = pp0 + t1;
    let qq0 = s0;
    let qq1 = qq0 + s1;
    let qq2 = qq1 + s2;
    let q = qq2;
    lemma_mul_is_distributive_add_other_way(q, pp0, t1);
    lemma_mul_is_distributive_add(t0, qq0, s1);
    lemma_mul_is_distributive_add(t0, qq1, s2);
    lemma_mul_is_distributive_add(t1, qq0, s1);
    lemma_mul_is_distributive_add(t1, qq1, s2);
    lemma_tm(p, 3, 2, 0, 0, 0, 0, 0, 0, -3, 2, 0, 0, 0, 0, 0, 0);
    assert(t0 * s0 == (-9) * mn(p, 4, 0, 0, 0, 0, 0, 0));
    lemma_tm(p, 3, 2, 0, 0, 0, 0, 0, 0, 6, 1, 0, 1, 1, 0, 0, 0);
    assert(t0 * s1 == (18) * mn(p, 3, 0, 1, 1, 0, 0, 0));
    lemma_tm(p, 3, 2, 0, 0, 0, 0, 0, 0, -9, 0, 0, 2, 0, 0, 0, 0);
    assert(t0 * s2 == (-27) * mn(p, 2, 0, 2, 0, 0, 0, 0));
    assert(t0 * q == (-9) * mn(p, 4, 0, 0, 0, 0, 0, 0) + (18) * mn(p, 3, 0, 1, 1, 0, 0, 0) + (-27) * mn(p, 2, 0, 2, 0, 0, 0, 0));
    lemma_tm(p, -3, 0, 0, 2, 0, 0, 0, 0, -3, 2, 0, 0, 0, 0, 0, 0);
    assert(t1 * s0 == (9) * mn(p, 2, 0, 2, 0, 0, 0, 0));
    lemma_tm(p, -3, 0, 0, 2, 0, 0, 0, 0, 6, 1, 0, 1, 1, 0, 0, 0);
    assert(t1 * s1 == (-18) * mn(p, 1, 0, 3, 1, 0, 0, 0));
    lemma_tm(p, -3, 0, 0, 2, 0, 0, 0, 0, -9, 0, 0, 2, 0, 0, 0, 0);
    assert(t1 * s2 == (27) * mn(p, 0, 0, 4, 0, 0, 0, 0));
    assert(t1 * q == (9) * mn(p, 2, 0, 2, 0, 0, 0, 0) + (-18) * mn(p, 1, 0, 3, 1, 0, 0, 0) + (27) * mn(p, 0, 0, 4, 0, 0, 0, 0));
    assert(pp1 * q == (-9) * mn(p, 4, 0, 0, 0, 0, 0, 0) + (18) * mn(p, 3, 0, 1, 1, 0, 0, 0) + (-18) * mn(p, 2, 0, 2, 0, 0, 0, 0) + (-18) * mn(p, 1, 0, 3, 1, 0, 0, 0) + (27) * mn(p, 0, 0, 4, 0, 0, 0, 0));
}

#[verifier::rlimit(100)]
proof fn dt0_prod12(p: Pt)
    ensures
        ((2) * mn(p, 0, 1, 1, 0, 0, 0, 0)) * ((1) * mn(p, 0, 2, 0, 0, 0, 0, 0)) == (2) * mn(p, 0, 3, 1, 0, 0, 0, 0),
{
    let t0 = (2) * mn(p, 0, 1, 1, 0, 0, 0, 0);
    let s0 = (1) * mn(p, 0, 2, 0, 0, 0, 0, 0);
    let pp0 = t0;
    let qq0 = s0;
    let q = qq0;
    lemma_tm(p, 2, 0, 1, 1, 0, 0, 0, 0, 1, 0, 2, 0, 0, 0, 0, 0);
    assert(t0 * s0 == (2) * mn(p, 0, 3, 1, 0, 0, 0, 0));
    assert(t0 * q == (2) * mn(p, 0, 3, 1, 0, 0, 0, 0));
    assert(pp0 * q == (2) * mn(p, 0, 3, 1, 0, 0, 0, 0));
}

#[verifier::rlimit(100)]
proof fn dt0_prod13(p: Pt)
    ensures
        ((3) * mn(p, 2, 0, 0, 0, 0, 0, 0) + (-3) * mn(p, 0, 0, 2, 0, 0, 0, 0)) * ((3) * mn(p, 2, 0, 0, 0, 0, 0, 0) + (-3) * mn(p, 0, 0, 2, 0, 0, 0, 0)) == (9) * mn(p, 4, 0, 0, 0, 0, 0, 0) + (-18) * mn(p, 2, 0, 2, 0, 0, 0, 0) + (9) * mn(p, 0, 0, 4, 0, 0, 0, 0),
{
    let t0 = (3) * mn(p, 2, 0, 0, 0, 0, 0, 0);
    let t1 = (-3) * mn(p, 0, 0, 2, 0, 0, 0, 0);
    let s0 = (3) * mn(p, 2, 0, 0, 0, 0, 0, 0);
    let s1 = (-3) * mn(p, 0, 0, 2, 0, 0, 0, 0);
    let pp0 = t0;
    let pp1 = pp0 + t1;
    let qq0 = s0;
    let qq1 = qq0 + s1;
    let q = qq1;
    lemma_mul_is_distributive_add_other_way(q, pp0, t1);
    lemma_mul_is_distributive_add(t0, qq0, s1);
    lemma_mul_is_distributive_add(t1, qq0, s1);
    lemma_tm(p, 3, 2, 0, 0, 0, 0, 0, 0, 3, 2, 0, 0, 0, 0, 0, 0);
    assert(t0 * s0 == (9) * mn(p, 4, 0, 0, 0, 0, 0, 0));
    lemma_tm(p, 3, 2, 0, 0, 0, 0, 0, 0, -3, 0, 0, 2, 0, 0, 0, 0);
    assert(t0 * s1 == (-9) * mn(p, 2, 0, 2, 0, 0, 0, 0));
    assert(t0 * q == (9) * mn(p, 4, 0, 0, 0, 0, 0, 0) + (-9) * mn(p, 2, 0, 2, 0, 0, 0, 0));
    lemma_tm(p, -3, 0, 0, 2, 0, 0, 0, 0, 3, 2, 0, 0, 0, 0, 0, 0);
    assert(t1 * s0 == (-9) * mn(p, 2, 0, 2, 0, 0, 0, 0));
    lemma_tm(p, -3, 0, 0, 2, 0, 0, 0, 0, -3, 0, 0, 2, 0, 0, 0, 0);
    assert(t1 * s1 == (9) * mn(p, 0, 0, 4, 0, 0, 0, 0));
    assert(t1 * q == (-9) * mn(p, 2, 0, 2, 0, 0, 0, 0) + (9) * mn(p, 0, 0, 4, 0, 0, 0, 0));
    assert(pp1 * q == (9) * mn(p, 4, 0, 0, 0, 0, 0, 0) + (-18) * mn(p, 2, 0, 2, 0, 0, 0, 0) + (9) * mn(p, 0, 0, 4, 0, 0, 0, 0));
}

#[verifier::rlimit(100)]
proof fn dt0_prod14(p: Pt)
    ensures
        ((9) * mn(p, 4, 0, 0, 0, 0, 0, 0) + (-18) * mn(p, 2, 0, 2, 0, 0, 0, 0) + (9) * mn(p, 0, 0, 4, 0, 0, 0, 0)) * ((1) * mn(p, 0, 0, 1, 0, 0, 0, 0)) == (9) * mn(p, 4, 0, 1, 0, 0, 0, 0) + (-18) * mn(p, 2, 0, 3, 0, 0, 0, 0) + (9) * mn(p, 0, 0, 5, 0, 0, 0, 0),
{
    let t0 = (9) * mn(p, 4, 0, 0, 0, 0, 0, 0);
    let t1 = (-18) * mn(p, 2, 0, 2, 0, 0, 0, 0);
    let t2 = (9) * mn(p, 0, 0, 4, 0, 0, 0, 0);
    let s0 = (1) * mn(p, 0, 0, 1, 0, 0, 0, 0);
    let pp0 = t0;
    let pp1 = pp0 + t1;
    let pp2 = pp1 + t2;
    let qq0 = s0;
    let q = qq0;
    lemma_mul_is_distributive_add_other_way(q, pp0, t1);
    lemma_mul_is_distributive_add_other_way(q, pp1, t2);
    lemma_tm(p, 9, 4, 0, 0, 0, 0, 0, 0, 1, 0, 0, 1, 0, 0, 0, 0);
    assert(t0 * s0 == (9) * mn(p, 4, 0, 1, 0, 0, 0, 0));
    assert(t0 * q == (9) * mn(p, 4, 0, 1, 0, 0, 0, 0));
    lemma_tm(p, -18, 2, 0, 2, 0, 0, 0, 0, 1, 0, 0, 1, 0, 0, 0, 0);
    assert(t1 * s0 == (-18) * mn(p, 2, 0, 3, 0, 0, 0, 0));
    assert(t1 * q == (-18) * mn(p, 2, 0, 3, 0, 0, 0, 0));
    lemma_tm(p, 9, 0, 0, 4, 0, 0, 0, 0, 1, 0, 0, 1, 0, 0, 0, 0);
    assert(t2 * s0 == (9) * mn(p, 0, 0, 5, 0, 0, 0, 0));
    assert(t2 * q == (9) * mn(p, 0, 0, 5, 0, 0, 0, 0));
    assert(pp2 * q == (9) * mn(p, 4, 0, 1, 0, 0, 0, 0) + (-18) * mn(p, 2, 0, 3, 0, 0, 0, 0) + (9) * mn(p, 0, 0, 5, 0, 0, 0, 0));
}

#[verifier::rlimit(100)]
proof fn dt0_prod15(p: Pt)
    ensures
        ((2) * mn(p, 0, 1, 1, 0, 0, 0, 0)) * ((2) * mn(p, 0, 1, 1, 0, 0, 0, 0)) == (4) * mn(p, 0, 2, 2, 0, 0, 0, 0),
{
    let t0 = (2) * mn(p, 0, 1, 1, 0, 0, 0, 0);
    let s0 = (2) * mn(p, 0, 1, 1, 0, 0, 0, 0);
    let pp0 = t0;
    let qq0 = s0;
    let q = qq0;
    lemma_tm(p, 2, 0, 1, 1, 0, 0, 0, 0, 2, 0, 1, 1, 0, 0, 0, 0);
    assert(t0 * s0 == (4) * mn(p, 0, 2, 2, 0, 0, 0, 0));
    assert(t0 * q == (4) * mn(p, 0, 2, 2, 0, 0, 0, 0));
    assert(pp0 * q == (4) * mn(p, 0, 2, 2, 0, 0, 0, 0));
}

#[verifier::rlimit(100)]
proof fn dt0_prod16(p: Pt)
    ensures
        ((1) * mn(p, 1, 0, 0, 0, 0, 0, 0)) * ((4) * mn(p, 0, 2, 2, 0, 0, 0, 0)) == (4) * mn(p, 1, 2, 2, 0, 0, 0, 0),
{
    let t0 = (1) * mn(p, 1, 0, 0, 0, 0, 0, 0);
    let s0 = (4) * mn(p, 0, 2, 2, 0, 0, 0, 0);
    let pp0 = t0;
    let qq0 = s0;
    let q = qq0;
    lemma_tm(p, 1, 1, 0, 0, 0, 0, 0, 0, 4, 0, 2, 2, 0, 0, 0, 0);
    assert(t0 * s0 == (4) * mn(p, 1, 2, 2, 0, 0, 0, 0));
    assert(t0 * q == (4) * mn(p, 1, 2, 2, 0, 0, 0, 0));
    assert(pp0 * q == (4) * mn(p, 1, 2, 2, 0, 0, 0, 0));
}

#[verifier::rlimit(100)]
proof fn dt0_prod17(p: Pt)
    ensures
        ((2) * mn(p, 0, 1, 1, 0, 0, 0, 0)) * ((9) * mn(p, 4, 0, 1, 0, 0, 0, 0) + (-18) * mn(p, 2, 0, 3, 0, 0, 0, 0) + (-8) * mn(p, 1, 2, 2, 0, 0, 0, 0) + (9) * mn(p, 0, 0, 5, 0, 0, 0, 0)) == (18) * mn(p, 4, 1, 2, 0, 0, 0, 0) + (-36) * mn(p, 2, 1, 4, 0, 0, 0, 0) + (-16) * mn(p, 1, 3, 3, 0, 0, 0, 0) + (18) * mn(p, 0, 1, 6, 0, 0, 0, 0),
{
    let t0 = (2) * mn(p, 0, 1, 1, 0, 0, 0, 0);
    let s0 = (9) * mn(p, 4, 0, 1, 0, 0, 0, 0);
    let s1 = (-18) * mn(p, 2, 0, 3, 0, 0, 0, 0);
    let s2 = (-8) * mn(p, 1, 2, 2, 0, 0, 0, 0);
    let s3 = (9) * mn(p, 0, 0, 5, 0, 0, 0, 0);
    let pp0 = t0;
    let qq0 = s0;
    let qq1 = qq0 + s1;
    let qq2 = qq1 + s2;
    let qq3 = qq2 + s3;
    let q = qq3;
    lemma_mul_is_distributive_add(t0, qq0, s1);
    lemma_mul_is_distributive_add(t0, qq1, s2);
    lemma_mul_is_distributive_add(t0, qq2, s3);
    lemma_tm(p, 2, 0, 1, 1, 0, 0, 0, 0, 9, 4, 0, 1, 0, 0, 0, 0);
    assert(t0 * s0 == (18) * mn(p, 4, 1, 2, 0, 0, 0, 0));
    lemma_tm(p, 2, 0, 1, 1, 0, 0, 0, 0, -18, 2, 0, 3, 0, 0, 0, 0);
    assert(t0 * s1 == (-36) * mn(p, 2, 1, 4, 0, 0, 0, 0));
    lemma_tm(p, 2, 0, 1, 1, 0, 0, 0, 0, -8, 1, 2, 2, 0, 0, 0, 0);
    assert(t0 * s2 == (-16) * mn(p, 1, 3, 3, 0, 0, 0, 0));
    lemma_tm(p, 2, 0, 1, 1, 0, 0, 0, 0, 9, 0, 0, 5, 0, 0, 0, 0);
    assert(t0 * s3 == (18) * mn(p, 0, 1, 6, 0, 0, 0, 0));
    assert(t0 * q == (18) * mn(p, 4, 1, 2, 0, 0, 0, 0) + (-36) * mn(p, 2, 1, 4, 0, 0, 0, 0) + (-16) * mn(p, 1, 3, 3, 0, 0, 0, 0) + (18) * mn(p, 0, 1, 6, 0, 0, 0, 0));
    assert(pp0 * q == (18) * mn(p, 4, 1, 2, 0, 0, 0, 0) + (-36) * mn(p, 2, 1, 4, 0, 0, 0, 0) + (-16) * mn(p, 1, 3, 3, 0, 0, 0, 0) + (18) * mn(p, 0, 1, 6, 0, 0, 0, 0));
}

#[verifier::rlimit(100)]
proof fn dt0_prod18(p: Pt)
    ensures
        ((4) * mn(p, 0, 2, 2, 0, 0, 0, 0)) * ((1) * mn(p, 1, 0, 0, 0, 0, 0, 0)) == (4) * mn(p, 1, 2, 2, 0, 0, 0, 0),
{
    let t0 = (4) * mn(p, 0, 2, 2, 0, 0, 0, 0);
    let s0 = (1) * mn(p, 1, 0, 0, 0, 0, 0, 0);
    let pp0 = t0;
    let qq0 = s0;
    let q = qq0;
    lemma_tm(p, 4, 0, 2, 2, 0, 0, 0, 0, 1, 1, 0, 0, 0, 0, 0, 0);
    assert(t0 * s0 == (4) * mn(p, 1, 2, 2, 0, 0, 0, 0));
    assert(t0 * q == (4) * mn(p, 1, 2, 2, 0, 0, 0, 0));
    assert(pp0 * q == (4) * mn(p, 1, 2, 2, 0, 0, 0, 0));
}

#[verifier::rlimit(100)]
proof fn dt0_prod19(p: Pt)
    ensures
        ((3) * mn(p, 2, 0, 0, 0, 0, 0, 0) + (-3) * mn(p, 0, 0, 2, 0, 0, 0, 0)) * ((-9) * mn(p, 4, 0, 1, 0, 0, 0, 0) + (18) * mn(p, 2, 0, 3, 0, 0, 0, 0) + (12) * mn(p, 1, 2, 2, 0, 0, 0, 0) + (-9) * mn(p, 0, 0, 5, 0, 0, 0, 0)) == (-27) * mn(p, 6, 0, 1, 0, 0, 0, 0) + (81) * mn(p, 4, 0, 3, 0, 0, 0, 0) + (36) * mn(p, 3, 2, 2, 0, 0, 0, 0) + (-81) * mn(p, 2, 0, 5, 0, 0, 0, 0) + (-36) * mn(p, 1, 2, 4, 0, 0, 0, 0) + (27) * mn(p, 0, 0, 7, 0, 0, 0, 0),
{
    let t0 = (3) * mn(p, 2, 0, 0, 0, 0, 0, 0);
    let t1 = (-3) * mn(p, 0, 0, 2, 0, 0, 0, 0);
    let s0 = (-9) * mn(p, 4, 0, 1, 0, 0, 0, 0);
    let s1 = (18) * mn(p, 2, 0, 3, 0, 0, 0, 0);
    let s2 = (12) * mn(p, 1, 2, 2, 0, 0, 0, 0);
    let s3 = (-9) * mn(p, 0, 0, 5, 0, 0, 0, 0);
    let pp0 = t0;
    let pp1 = pp0 + t1;
    let qq0 = s0;
    let qq1 = qq0 + s1;
    let qq2 = qq1 + s2;
    let qq3 = qq2 + s3;
    let q = qq3;
    lemma_mul_is_distributive_add_other_way(q, pp0, t1);
    lemma_mul_is_distributive_add(t0, qq0, s1);
    lemma_mul_is_distributive_add(t0, qq1, s2);
    lemma_mul_is_distributive_add(t0, qq2, s3);
    lemma_mul_is_distributive_add(t1, qq0, s1);
    lemma_mul_is_distributive_add(t1, qq1, s2);
    lemma_mul_is_distributive_add(t1, qq2, s3);
    lemma_tm(p, 3, 2, 0, 0, 0, 0, 0, 0, -9, 4, 0, 1, 0, 0, 0, 0);
    assert(t0 * s0 == (-27) * mn(p, 6, 0, 1, 0, 0, 0, 0));
    lemma_tm(p, 3, 2, 0, 0, 0, 0, 0, 0, 18, 2, 0, 3, 0, 0, 0, 0);
    assert(t0 * s1 == (54) * mn(p, 4, 0, 3, 0, 0, 0, 0));
    lemma_tm(p, 3, 2, 0, 0, 0, 0, 0, 0, 12, 1, 2, 2, 0, 0, 0, 0);
    assert(t0 * s2 == (36) * mn(p, 3, 2, 2, 0, 0, 0, 0));
    lemma_tm(p, 3, 2, 0, 0, 0, 0, 0, 0, -9, 0, 0, 5, 0, 0, 0, 0);
    assert(t0 * s3 == (-27) * mn(p, 2, 0, 5, 0, 0, 0, 0));
    assert(t0 * q == (-27) * mn(p, 6, 0, 1, 0, 0, 0, 0) + (54) * mn(p, 4, 0, 3, 0, 0, 0, 0) + (36) * mn(p, 3, 2, 2, 0, 0, 0, 0) + (-27) * mn(p, 2, 0, 5, 0, 0, 0, 0));
    lemma_tm(p, -3, 0, 0, 2, 0, 0, 0, 0, -9, 4, 0, 1, 0, 0, 0, 0);
    assert(t1 * s0 == (27) * mn(p, 4, 0, 3, 0, 0, 0, 0));
    lemma_tm(p, -3, 0, 0, 2, 0, 0, 0, 0, 18, 2, 0, 3, 0, 0, 0, 0);
    assert(t1 * s1 == (-54) * mn(p, 2, 0, 5, 0, 0, 0, 0));
    lemma_tm(p, -3, 0, 0, 2, 0, 0, 0, 0, 12, 1, 2, 2, 0, 0, 0, 0);
    assert(t1 * s2 == (-36) * mn(p, 1, 2, 4, 0, 0, 0, 0));
    lemma_tm(p, -3, 0, 0, 2, 0, 0, 0, 0, -9, 0, 0, 5, 0, 0, 0, 0);
    assert(t1 * s3 == (27) * mn(p, 0, 0, 7, 0, 0, 0, 0));
    assert(t1 * q == (27) * mn(p, 4, 0, 3, 0, 0, 0, 0) + (-54) * mn(p, 2, 0, 5, 0, 0, 0, 0) + (-36) * mn(p, 1, 2, 4, 0, 0, 0, 0) + (27) * mn(p, 0, 0, 7, 0, 0, 0, 0));
    assert(pp1 * q == (-27) * mn(p, 6, 0, 1, 0, 0, 0, 0) + (81) * mn(p, 4, 0, 3, 0, 0, 0, 0) + (36) * mn(p, 3, 2, 2, 0, 0, 0, 0) + (-81) * mn(p, 2, 0, 5, 0, 0, 0, 0) + (-36) * mn(p, 1, 2, 4, 0, 0, 0, 0) + (27) * mn(p, 0, 0, 7, 0, 0, 0, 0));
}

#[verifier::rlimit(100)]
proof fn dt0_prod20(p: Pt)
    ensures
        ((1) * mn(p, 0, 1, 0, 0, 0, 0, 0)) * ((2) * mn(p, 0, 1, 1, 0, 0, 0, 0)) == (2) * mn(p, 0, 2, 1, 0, 0, 0, 0),
{
    let t0 = (1) * mn(p, 0, 1, 0, 0, 0, 0, 0);
    let s0 = (2) * mn(p, 0, 1, 1, 0, 0, 0, 0);
    let pp0 = t0;
    let qq0 = s0;
    let q = qq0;
    lemma_tm(p, 1, 0, 1, 0, 0, 0, 0, 0, 2, 0, 1, 1, 0, 0, 0, 0);
    assert(t0 * s0 == (2) * mn(p, 0, 2, 1, 0, 0, 0, 0));
    assert(t0 * q == (2) * mn(p, 0, 2, 1, 0, 0, 0, 0));
    assert(pp0 * q == (2) * mn(p, 0, 2, 1, 0, 0, 0, 0));
}

#[verifier::rlimit(100)]
proof fn dt0_prod21(p: Pt)
    ensures
        ((2) * mn(p, 0, 2, 1, 0, 0, 0, 0)) * ((2) * mn(p, 0, 1, 1, 0, 0, 0, 0)) == (4) * mn(p, 0, 3, 2, 0, 0, 0, 0),
{
    let t0 = (2) * mn(p, 0, 2, 1, 0, 0, 0, 0);
    let s0 = (2) * mn(p, 0, 1, 1, 0, 0, 0, 0);
    let pp0 = t0;
    let qq0 = s0;
    let q = qq0;
    lemma_tm(p, 2, 0, 2, 1, 0, 0, 0, 0, 2, 0, 1, 1, 0, 0, 0, 0);
    assert(t0 * s0 == (4) * mn(p, 0, 3, 2, 0, 0, 0, 0));
    assert(t0 * q == (4) * mn(p, 0, 3, 2, 0, 0, 0, 0));
    assert(pp0 * q == (4) * mn(p, 0, 3, 2, 0, 0, 0, 0));
}

#[verifier::rlimit(100)]
proof fn dt0_prod22(p: Pt)
    ensures
        ((4) * mn(p, 0, 3, 2, 0, 0, 0, 0)) * ((2) * mn(p, 0, 1, 1, 0, 0, 0, 0)) == (8) * mn(p, 0, 4, 3, 0, 0, 0, 0),
{
    let t0 = (4) * mn(p, 0, 3, 2, 0, 0, 0, 0);
    let s0 = (2) * mn(p, 0, 1, 1, 0, 0, 0, 0);
    let pp0 = t0;
    let qq0 = s0;
    let q = qq0;
    lemma_tm(p, 4, 0, 3, 2, 0, 0, 0, 0, 2, 0, 1, 1, 0, 0, 0, 0);
    assert(t0 * s0 == (8) * mn(p, 0, 4, 3, 0, 0, 0, 0));
    assert(t0 * q == (8) * mn(p, 0, 4, 3, 0, 0, 0, 0));
    assert(pp0 * q == (8) * mn(p, 0, 4, 3, 0, 0, 0, 0));
}

#[verifier::rlimit(100)]
proof fn dt0_prod23(p: Pt)
    ensures
        ((4) * mn(p, 0, 2, 2, 0, 0, 0, 0)) * ((2) * mn(p, 0, 1, 1, 0, 0, 0, 0)) == (8) * mn(p, 0, 3, 3, 0, 0, 0, 0),
{
    let t0 = (4) * mn(p, 0, 2, 2, 0, 0, 0, 0);
    let s0 = (2) * mn(p, 0, 1, 1, 0, 0, 0, 0);
    let pp0 = t0;
    let qq0 = s0;
    let q = qq0;
    lemma_tm(p, 4, 0, 2, 2, 0, 0, 0, 0, 2, 0, 1, 1, 0, 0, 0, 0);
    assert(t0 * s0 == (8) * mn(p, 0, 3, 3, 0, 0, 0, 0));
    assert(t0 * q == (8) * mn(p, 0, 3, 3, 0, 0, 0, 0));
    assert(pp0 * q == (8) * mn(p, 0, 3, 3, 0, 0, 0, 0));
}

#[verifier::rlimit(100)]
proof fn dt0_prod24(p: Pt)
    ensures
        ((8) * mn(p, 0, 3, 3, 0, 0, 0, 0)) * ((1) * mn(p, 0, 0, 1, 0, 0, 0, 0)) == (8) * mn(p, 0, 3, 4, 0, 0, 0, 0),
{
    let t0 = (8) * mn(p, 0, 3, 3, 0, 0, 0, 0);
    let s0 = (1) * mn(p, 0, 0, 1, 0, 0, 0, 0);
    let pp0 = t0;
    let qq0 = s0;
    let q = qq0;
    lemma_tm(p, 8, 0, 3, 3, 0, 0, 0, 0, 1, 0, 0, 1, 0, 0, 0, 0);
    assert(t0 * s0 == (8) * mn(p, 0, 3, 4, 0, 0, 0, 0));
    assert(t0 * q == (8) * mn(p, 0, 3, 4, 0, 0, 0, 0));
    assert(pp0 * q == (8) * mn(p, 0, 3, 4, 0, 0, 0, 0));
}

#[verifier::rlimit(100)]
proof fn dt0_prod25(p: Pt)
    ensures
        ((1) * mn(p, 0, 0, 2, 0, 0, 0, 0)) * ((1) * mn(p, 0, 0, 1, 0, 0, 0, 0)) == (1) * mn(p, 0, 0, 3, 0, 0, 0, 0),
{
    let t0 = (1) * mn(p, 0, 0, 2, 0, 0, 0, 0);
    let s0 = (1) * mn(p, 0, 0, 1, 0, 0, 0, 0);
    let pp0 = t0;
    let qq0 = s0;
    let q = qq0;
    lemma_tm(p, 1, 0, 0, 2, 0, 0, 0, 0, 1, 0, 0, 1, 0, 0, 0, 0);
    assert(t0 * s0 == (1) * mn(p, 0, 0, 3, 0, 0, 0, 0));
    assert(t0 * q == (1) * mn(p, 0, 0, 3, 0, 0, 0, 0));
    assert(pp0 * q == (1) * mn(p, 0, 0, 3, 0, 0, 0, 0));
}

#[verifier::rlimit(100)]
proof fn dt0_prod26(p: Pt)
    ensures
        ((1) * mn(p, 0, 0, 3, 0, 0, 0, 0)) * ((18) * mn(p, 2, 1, 1, 0, 0, 0, 0) + (2) * mn(p, 1, 3, 0, 0, 0, 0, 0) + (-18) * mn(p, 1, 1, 2, 1, 0, 0, 0) + (18) * mn(p, 0, 1, 3, 0, 0, 0, 0)) == (18) * mn(p, 2, 1, 4, 0, 0, 0, 0) + (2) * mn(p, 1, 3, 3, 0, 0, 0, 0) + (-18) * mn(p, 1, 1, 5, 1, 0, 0, 0) + (18) * mn(p, 0, 1, 6, 0, 0, 0, 0),
{
    let t0 = (1) * mn(p, 0, 0, 3, 0, 0, 0, 0);
    let s0 = (18) * mn(p, 2, 1, 1, 0, 0, 0, 0);
    let s1 = (2) * mn(p, 1, 3, 0, 0, 0, 0, 0);
    let s2 = (-18) * mn(p, 1, 1, 2, 1, 0, 0, 0);
    let s3 = (18) * mn(p, 0, 1, 3, 0, 0, 0, 0);
    let pp0 = t0;
    let qq0 = s0;
    let qq1 = qq0 + s1;
    let qq2 = qq1 + s2;
    let qq3 = qq2 + s3;
    let q = qq3;
    lemma_mul_is_distributive_add(t0, qq0, s1);
    lemma_mul_is_distributive_add(t0, qq1, s2);
    lemma_mul_is_distributive_add(t0, qq2, s3);
    lemma_tm(p, 1, 0, 0, 3, 0, 0, 0, 0, 18, 2, 1, 1, 0, 0, 0, 0);
    assert(t0 * s0 == (18) * mn(p, 2, 1, 4, 0, 0, 0, 0));
    lemma_tm(p, 1, 0, 0, 3, 0, 0, 0, 0, 2, 1, 3, 0, 0, 0, 0, 0);
    assert(t0 * s1 == (2) * mn(p, 1, 3, 3, 0, 0, 0, 0));
    lemma_tm(p, 1, 0, 0, 3, 0, 0, 0, 0, -18, 1, 1, 2, 1, 0, 0, 0);
    assert(t0 * s2 == (-18) * mn(p, 1, 1, 5, 1, 0, 0, 0));
    lemma_tm(p, 1, 0, 0, 3, 0, 0, 0, 0, 18, 0, 1, 3, 0, 0, 0, 0);
    assert(t0 * s3 == (18) * mn(p, 0, 1, 6, 0, 0, 0, 0));
    assert(t0 * q == (18) * mn(p, 2, 1, 4, 0, 0, 0, 0) + (2) * mn(p, 1, 3, 3, 0, 0, 0, 0) + (-18) * mn(p, 1, 1, 5, 1, 0, 0, 0) + (18) * mn(p, 0, 1, 6, 0, 0, 0, 0));
    assert(pp0 * q == (18) * mn(p, 2, 1, 4, 0, 0, 0, 0) + (2) * mn(p, 1, 3, 3, 0, 0, 0, 0) + (-18) * mn(p, 1, 1, 5, 1, 0, 0, 0) + (18) * mn(p, 0, 1, 6, 0, 0, 0, 0));
}

#[verifier::rlimit(100)]
proof fn dt0_prod27(p: Pt)
    ensures
        ((1) * mn(p, 0, 2, 0, 0, 0, 0, 0)) * ((1) * mn(p, 0, 0, 1, 0, 0, 0, 0)) == (1) * mn(p, 0, 2, 1, 0, 0, 0, 0),
{
    let t0 = (1) * mn(p, 0, 2, 0, 0, 0, 0, 0);
    let s0 = (1) * mn(p, 0, 0, 1, 0, 0, 0, 0);
    let pp0 = t0;
    let qq0 = s0;
    let q = qq0;
    lemma_tm(p, 1, 0, 2, 0, 0, 0, 0, 0, 1, 0, 0, 1, 0, 0, 0, 0);
    assert(t0 * s0 == (1) * mn(p, 0, 2, 1, 0, 0, 0, 0));
    assert(t0 * q == (1) * mn(p, 0, 2, 1, 0, 0, 0, 0));
    assert(pp0 * q == (1) * mn(p, 0, 2, 1, 0, 0, 0, 0));
}

#[verifier::rlimit(100)]
proof fn dt0_prod28(p: Pt)
    ensures
        ((1) * mn(p, 2, 0, 0, 0, 0, 0, 0)) * ((1) * mn(p, 1, 0, 0, 0, 0, 0, 0)) == (1) * mn(p, 3, 0, 0, 0, 0, 0, 0),
{
    let t0 = (1) * mn(p, 2, 0, 0, 0, 0, 0, 0);
    let s0 = (1) * mn(p, 1, 0, 0, 0, 0, 0, 0);
    let pp0 = t0;
    let qq0 = s0;
    let q = qq0;
    lemma_tm(p, 1, 2, 0, 0, 0, 0, 0, 0, 1, 1, 0, 0, 0, 0, 0, 0);
    assert(t0 * s0 == (1) * mn(p, 3, 0, 0, 0, 0, 0, 0));
    assert(t0 * q == (1) * mn(p, 3, 0, 0, 0, 0, 0, 0));
    assert(pp0 * q == (1) * mn(p, 3, 0, 0, 0, 0, 0, 0));
}

#[verifier::rlimit(100)]
proof fn dt0_prod29(p: Pt)
    ensures
        ((1) * mn(p, 1, 0, 1, 0, 0, 0, 0)) * ((1) * mn(p, 0, 0, 1, 0, 0, 0, 0)) == (1) * mn(p, 1, 0, 2, 0, 0, 0, 0),
{
    let t0 = (1) * mn(p, 1, 0, 1, 0, 0, 0, 0);
    let s0 = (1) * mn(p, 0, 0, 1, 0, 0, 0, 0);
    let pp0 = t0;
    let qq0 = s0;
    let q = qq0;
    lemma_tm(p, 1, 1, 0, 1, 0, 0, 0, 0, 1, 0, 0, 1, 0, 0, 0, 0);
    assert(t0 * s0 == (1) * mn(p, 1, 0, 2, 0, 0, 0, 0));
    assert(t0 * q == (1) * mn(p, 1, 0, 2, 0, 0, 0, 0));
    assert(pp0 * q == (1) * mn(p, 1, 0, 2, 0, 0, 0, 0));
}

#[verifier::rlimit(100)]
proof fn dt0_prod30(p: Pt)
    ensures
        ((1) * mn(p, 0, 0, 0, 1, 0, 0, 0)) * ((1) * mn(p, 0, 0, 3, 0, 0, 0, 0)) == (1) * mn(p, 0, 0, 3, 1, 0, 0, 0),
{
    let t0 = (1) * mn(p, 0, 0, 0, 1, 0, 0, 0);
    let s0 = (1) * mn(p, 0, 0, 3, 0, 0, 0, 0);
    let pp0 = t0;
    let qq0 = s0;
    let q = qq0;
    lemma_tm(p, 1, 0, 0, 0, 1, 0, 0, 0, 1, 0, 0, 3, 0, 0, 0, 0);
    assert(t0 * s0 == (1) * mn(p, 0, 0, 3, 1, 0, 0, 0));
    assert(t0 * q == (1) * mn(p, 0, 0, 3, 1, 0, 0, 0));
    assert(pp0 * q == (1) * mn(p, 0, 0, 3, 1, 0, 0, 0));
}

#[verifier::rlimit(100)]
proof fn dt0_prod31(p: Pt)
    ensures
        ((-18) * mn(p, 1, 1, 2, 0, 0, 0, 0)) * ((-1) * mn(p, 3, 0, 0, 0, 0, 0, 0) + (3) * mn(p, 1, 0, 2, 0, 0, 0, 0) + (1) * mn(p, 0, 2, 1, 0, 0, 0, 0) + (-1) * mn(p, 0, 0, 3, 1, 0, 0, 0)) == (18) * mn(p, 4, 1, 2, 0, 0, 0, 0) + (-54) * mn(p, 2, 1, 4, 0, 0, 0, 0) + (-18) * mn(p, 1, 3, 3, 0, 0, 0, 0) + (18) * mn(p, 1, 1, 5, 1, 0, 0, 0),
{
    let t0 = (-18) * mn(p, 1, 1, 2, 0, 0, 0, 0);
    let s0 = (-1) * mn(p, 3, 0, 0, 0, 0, 0, 0);
    let s1 = (3) * mn(p, 1, 0, 2, 0, 0, 0, 0);
    let s2 = (1) * mn(p, 0, 2, 1, 0, 0, 0, 0);
    let s3 = (-1) * mn(p, 0, 0, 3, 1, 0, 0, 0);
    let pp0 = t0;
    let qq0 = s0;
    let qq1 = qq0 + s1;
    let qq2 = qq1 + s2;
    let qq3 = qq2 + s3;
    let q = qq3;
    lemma_mul_is_distributive_add(t0, qq0, s1);
    lemma_mul_is_distributive_add(t0, qq1, s2);
    lemma_mul_is_distributive_add(t0, qq2, s3);
    lemma_tm(p, -18, 1, 1, 2, 0, 0, 0, 0, -1, 3, 0, 0, 0, 0, 0, 0);
    assert(t0 * s0 == (18) * mn(p, 4, 1, 2, 0, 0, 0, 0));
    lemma_tm(p, -18, 1, 1, 2, 0, 0, 0, 0, 3, 1, 0, 2, 0, 0, 0, 0);
    assert(t0 * s1 == (-54) * mn(p, 2, 1, 4, 0, 0, 0, 0));
    lemma_tm(p, -18, 1, 1, 2, 0, 0, 0, 0, 1, 0, 2, 1, 0, 0, 0, 0);
    assert(t0 * s2 == (-18) * mn(p, 1, 3, 3, 0, 0, 0, 0));
    lemma_tm(p, -18, 1, 1, 2, 0, 0, 0, 0, -1, 0, 0, 3, 1, 0, 0, 0);
    assert(t0 * s3 == (18) * mn(p, 1, 1, 5, 1, 0, 0, 0));
    assert(t0 * q == (18) * mn(p, 4, 1, 2, 0, 0, 0, 0) + (-54) * mn(p, 2, 1, 4, 0, 0, 0, 0) + (-18) * mn(p, 1, 3, 3, 0, 0, 0, 0) + (18) * mn(p, 1, 1, 5, 1, 0, 0, 0));
    assert(pp0 * q == (18) * mn(p, 4, 1, 2, 0, 0, 0, 0) + (-54) * mn(p, 2, 1, 4, 0, 0, 0, 0) + (-18) * mn(p, 1, 3, 3, 0, 0, 0, 0) + (18) * mn(p, 1, 1, 5, 1, 0, 0, 0));
}

#[verifier::rlimit(100)]
pub(crate) proof fn lemma_double_tangent0_identity(x: int, y: int, z: int, b: int)
    ensures
        ({
            let p = Pt { v0: x, v1: y, v2: z, v3: b, v4: 0, v5: 0, v6: 0 };
            tangent_double(x, y, z).0 - z * z * z * rcb_double(x, y, z, b).0 == dt0_cof0(p) * curve_poly(x, y, z, b)
        }),
{
    let p = Pt { v0: x, v1: y, v2: z, v3: b, v4: 0, v5: 0, v6: 0 };
    lemma_vars(p);
    assert(x == (1) * mn(p, 1, 0, 0, 0, 0, 0, 0));
    assert(y == (1) * mn(p, 0, 1, 0, 0, 0, 0, 0));
    assert(z == (1) * mn(p, 0, 0, 1, 0, 0, 0, 0));
    assert(b == (1) * mn(p, 0, 0, 0, 1, 0, 0, 0));
    dt0_prod0(p);
    let n0 = x * x;
    assert(n0 == (1) * mn(p, 2, 0, 0, 0, 0, 0, 0));
    dt0_prod1(p);
    let n1 = y * y;
    assert(n1 == (1) * mn(p, 0, 2, 0, 0, 0, 0, 0));
    dt0_prod2(p);
    let n2 = z * z;
    assert(n2 == (1) * mn(p, 0, 0, 2, 0, 0, 0, 0));
    dt0_prod3(p);
    let n3 = x * y;
    assert(n3 == (1) * mn(p, 1, 1, 0, 0, 0, 0, 0));
    let n4 = 2 * n3;
    assert(n4 == (2) * mn(p, 1, 1, 0, 0, 0, 0, 0));
    dt0_prod4(p);
    let n5 = y * z;
    assert(n5 == (1) * mn(p, 0, 1, 1, 0, 0, 0, 0));
    let n6 = 2 * n5;
    assert(n6 == (2) * mn(p, 0, 1, 1, 0, 0, 0, 0));
    dt0_prod5(p);
    let n7 = x * z;
    assert(n7 == (1) * mn(p, 1, 0, 1, 0, 0, 0, 0));
    let n8 = 2 * n7;
    assert(n8 == (2) * mn(p, 1, 0, 1, 0, 0, 0, 0));
    dt0_prod6(p);
    let n9 = b * n2;
    assert(n9 == (1) * mn(p, 0, 0, 2, 1, 0, 0, 0));
    let n10 = n9 - n8;
    assert(n10 == (-2) * mn(p, 1, 0, 1, 0, 0, 0, 0) + (1) * mn(p, 0, 0, 2, 1, 0, 0, 0));
    let n11 = 3 * n10;
    assert(n11 == (-6) * mn(p, 1, 0, 1, 0, 0, 0, 0) + (3) * mn(p, 0, 0, 2, 1, 0, 0, 0));
    let n12 = n1 - n11;
    assert(n12 == (6) * mn(p, 1, 0, 1, 0, 0, 0, 0) + (1) * mn(p, 0, 2, 0, 0, 0, 0, 0) + (-3) * mn(p, 0, 0, 2, 1, 0, 0, 0));
    let n13 = n1 + n11;
    assert(n13 == (-6) * mn(p, 1, 0, 1, 0, 0, 0, 0) + (1) * mn(p, 0, 2, 0, 0, 0, 0, 0) + (3) * mn(p, 0, 0, 2, 1, 0, 0, 0));
    dt0_prod7(p);
    let n14 = b * n8;
    assert(n14 == (2) * mn(p, 1, 0, 1, 1, 0, 0, 0));
    let n15 = 3 * n2;
    assert(n15 == (3) * mn(p, 0, 0, 2, 0, 0, 0, 0));
    let n16 = n14 - n15;
    assert(n16 == (2) * mn(p, 1, 0, 1, 1, 0, 0, 0) + (-3) * mn(p, 0, 0, 2, 0, 0, 0, 0));
    let n17 = n16 - n0;
    assert(n17 == (-1) * mn(p, 2, 0, 0, 0, 0, 0, 0) + (2) * mn(p, 1, 0, 1, 1, 0, 0, 0) + (-3) * mn(p, 0, 0, 2, 0, 0, 0, 0));
    let n18 = 3 * n17;
    assert(n18 == (-3) * mn(p, 2, 0, 0, 0, 0, 0, 0) + (6) * mn(p, 1, 0, 1, 1, 0, 0, 0) + (-9) * mn(p, 0, 0, 2, 0, 0, 0, 0));
    let n19 = 3 * n0;
    assert(n19 == (3) * mn(p, 2, 0, 0, 0, 0, 0, 0));
    let n20 = n19 - n15;
    assert(n20 == (3) * mn(p, 2, 0, 0, 0, 0, 0, 0) + (-3) * mn(p, 0, 0, 2, 0, 0, 0, 0));
    dt0_prod8(p);
    let n21 = n12 * n4;
    assert(n21 == (12) * mn(p, 2, 1, 1, 0, 0, 0, 0) + (2) * mn(p, 1, 3, 0, 0, 0, 0, 0) + (-6) * mn(p, 1, 1, 2, 1, 0, 0, 0));
    dt0_prod9(p);
    let n22 = n18 * n6;
    assert(n22 == (-6) * mn(p, 2, 1, 1, 0, 0, 0, 0) + (12) * mn(p, 1, 1, 2, 1, 0, 0, 0) + (-18) * mn(p, 0, 1, 3, 0, 0, 0, 0));
    let n23 = n21 - n22;
    assert(n23 == (18) * mn(p, 2, 1, 1, 0, 0, 0, 0) + (2) * mn(p, 1, 3, 0, 0, 0, 0, 0) + (-18) * mn(p, 1, 1, 2, 1, 0, 0, 0) + (18) * mn(p, 0, 1, 3, 0, 0, 0, 0));
    dt0_prod10(p);
    let n24 = n13 * n12;
    assert(n24 == (-36) * mn(p, 2, 0, 2, 0, 0, 0, 0) + (36) * mn(p, 1, 0, 3, 1, 0, 0, 0) + (1) * mn(p, 0, 4, 0, 0, 0, 0, 0) + (-9) * mn(p, 0, 0, 4, 2, 0, 0, 0));
    dt0_prod11(p);
    let n25 = n20 * n18;
    assert(n25 == (-9) * mn(p, 4, 0, 0, 0, 0, 0, 0) + (18) * mn(p, 3, 0, 1, 1, 0, 0, 0) + (-18) * mn(p, 2, 0, 2, 0, 0, 0, 0) + (-18) * mn(p, 1, 0, 3, 1, 0, 0, 0) + (27) * mn(p, 0, 0, 4, 0, 0, 0, 0));
    let n26 = n24 + n25;
    assert(n26 == (-9) * mn(p, 4, 0, 0, 0, 0, 0, 0) + (18) * mn(p, 3, 0, 1, 1, 0, 0, 0) + (-54) * mn(p, 2, 0, 2, 0, 0, 0, 0) + (18) * mn(p, 1, 0, 3, 1, 0, 0, 0) + (1) * mn(p, 0, 4, 0, 0, 0, 0, 0) + (-9) * mn(p, 0, 0, 4, 2, 0, 0, 0) + (27) * mn(p, 0, 0, 4, 0, 0, 0, 0));
    dt0_prod12(p);
    let n27 = n6 * n1;
    assert(n27 == (2) * mn(p, 0, 3, 1, 0, 0, 0, 0));
    let n28 = 4 * n27;
    assert(n28 == (8) * mn(p, 0, 3, 1, 0, 0, 0, 0));
    dt0_prod13(p);
    let n29 = n20 * n20;
    assert(n29 == (9) * mn(p, 4, 0, 0, 0, 0, 0, 0) + (-18) * mn(p, 2, 0, 2, 0, 0, 0, 0) + (9) * mn(p, 0, 0, 4, 0, 0, 0, 0));
    dt0_prod14(p);
    let n30 = n29 * z;
    assert(n30 == (9) * mn(p, 4, 0, 1, 0, 0, 0, 0) + (-18) * mn(p, 2, 0, 3, 0, 0, 0, 0) + (9) * mn(p, 0, 0, 5, 0, 0, 0, 0));
    dt0_prod15(p);
    let n31 = n6 * n6;
    assert(n31 == (4) * mn(p, 0, 2, 2, 0, 0, 0, 0));
    dt0_prod16(p);
    let n32 = x * n31;
    assert(n32 == (4) * mn(p, 1, 2, 2, 0, 0, 0, 0));
    let n33 = 2 * n32;
    assert(n33 == (8) * mn(p, 1, 2, 2, 0, 0, 0, 0));
    let n34 = n30 - n33;
    assert(n34 == (9) * mn(p, 4, 0, 1, 0, 0, 0, 0) + (-18) * mn(p, 2, 0, 3, 0, 0, 0, 0) + (-8) * mn(p, 1, 2, 2, 0, 0, 0, 0) + (9) * mn(p, 0, 0, 5, 0, 0, 0, 0));
    dt0_prod17(p);
    let n35 = n6 * n34;
    assert(n35 == (18) * mn(p, 4, 1, 2, 0, 0, 0, 0) + (-36) * mn(p, 2, 1, 4, 0, 0, 0, 0) + (-16) * mn(p, 1, 3, 3, 0, 0, 0, 0) + (18) * mn(p, 0, 1, 6, 0, 0, 0, 0));
    dt0_prod18(p);
    let n36 = n31 * x;
    assert(n36 == (4) * mn(p, 1, 2, 2, 0, 0, 0, 0));
    let n37 = n36 - n34;
    assert(n37 == (-9) * mn(p, 4, 0, 1, 0, 0, 0, 0) + (18) * mn(p, 2, 0, 3, 0, 0, 0, 0) + (12) * mn(p, 1, 2, 2, 0, 0, 0, 0) + (-9) * mn(p, 0, 0, 5, 0, 0, 0, 0));
    dt0_prod19(p);
    let n38 = n20 * n37;
    assert(n38 == (-27) * mn(p, 6, 0, 1, 0, 0, 0, 0) + (81) * mn(p, 4, 0, 3, 0, 0, 0, 0) + (36) * mn(p, 3, 2, 2, 0, 0, 0, 0) + (-81) * mn(p, 2, 0, 5, 0, 0, 0, 0) + (-36) * mn(p, 1, 2, 4, 0, 0, 0, 0) + (27) * mn(p, 0, 0, 7, 0, 0, 0, 0));
    dt0_prod20(p);
    let n39 = y * n6;
    assert(n39 == (2) * mn(p, 0, 2, 1, 0, 0, 0, 0));
    dt0_prod21(p);
    let n40 = n39 * n6;
    assert(n40 == (4) * mn(p, 0, 3, 2, 0, 0, 0, 0));
    dt0_prod22(p);
    let n41 = n40 * n6;
    assert(n41 == (8) * mn(p, 0, 4, 3, 0, 0, 0, 0));
    let n42 = n38 - n41;
    assert(n42 == (-27) * mn(p, 6, 0, 1, 0, 0, 0, 0) + (81) * mn(p, 4, 0, 3, 0, 0, 0, 0) + (36) * mn(p, 3, 2, 2, 0, 0, 0, 0) + (-81) * mn(p, 2, 0, 5, 0, 0, 0, 0) + (-36) * mn(p, 1, 2, 4, 0, 0, 0, 0) + (-8) * mn(p, 0, 4, 3, 0, 0, 0, 0) + (27) * mn(p, 0, 0, 7, 0, 0, 0, 0));
    dt0_prod23(p);
    let n43 = n31 * n6;
    assert(n43 == (8) * mn(p, 0, 3, 3, 0, 0, 0, 0));
    dt0_prod24(p);
    let n44 = n43 * z;
    assert(n44 == (8) * mn(p, 0, 3, 4, 0, 0, 0, 0));
    dt0_prod25(p);
    let n45 = n2 * z;
    assert(n45 == (1) * mn(p, 0, 0, 3, 0, 0, 0, 0));
    dt0_prod26(p);
    let n46 = n45 * n23;
    assert(n46 == (18) * mn(p, 2, 1, 4, 0, 0, 0, 0) + (2) * mn(p, 1, 3, 3, 0, 0, 0, 0) + (-18) * mn(p, 1, 1, 5, 1, 0, 0, 0) + (18) * mn(p, 0, 1, 6, 0, 0, 0, 0));
    let n47 = n35 - n46;
    assert(n47 == (18) * mn(p, 4, 1, 2, 0, 0, 0, 0) + (-54) * mn(p, 2, 1, 4, 0, 0, 0, 0) + (-18) * mn(p, 1, 3, 3, 0, 0, 0, 0) + (18) * mn(p, 1, 1, 5, 1, 0, 0, 0));
    dt0_prod27(p);
    let n48 = n1 * z;
    assert(n48 == (1) * mn(p, 0, 2, 1, 0, 0, 0, 0));
    dt0_prod28(p);
    let n49 = n0 * x;
    assert(n49 == (1) * mn(p, 3, 0, 0, 0, 0, 0, 0));
    dt0_prod29(p);
    let n50 = n7 * z;
    assert(n50 == (1) * mn(p, 1, 0, 2, 0, 0, 0, 0));
    let n51 = 3 * n50;
    assert(n51 == (3) * mn(p, 1, 0, 2, 0, 0, 0, 0));
    let n52 = n49 - n51;
    assert(n52 == (1) * mn(p, 3, 0, 0, 0, 0, 0, 0) + (-3) * mn(p, 1, 0, 2, 0, 0, 0, 0));
    dt0_prod30(p);
    let n53 = b * n45;
    assert(n53 == (1) * mn(p, 0, 0, 3, 1, 0, 0, 0));
    let n54 = n52 + n53;
    assert(n54 == (1) * mn(p, 3, 0, 0, 0, 0, 0, 0) + (-3) * mn(p, 1, 0, 2, 0, 0, 0, 0) + (1) * mn(p, 0, 0, 3, 1, 0, 0, 0));
    let n55 = n48 - n54;
    assert(n55 == (-1) * mn(p, 3, 0, 0, 0, 0, 0, 0) + (3) * mn(p, 1, 0, 2, 0, 0, 0, 0) + (1) * mn(p, 0, 2, 1, 0, 0, 0, 0) + (-1) * mn(p, 0, 0, 3, 1, 0, 0, 0));
    dt0_prod31(p);
    assert(n47 == dt0_cof0(p) * n55);
}

pub(crate) open spec fn dt1_cof0(p: Pt) -> int {
    (27) * mn(p, 3, 0, 1, 0, 0, 0, 0) + (-9) * mn(p, 1, 0, 3, 0, 0, 0, 0) + (-9) * mn(p, 0, 2, 2, 0, 0, 0, 0) + (-9) * mn(p, 0, 0, 4, 1, 0, 0, 0)
}

#[verifier::rlimit(100)]
proof fn dt1_prod0(p: Pt)
    ensures
        ((1) * mn(p, 1, 0, 0, 0, 0, 0, 0)) * ((1) * mn(p, 1, 0, 0, 0, 0, 0, 0)) == (1) * mn(p, 2, 0, 0, 0, 0, 0, 0),
{
    let t0 = (1) * mn(p, 1, 0, 0, 0, 0, 0, 0);
    let s0 = (1) * mn(p, 1, 0, 0, 0, 0, 0, 0);
    let pp0 = t0;
    let qq0 = s0;
    let q = qq0;
    lemma_tm(p, 1, 1, 0, 0, 0, 0, 0, 0, 1, 1, 0, 0, 0, 0, 0, 0);
    assert(t0 * s0 == (1) * mn(p, 2, 0, 0, 0, 0, 0, 0));
    assert(t0 * q == (1) * mn(p, 2, 0, 0, 0, 0, 0, 0));
    assert(pp0 * q == (1) * mn(p, 2, 0, 0, 0, 0, 0, 0));
}

#[verifier::rlimit(100)]
proof fn dt1_prod1(p: Pt)
    ensures
        ((1) * mn(p, 0, 1, 0, 0, 0, 0, 0)) * ((1) * mn(p, 0, 1, 0, 0, 0, 0, 0)) == (1) * mn(p, 0, 2, 0, 0, 0, 0, 0),
{
    let t0 = (1) * mn(p, 0, 1, 0, 0, 0, 0, 0);
    let s0 = (1) * mn(p, 0, 1, 0, 0, 0, 0, 0);
    let pp0 = t0;
    let qq0 = s0;
    let q = qq0;
    lemma_tm(p, 1, 0, 1, 0, 0, 0, 0, 0, 1, 0, 1, 0, 0, 0, 0, 0);
    assert(t0 * s0 == (1) * mn(p, 0, 2, 0, 0, 0, 0, 0));
    assert(t0 * q == (1) * mn(p, 0, 2, 0, 0, 0, 0, 0));
    assert(pp0 * q == (1) * mn(p, 0, 2, 0, 0, 0, 0, 0));
}

#[verifier::rlimit(100)]
proof fn dt1_prod2(p: Pt)
    ensures
        ((1) * mn(p, 0, 0, 1, 0, 0, 0, 0)) * ((1) * mn(p, 0, 0, 1, 0, 0, 0, 0)) == (1) * mn(p, 0, 0, 2, 0, 0, 0, 0),
{
    let t0 = (1) * mn(p, 0, 0, 1, 0, 0, 0, 0);
    let s0 = (1) * mn(p, 0, 0, 1, 0, 0, 0, 0);
    let pp0 = t0;
    let qq0 = s0;
    let q = qq0;
    lemma_tm(p, 1, 0, 0, 1, 0, 0, 0, 0, 1, 0, 0, 1, 0, 0, 0, 0);
    assert(t0 * s0 == (1) * mn(p, 0, 0, 2, 0, 0, 0, 0));
    assert(t0 * q == (1) * mn(p, 0, 0, 2, 0, 0, 0, 0));
    assert(pp0 * q == (1) * mn(p, 0, 0, 2, 0, 0, 0, 0));
}

#[verifier::rlimit(100)]
proof fn dt1_prod3(p: Pt)
    ensures
        ((1) * mn(p, 1, 0, 0, 0, 0, 0, 0)) * ((1) * mn(p, 0, 1, 0, 0, 0, 0, 0)) == (1) * mn(p, 1, 1, 0, 0, 0, 0, 0),
{
    let t0 = (1) * mn(p, 1, 0, 0, 0, 0, 0, 0);
    let s0 = (1) * mn(p, 0, 1, 0, 0, 0, 0, 0);
    let pp0 = t0;
    let qq0 = s0;
    let q = qq0;
    lemma_tm(p, 1, 1, 0, 0, 0, 0, 0, 0, 1, 0, 1, 0, 0, 0, 0, 0);
    assert(t0 * s0 == (1) * mn(p, 1, 1, 0, 0, 0, 0, 0));
    assert(t0 * q == (1) * mn(p, 1, 1, 0, 0, 0, 0, 0));
    assert(pp0 * q == (1) * mn(p, 1, 1, 0, 0, 0, 0, 0));
}

#[verifier::rlimit(100)]
proof fn dt1_prod4(p: Pt)
    ensures
        ((1) * mn(p, 0, 1, 0, 0, 0, 0, 0)) * ((1) * mn(p, 0, 0, 1, 0, 0, 0, 0)) == (1) * mn(p, 0, 1, 1, 0, 0, 0, 0),
{
    let t0 = (1) * mn(p, 0, 1, 0, 0, 0, 0, 0);
    let s0 = (1) * mn(p, 0, 0, 1, 0, 0, 0, 0);
    let pp0 = t0;
    let qq0 = s0;
    let q = qq0;
    lemma_tm(p, 1, 0, 1, 0, 0, 0, 0, 0, 1, 0, 0, 1, 0, 0, 0, 0);
    assert(t0 * s0 == (1) * mn(p, 0, 1, 1, 0, 0, 0, 0));
    assert(t0 * q == (1) * mn(p, 0, 1, 1, 0, 0, 0, 0));
    assert(pp0 * q == (1) * mn(p, 0, 1, 1, 0, 0, 0, 0));
}

#[verifier::rlimit(100)]
proof fn dt1_prod5(p: Pt)
    ensures
        ((1) * mn(p, 1, 0, 0, 0, 0, 0, 0)) * ((1) * mn(p, 0, 0, 1, 0, 0, 0, 0)) == (1) * mn(p, 1, 0, 1, 0, 0, 0, 0),
{
    let t0 = (1) * mn(p, 1, 0, 0, 0, 0, 0, 0);
    let s0 = (1) * mn(p, 0, 0, 1, 0, 0, 0, 0);
    let pp0 = t0;
    let qq0 = s0;
    let q = qq0;
    lemma_tm(p, 1, 1, 0, 0, 0, 0, 0, 0, 1, 0, 0, 1, 0, 0, 0, 0);
    assert(t0 * s0 == (1) * mn(p, 1, 0, 1, 0, 0, 0, 0));
    assert(t0 * q == (1) * mn(p, 1, 0, 1, 0, 0, 0, 0));
    assert(pp0 * q == (1) * mn(p, 1, 0, 1, 0, 0, 0, 0));
}

#[verifier::rlimit(100)]
proof fn dt1_prod6(p: Pt)
    ensures
        ((1) * mn(p, 0, 0, 0, 1, 0, 0, 0)) * ((1) * mn(p, 0, 0, 2, 0, 0, 0, 0)) == (1) * mn(p, 0, 0, 2, 1, 0, 0, 0),
{
    let t0 = (1) * mn(p, 0, 0, 0, 1, 0, 0, 0);
    let s0 = (1) * mn(p, 0, 0, 2, 0, 0, 0, 0);
    let pp0 = t0;
    let qq0 = s0;
    let q = qq0;
    lemma_tm(p, 1, 0, 0, 0, 1, 0, 0, 0, 1, 0, 0, 2, 0, 0, 0, 0);
    assert(t0 * s0 == (1) * mn(p, 0, 0, 2, 1, 0, 0, 0));
    assert(t0 * q == (1) * mn(p, 0, 0, 2, 1, 0, 0, 0));
    assert(pp0 * q == (1) * mn(p, 0, 0, 2, 1, 0, 0, 0));
}

#[verifier::rlimit(100)]
proof fn dt1_prod7(p: Pt)
    ensures
        ((1) * mn(p, 0, 0, 0, 1, 0, 0, 0)) * ((2) * mn(p, 1, 0, 1, 0, 0, 0, 0)) == (2) * mn(p, 1, 0, 1, 1, 0, 0, 0),
{
    let t0 = (1) * mn(p, 0, 0, 0, 1, 0, 0, 0);
    let s0 = (2) * mn(p, 1, 0, 1, 0, 0, 0, 0);
    let pp0 = t0;
    let qq0 = s0;
    let q = qq0;
    lemma_tm(p, 1, 0, 0, 0, 1, 0, 0, 0, 2, 1, 0, 1, 0, 0, 0, 0);
    assert(t0 * s0 == (2) * mn(p, 1, 0, 1, 1, 0, 0, 0));
    assert(t0 * q == (2) * mn(p, 1, 0, 1, 1, 0, 0, 0));
    assert(pp0 * q == (2) * mn(p, 1, 0, 1, 1, 0, 0, 0));
}

#[verifier::rlimit(100)]
proof fn dt1_prod8(p: Pt)
    ensures
        ((6) * mn(p, 1, 0, 1, 0, 0, 0, 0) + (1) * mn(p, 0, 2, 0, 0, 0, 0, 0) + (-3) * mn(p, 0, 0, 2, 1, 0, 0, 0)) * ((2) * mn(p, 1, 1, 0, 0, 0, 0, 0)) == (12) * mn(p, 2, 1, 1, 0, 0, 0, 0) + (2) * mn(p, 1, 3, 0, 0, 0, 0, 0) + (-6) * mn(p, 1, 1, 2, 1, 0, 0, 0),
{
    let t0 = (6) * mn(p, 1, 0, 1, 0, 0, 0, 0);
    let t1 = (1) * mn(p, 0, 2, 0, 0, 0, 0, 0);
    let t2 = (-3) * mn(p, 0, 0, 2, 1, 0, 0, 0);
    let s0 = (2) * mn(p, 1, 1, 0, 0, 0, 0, 0);
    let pp0 = t0;
    let pp1 = pp0 + t1;
    let pp2 = pp1 + t2;
    let qq0 = s0;
    let q = qq0;
    lemma_mul_is_distributive_add_other_way(q, pp0, t1);
    lemma_mul_is_distributive_add_other_way(q, pp1, t2);
    lemma_tm(p, 6, 1, 0, 1, 0, 0, 0, 0, 2, 1, 1, 0, 0, 0, 0, 0);
    assert(t0 * s0 == (12) * mn(p, 2, 1, 1, 0, 0, 0, 0));
    assert(t0 * q == (12) * mn(p, 2, 1, 1, 0, 0, 0, 0));
    lemma_tm(p, 1, 0, 2, 0, 0, 0, 0, 0, 2, 1, 1, 0, 0, 0, 0, 0);
    assert(t1 * s0 == (2) * mn(p, 1, 3, 0, 0, 0, 0, 0));
    assert(t1 * q == (2) * mn(p, 1, 3, 0, 0, 0, 0, 0));
    lemma_tm(p, -3, 0, 0, 2, 1, 0, 0, 0, 2, 1, 1, 0, 0, 0, 0, 0);
    assert(t2 * s0 == (-6) * mn(p, 1, 1, 2, 1, 0, 0, 0));
    assert(t2 * q == (-6) * mn(p, 1, 1, 2, 1, 0, 0, 0));
    assert(pp2 * q == (12) * mn(p, 2, 1, 1, 0, 0, 0, 0) + (2) * mn(p, 1, 3, 0, 0, 0, 0, 0) + (-6) * mn(p, 1, 1, 2, 1, 0, 0, 0));
}

#[verifier::rlimit(100)]
proof fn dt1_prod9(p: Pt)
    ensures
        ((-3) * mn(p, 2, 0, 0, 0, 0, 0, 0) + (6) * mn(p, 1, 0, 1, 1, 0, 0, 0) + (-9) * mn(p, 0, 0, 2, 0, 0, 0, 0)) * ((2) * mn(p, 0, 1, 1, 0, 0, 0, 0)) == (-6) * mn(p, 2, 1, 1, 0, 0, 0, 0) + (12) * mn(p, 1, 1, 2, 1, 0, 0, 0) + (-18) * mn(p, 0, 1, 3, 0, 0, 0, 0),
{
    let t0 = (-3) * mn(p, 2, 0, 0, 0, 0, 0, 0);
    let t1 = (6) * mn(p, 1, 0, 1, 1, 0, 0, 0);
    let t2 = (-9) * mn(p, 0, 0, 2, 0, 0, 0, 0);
    let s0 = (2) * mn(p, 0, 1, 1, 0, 0, 0, 0);
    let pp0 = t0;
    let pp1 = pp0 + t1;
    let pp2 = pp1 + t2;
    let qq0 = s0;
    let q = qq0;
    lemma_mul_is_distributive_add_other_way(q, pp0, t1);
    lemma_mul_is_distributive_add_other_way(q, pp1, t2);
    lemma_tm(p, -3, 2, 0, 0, 0, 0, 0, 0, 2, 0, 1, 1, 0, 0, 0, 0);
    assert(t0 * s0 == (-6) * mn(p, 2, 1, 1, 0, 0, 0, 0));
    assert(t0 * q == (-6) * mn(p, 2, 1, 1, 0, 0, 0, 0));
    lemma_tm(p, 6, 1, 0, 1, 1, 0, 0, 0, 2, 0, 1, 1, 0, 0, 0, 0);
    assert(t1 * s0 == (12) * mn(p, 1, 1, 2, 1, 0, 0, 0));
    assert(t1 * q == (12) * mn(p, 1, 1, 2, 1, 0, 0, 0));
    lemma_tm(p, -9, 0, 0, 2, 0, 0, 0, 0, 2, 0, 1, 1, 0, 0, 0, 0);
    assert(t2 * s0 == (-18) * mn(p, 0, 1, 3, 0, 0, 0, 0));
    assert(t2 * q == (-18) * mn(p, 0, 1, 3, 0, 0, 0, 0));
    assert(pp2 * q == (-6) * mn(p, 2, 1, 1, 0, 0, 0, 0) + (12) * mn(p, 1, 1, 2, 1, 0, 0, 0) + (-18) * mn(p, 0, 1, 3, 0, 0, 0, 0));
}

#[verifier::rlimit(100)]
proof fn dt1_prod10(p: Pt)
    ensures
        ((-6) * mn(p, 1, 0, 1, 0, 0, 0, 0) + (1) * mn(p, 0, 2, 0, 0, 0, 0, 0) + (3) * mn(p, 0, 0, 2, 1, 0, 0, 0)) * ((6) * mn(p, 1, 0, 1, 0, 0, 0, 0) + (1) * mn(p, 0, 2, 0, 0, 0, 0, 0) + (-3) * mn(p, 0, 0, 2, 1, 0, 0, 0)) == (-36) * mn(p, 2, 0, 2, 0, 0, 0, 0) + (36) * mn(p, 1, 0, 3, 1, 0, 0, 0) + (1) * mn(p, 0, 4, 0, 0, 0, 0, 0) + (-9) * mn(p, 0, 0, 4, 2, 0, 0, 0),
{
    let t0 = (-6) * mn(p, 1, 0, 1, 0, 0, 0, 0);
    let t1 = (1) * mn(p, 0, 2, 0, 0, 0, 0, 0);
    let t2 = (3) * mn(p, 0, 0, 2, 1, 0, 0, 0);
    let s0 = (6) * mn(p, 1, 0, 1, 0, 0, 0, 0);
    let s1 = (1) * mn(p, 0, 2, 0, 0, 0, 0, 0);
    let s2 = (-3) * mn(p, 0, 0, 2, 1, 0, 0, 0);
    let pp0 = t0;
    let pp1 = pp0 + t1;
    let pp2 = pp1 + t2;
    let qq0 = s0;
    let qq1 = qq0 + s1;
    let qq2 = qq1 + s2;
    let q = qq2;
    lemma_mul_is_distributive_add_other_way(q, pp0, t1);
    lemma_mul_is_distributive_add_other_way(q, pp1, t2);
    lemma_mul_is_distributive_add(t0, qq0, s1);
    lemma_mul_is_distributive_add(t0, qq1, s2);
    lemma_mul_is_distributive_add(t1, qq0, s1);
    lemma_mul_is_distributive_add(t1, qq1, s2);
    lemma_mul_is_distributive_add(t2, qq0, s1);
    lemma_mul_is_distributive_add(t2, qq1, s2);
    lemma_tm(p, -6, 1, 0, 1, 0, 0, 0, 0, 6, 1, 0, 1, 0, 0, 0, 0);
    assert(t0 * s0 == (-36) * mn(p, 2, 0, 2, 0, 0, 0, 0));
    lemma_tm(p, -6, 1, 0, 1, 0, 0, 0, 0, 1, 0, 2, 0, 0, 0, 0, 0);
    assert(t0 * s1 == (-6) * mn(p, 1, 2, 1, 0, 0, 0, 0));
    lemma_tm(p, -6, 1, 0, 1, 0, 0, 0, 0, -3, 0, 0, 2, 1, 0, 0, 0);
    assert(t0 * s2 == (18) * mn(p, 1, 0, 3, 1, 0, 0, 0));
    assert(t0 * q == (-36) * mn(p, 2, 0, 2, 0, 0, 0, 0) + (-6) * mn(p, 1, 2, 1, 0, 0, 0, 0) + (18) * mn(p, 1, 0, 3, 1, 0, 0, 0));
    lemma_tm(p, 1, 0, 2, 0, 0, 0, 0, 0, 6, 1, 0, 1, 0, 0, 0, 0);
    assert(t1 * s0 == (6) * mn(p, 1, 2, 1, 0, 0, 0, 0));
    lemma_tm(p, 1, 0, 2, 0, 0, 0, 0, 0, 1, 0, 2, 0, 0, 0, 0, 0);
    assert(t1 * s1 == (1) * mn(p, 0, 4, 0, 0, 0, 0, 0));
    lemma_tm(p, 1, 0, 2, 0, 0, 0, 0, 0, -3, 0, 0, 2, 1, 0, 0, 0);
    assert(t1 * s2 == (-3) * mn(p, 0, 2, 2, 1, 0, 0, 0));
    assert(t1 * q == (6) * mn(p, 1, 2, 1, 0, 0, 0, 0) + (1) * mn(p, 0, 4, 0, 0, 0, 0, 0) + (-3) * mn(p, 0, 2, 2, 1, 0, 0, 0));
    lemma_tm(p, 3, 0, 0, 2, 1, 0, 0, 0, 6, 1, 0, 1, 0, 0, 0, 0);
    assert(t2 * s0 == (18) * mn(p, 1, 0, 3, 1, 0, 0, 0));
    lemma_tm(p, 3, 0, 0, 2, 1, 0, 0, 0, 1, 0, 2, 0, 0, 0, 0, 0);
    assert(t2 * s1 == (3) * mn(p, 0, 2, 2, 1, 0, 0, 0));
    lemma_tm(p, 3, 0, 0, 2, 1, 0, 0, 0, -3, 0, 0, 2, 1, 0, 0, 0);
    assert(t2 * s2 == (-9) * mn(p, 0, 0, 4, 2, 0, 0, 0));
    assert(t2 * q == (18) * mn(p, 1, 0, 3, 1, 0, 0, 0) + (3) * mn(p, 0, 2, 2, 1, 0, 0, 0) + (-9) * mn(p, 0, 0, 4, 2, 0, 0, 0));
    assert(pp2 * q == (-36) * mn(p, 2, 0, 2, 0, 0, 0, 0) + (36) * mn(p, 1, 0, 3, 1, 0, 0, 0) + (1) * mn(p, 0, 4, 0, 0, 0, 0, 0) + (-9) * mn(p, 0, 0, 4, 2, 0, 0, 0));
}

#[verifier::rlimit(100)]
proof fn dt1_prod11(p: Pt)
    ensures
        ((3) * mn(p, 2, 0, 0, 0, 0, 0, 0) + (-3) * mn(p, 0, 0, 2, 0, 0, 0, 0)) * ((-3) * mn(p, 2, 0, 0, 0, 0, 0, 0) + (6) * mn(p, 1, 0, 1, 1, 0, 0, 0) + (-9) * mn(p, 0, 0, 2, 0, 0, 0, 0)) == (-9) * mn(p, 4, 0, 0, 0, 0, 0, 0) + (18) * mn(p, 3, 0, 1, 1, 0, 0, 0) + (-18) * mn(p, 2, 0, 2, 0, 0, 0, 0) + (-18) * mn(p, 1, 0, 3, 1, 0, 0, 0) + (27) * mn(p, 0, 0, 4, 0, 0, 0, 0),
{
    let t0 = (3) * mn(p, 2, 0, 0, 0, 0, 0, 0);
    let t1 = (-3) * mn(p, 0, 0, 2, 0, 0, 0, 0);
    let s0 = (-3) * mn(p, 2, 0, 0, 0, 0, 0, 0);
    let s1 = (6) * mn(p, 1, 0, 1, 1, 0, 0, 0);
    let s2 = (-9) * mn(p, 0, 0, 2, 0, 0, 0, 0);
    let pp0 = t0;
    let pp1 = pp0 + t1;
    let qq0 = s0;
    let qq1 = qq0 + s1;
    let qq2 = qq1 + s2;
    let q = qq2;
    lemma_mul_is_distributive_add_other_way(q, pp0, t1);
    lemma_mul_is_distributive_add(t0, qq0, s1);
    lemma_mul_is_distributive_add(t0, qq1, s2);
    lemma_mul_is_distributive_add(t1, qq0, s1);
    lemma_mul_is_distributive_add(t1, qq1, s2);
    lemma_tm(p, 3, 2, 0, 0, 0, 0, 0, 0, -3, 2, 0, 0, 0, 0, 0, 0);
    assert(t0 * s0 == (-9) * mn(p, 4, 0, 0, 0, 0, 0, 0));
    lemma_tm(p, 3, 2, 0, 0, 0, 0, 0, 0, 6, 1, 0, 1, 1, 0, 0, 0);
    assert(t0 * s1 == (18) * mn(p, 3, 0, 1, 1, 0, 0, 0));
    lemma_tm(p, 3, 2, 0, 0, 0, 0, 0, 0, -9, 0, 0, 2, 0, 0, 0, 0);
    assert(t0 * s2 == (-27) * mn(p, 2, 0, 2, 0, 0, 0, 0));
    assert(t0 * q == (-9) * mn(p, 4, 0, 0, 0, 0, 0, 0) + (18) * mn(p, 3, 0, 1, 1, 0, 0, 0) + (-27) * mn(p, 2, 0, 2, 0, 0, 0, 0));
    lemma_tm(p, -3, 0, 0, 2, 0, 0, 0, 0, -3, 2, 0, 0, 0, 0, 0, 0);
    assert(t1 * s0 == (9) * mn(p, 2, 0, 2, 0, 0, 0, 0));
    lemma_tm(p, -3, 0, 0, 2, 0, 0, 0, 0, 6, 1, 0, 1, 1, 0, 0, 0);
    assert(t1 * s1 == (-18) * mn(p, 1, 0, 3, 1, 0, 0, 0));
    lemma_tm(p, -3, 0, 0, 2, 0, 0, 0, 0, -9, 0, 0, 2, 0, 0, 0, 0);
    assert(t1 * s2 == (27) * mn(p, 0, 0, 4, 0, 0, 0, 0));
    assert(t1 * q == (9) * mn(p, 2, 0, 2, 0, 0, 0, 0) + (-18) * mn(p, 1, 0, 3, 1, 0, 0, 0) + (27) * mn(p, 0, 0, 4, 0, 0, 0, 0));
    assert(pp1 * q == (-9) * mn(p, 4, 0, 0, 0, 0, 0, 0) + (18) * mn(p, 3, 0, 1, 1, 0, 0, 0) + (-18) * mn(p, 2, 0, 2, 0, 0, 0, 0) + (-18) * mn(p, 1, 0, 3, 1, 0, 0, 0) + (27) * mn(p, 0, 0, 4, 0, 0, 0, 0));
}

#[verifier::rlimit(100)]
proof fn dt1_prod12(p: Pt)
    ensures
        ((2) * mn(p, 0, 1, 1, 0, 0, 0, 0)) * ((1) * mn(p, 0, 2, 0, 0, 0, 0, 0)) == (2) * mn(p, 0, 3, 1, 0, 0, 0, 0),
{
    let t0 = (2) * mn(p, 0, 1, 1, 0, 0, 0, 0);
    let s0 = (1) * mn(p, 0, 2, 0, 0, 0, 0, 0);
    let pp0 = t0;
    let qq0 = s0;
    let q = qq0;
    lemma_tm(p, 2, 0, 1, 1, 0, 0, 0, 0, 1, 0, 2, 0, 0, 0, 0, 0);
    assert(t0 * s0 == (2) * mn(p, 0, 3, 1, 0, 0, 0, 0));
    assert(t0 * q == (2) * mn(p, 0, 3, 1, 0, 0, 0, 0));
    assert(pp0 * q == (2) * mn(p, 0, 3, 1, 0, 0, 0, 0));
}

#[verifier::rlimit(100)]
proof fn dt1_prod13(p: Pt)
    ensures
        ((3) * mn(p, 2, 0, 0, 0, 0, 0, 0) + (-3) * mn(p, 0, 0, 2, 0, 0, 0, 0)) * ((3) * mn(p, 2, 0, 0, 0, 0, 0, 0) + (-3) * mn(p, 0, 0, 2, 0, 0, 0, 0)) == (9) * mn(p, 4, 0, 0, 0, 0, 0, 0) + (-18) * mn(p, 2, 0, 2, 0, 0, 0, 0) + (9) * mn(p, 0, 0, 4, 0, 0, 0, 0),
{
    let t0 = (3) * mn(p, 2, 0, 0, 0, 0, 0, 0);
    let t1 = (-3) * mn(p, 0, 0, 2, 0, 0, 0, 0);
    let s0 = (3) * mn(p, 2, 0, 0, 0, 0, 0, 0);
    let s1 = (-3) * mn(p, 0, 0, 2, 0, 0, 0, 0);
    let pp0 = t0;
    let pp1 = pp0 + t1;
    let qq0 = s0;
    let qq1 = qq0 + s1;
    let q = qq1;
    lemma_mul_is_distributive_add_other_way(q, pp0, t1);
    lemma_mul_is_distributive_add(t0, qq0, s1);
    lemma_mul_is_distributive_add(t1, qq0, s1);
    lemma_tm(p, 3, 2, 0, 0, 0, 0, 0, 0, 3, 2, 0, 0, 0, 0, 0, 0);
    assert(t0 * s0 == (9) * mn(p, 4, 0, 0, 0, 0, 0, 0));
    lemma_tm(p, 3, 2, 0, 0, 0, 0, 0, 0, -3, 0, 0, 2, 0, 0, 0, 0);
    assert(t0 * s1 == (-9) * mn(p, 2, 0, 2, 0, 0, 0, 0));
    assert(t0 * q == (9) * mn(p, 4, 0, 0, 0, 0, 0, 0) + (-9) * mn(p, 2, 0, 2, 0, 0, 0, 0));
    lemma_tm(p, -3, 0, 0, 2, 0, 0, 0, 0, 3, 2, 0, 0, 0, 0, 0, 0);
    assert(t1 * s0 == (-9) * mn(p, 2, 0, 2, 0, 0, 0, 0));
    lemma_tm(p, -3, 0, 0, 2, 0, 0, 0, 0, -3, 0, 0, 2, 0, 0, 0, 0);
    assert(t1 * s1 == (9) * mn(p, 0, 0, 4, 0, 0, 0, 0));
    assert(t1 * q == (-9) * mn(p, 2, 0, 2, 0, 0, 0, 0) + (9) * mn(p, 0, 0, 4, 0, 0, 0, 0));
    assert(pp1 * q == (9) * mn(p, 4, 0, 0, 0, 0, 0, 0) + (-18) * mn(p, 2, 0, 2, 0, 0, 0, 0) + (9) * mn(p, 0, 0, 4, 0, 0, 0, 0));
}

#[verifier::rlimit(100)]
proof fn dt1_prod14(p: Pt)
    ensures
        ((9) * mn(p, 4, 0, 0, 0, 0, 0, 0) + (-18) * mn(p, 2, 0, 2, 0, 0, 0, 0) + (9) * mn(p, 0, 0, 4, 0, 0, 0, 0)) * ((1) * mn(p, 0, 0, 1, 0, 0, 0, 0)) == (9) * mn(p, 4, 0, 1, 0, 0, 0, 0) + (-18) * mn(p, 2, 0, 3, 0, 0, 0, 0) + (9) * mn(p, 0, 0, 5, 0, 0, 0, 0),
{
    let t0 = (9) * mn(p, 4, 0, 0, 0, 0, 0, 0);
    let t1 = (-18) * mn(p, 2, 0, 2, 0, 0, 0, 0);
    let t2 = (9) * mn(p, 0, 0, 4, 0, 0, 0, 0);
    let s0 = (1) * mn(p, 0, 0, 1, 0, 0, 0, 0);
    let pp0 = t0;
    let pp1 = pp0 + t1;
    let pp2 = pp1 + t2;
    let qq0 = s0;
    let q = qq0;
    lemma_mul_is_distributive_add_other_way(q, pp0, t1);
    lemma_mul_is_distributive_add_other_way(q, pp1, t2);
    lemma_tm(p, 9, 4, 0, 0, 0, 0, 0, 0, 1, 0, 0, 1, 0, 0, 0, 0);
    assert(t0 * s0 == (9) * mn(p, 4, 0, 1, 0, 0, 0, 0));
    assert(t0 * q == (9) * mn(p, 4, 0, 1, 0, 0, 0, 0));
    lemma_tm(p, -18, 2, 0, 2, 0, 0, 0, 0, 1, 0, 0, 1, 0, 0, 0, 0);
    assert(t1 * s0 == (-18) * mn(p, 2, 0, 3, 0, 0, 0, 0));
    assert(t1 * q == (-18) * mn(p, 2, 0, 3, 0, 0, 0, 0));
    lemma_tm(p, 9, 0, 0, 4, 0, 0, 0, 0, 1, 0, 0, 1, 0, 0, 0, 0);
    assert(t2 * s0 == (9) * mn(p, 0, 0, 5, 0, 0, 0, 0));
    assert(t2 * q == (9) * mn(p, 0, 0, 5, 0, 0, 0, 0));
    assert(pp2 * q == (9) * mn(p, 4, 0, 1, 0, 0, 0, 0) + (-18) * mn(p, 2, 0, 3, 0, 0, 0, 0) + (9) * mn(p, 0, 0, 5, 0, 0, 0, 0));
}

#[verifier::rlimit(100)]
proof fn dt1_prod15(p: Pt)
    ensures
        ((2) * mn(p, 0, 1, 1, 0, 0, 0, 0)) * ((2) * mn(p, 0, 1, 1, 0, 0, 0, 0)) == (4) * mn(p, 0, 2, 2, 0, 0, 0, 0),
{
    let t0 = (2) * mn(p, 0, 1, 1, 0, 0, 0, 0);
    let s0 = (2) * mn(p, 0, 1, 1, 0, 0, 0, 0);
    let pp0 = t0;
    let qq0 = s0;
    let q = qq0;
    lemma_tm(p, 2, 0, 1, 1, 0, 0, 0, 0, 2, 0, 1, 1, 0, 0, 0, 0);
    assert(t0 * s0 == (4) * mn(p, 0, 2, 2, 0, 0, 0, 0));
    assert(t0 * q == (4) * mn(p, 0, 2, 2, 0, 0, 0, 0));
    assert(pp0 * q == (4) * mn(p, 0, 2, 2, 0, 0, 0, 0));
}

#[verifier::rlimit(100)]
proof fn dt1_prod16(p: Pt)
    ensures
        ((1) * mn(p, 1, 0, 0, 0, 0, 0, 0)) * ((4) * mn(p, 0, 2, 2, 0, 0, 0, 0)) == (4) * mn(p, 1, 2, 2, 0, 0, 0, 0),
{
    let t0 = (1) * mn(p, 1, 0, 0, 0, 0, 0, 0);
    let s0 = (4) * mn(p, 0, 2, 2, 0, 0, 0, 0);
    let pp0 = t0;
    let qq0 = s0;
    let q = qq0;
    lemma_tm(p, 1, 1, 0, 0, 0, 0, 0, 0, 4, 0, 2, 2, 0, 0, 0, 0);
    assert(t0 * s0 == (4) * mn(p, 1, 2, 2, 0, 0, 0, 0));
    assert(t0 * q == (4) * mn(p, 1, 2, 2, 0, 0, 0, 0));
    assert(pp0 * q == (4) * mn(p, 1, 2, 2, 0, 0, 0, 0));
}

#[verifier::rlimit(100)]
proof fn dt1_prod17(p: Pt)
    ensures
        ((2) * mn(p, 0, 1, 1, 0, 0, 0, 0)) * ((9) * mn(p, 4, 0, 1, 0, 0, 0, 0) + (-18) * mn(p, 2, 0, 3, 0, 0, 0, 0) + (-8) * mn(p, 1, 2, 2, 0, 0, 0, 0) + (9) * mn(p, 0, 0, 5, 0, 0, 0, 0)) == (18) * mn(p, 4, 1, 2, 0, 0, 0, 0) + (-36) * mn(p, 2, 1, 4, 0, 0, 0, 0) + (-16) * mn(p, 1, 3, 3, 0, 0, 0, 0) + (18) * mn(p, 0, 1, 6, 0, 0, 0, 0),
{
    let t0 = (2) * mn(p, 0, 1, 1, 0, 0, 0, 0);
    let s0 = (9) * mn(p, 4, 0, 1, 0, 0, 0, 0);
    let s1 = (-18) * mn(p, 2, 0, 3, 0, 0, 0, 0);
    let s2 = (-8) * mn(p, 1, 2, 2, 0, 0, 0, 0);
    let s3 = (9) * mn(p, 0, 0, 5, 0, 0, 0, 0);
    let pp0 = t0;
    let qq0 = s0;
    let qq1 = qq0 + s1;
    let qq2 = qq1 + s2;
    let qq3 = qq2 + s3;
    let q = qq3;
    lemma_mul_is_distributive_add(t0, qq0, s1);
    lemma_mul_is_distributive_add(t0, qq1, s2);
    lemma_mul_is_distributive_add(t0, qq2, s3);
    lemma_tm(p, 2, 0, 1, 1, 0, 0, 0, 0, 9, 4, 0, 1, 0, 0, 0, 0);
    assert(t0 * s0 == (18) * mn(p, 4, 1, 2, 0, 0, 0, 0));
    lemma_tm(p, 2, 0, 1, 1, 0, 0, 0, 0, -18, 2, 0, 3, 0, 0, 0, 0);
    assert(t0 * s1 == (-36) * mn(p, 2, 1, 4, 0, 0, 0, 0));
    lemma_tm(p, 2, 0, 1, 1, 0, 0, 0, 0, -8, 1, 2, 2, 0, 0, 0, 0);
    assert(t0 * s2 == (-16) * mn(p, 1, 3, 3, 0, 0, 0, 0));
    lemma_tm(p, 2, 0, 1, 1, 0, 0, 0, 0, 9, 0, 0, 5, 0, 0, 0, 0);
    assert(t0 * s3 == (18) * mn(p, 0, 1, 6, 0, 0, 0, 0));
    assert(t0 * q == (18) * mn(p, 4, 1, 2, 0, 0, 0, 0) + (-36) * mn(p, 2, 1, 4, 0, 0, 0, 0) + (-16) * mn(p, 1, 3, 3, 0, 0, 0, 0) + (18) * mn(p, 0, 1, 6, 0, 0, 0, 0));
    assert(pp0 * q == (18) * mn(p, 4, 1, 2, 0, 0, 0, 0) + (-36) * mn(p, 2, 1, 4, 0, 0, 0, 0) + (-16) * mn(p, 1, 3, 3, 0, 0, 0, 0) + (18) * mn(p, 0, 1, 6, 0, 0, 0, 0));
}

#[verifier::rlimit(100)]
proof fn dt1_prod18(p: Pt)
    ensures
        ((4) * mn(p, 0, 2, 2, 0, 0, 0, 0)) * ((1) * mn(p, 1, 0, 0, 0, 0, 0, 0)) == (4) * mn(p, 1, 2, 2, 0, 0, 0, 0),
{
    let t0 = (4) * mn(p, 0, 2, 2, 0, 0, 0, 0);
    let s0 = (1) * mn(p, 1, 0, 0, 0, 0, 0, 0);
    let pp0 = t0;
    let qq0 = s0;
    let q = qq0;
    lemma_tm(p, 4, 0, 2, 2, 0, 0, 0, 0, 1, 1, 0, 0, 0, 0, 0, 0);
    assert(t0 * s0 == (4) * mn(p, 1, 2, 2, 0, 0, 0, 0));
    assert(t0 * q == (4) * mn(p, 1, 2, 2, 0, 0, 0, 0));
    assert(pp0 * q == (4) * mn(p, 1, 2, 2, 0, 0, 0, 0));
}

#[verifier::rlimit(100)]
proof fn dt1_prod19(p: Pt)
    ensures
        ((3) * mn(p, 2, 0, 0, 0, 0, 0, 0) + (-3) * mn(p, 0, 0, 2, 0, 0, 0, 0)) * ((-9) * mn(p, 4, 0, 1, 0, 0, 0, 0) + (18) * mn(p, 2, 0, 3, 0, 0, 0, 0) + (12) * mn(p, 1, 2, 2, 0, 0, 0, 0) + (-9) * mn(p, 0, 0, 5, 0, 0, 0, 0)) == (-27) * mn(p, 6, 0, 1, 0, 0, 0, 0) + (81) * mn(p, 4, 0, 3, 0, 0, 0, 0) + (36) * mn(p, 3, 2, 2, 0, 0, 0, 0) + (-81) * mn(p, 2, 0, 5, 0, 0, 0, 0) + (-36) * mn(p, 1, 2, 4, 0, 0, 0, 0) + (27) * mn(p, 0, 0, 7, 0, 0, 0, 0),
{
    let t0 = (3) * mn(p, 2, 0, 0, 0, 0, 0, 0);
    let t1 = (-3) * mn(p, 0, 0, 2, 0, 0, 0, 0);
    let s0 = (-9) * mn(p, 4, 0, 1, 0, 0, 0, 0);
    let s1 = (18) * mn(p, 2, 0, 3, 0, 0, 0, 0);
    let s2 = (12) * mn(p, 1, 2, 2, 0, 0, 0, 0);
    let s3 = (-9) * mn(p, 0, 0, 5, 0, 0, 0, 0);
    let pp0 = t0;
    let pp1 = pp0 + t1;
    let qq0 = s0;
    let qq1 = qq0 + s1;
    let qq2 = qq1 + s2;
    let qq3 = qq2 + s3;
    let q = qq3;
    lemma_mul_is_distributive_add_other_way(q, pp0, t1);
    lemma_mul_is_distributive_add(t0, qq0, s1);
    lemma_mul_is_distributive_add(t0, qq1, s2);
    lemma_mul_is_distributive_add(t0, qq2, s3);
    lemma_mul_is_distributive_add(t1, qq0, s1);
    lemma_mul_is_distributive_add(t1, qq1, s2);
    lemma_mul_is_distributive_add(t1, qq2, s3);
    lemma_tm(p, 3, 2, 0, 0, 0, 0, 0, 0, -9, 4, 0, 1, 0, 0, 0, 0);
    assert(t0 * s0 == (-27) * mn(p, 6, 0, 1, 0, 0, 0, 0));
    lemma_tm(p, 3, 2, 0, 0, 0, 0, 0, 0, 18, 2, 0, 3, 0, 0, 0, 0);
    assert(t0 * s1 == (54) * mn(p, 4, 0, 3, 0, 0, 0, 0));
    lemma_tm(p, 3, 2, 0, 0, 0, 0, 0, 0, 12, 1, 2, 2, 0, 0, 0, 0);
    assert(t0 * s2 == (36) * mn(p, 3, 2, 2, 0, 0, 0, 0));
    lemma_tm(p, 3, 2, 0, 0, 0, 0, 0, 0, -9, 0, 0, 5, 0, 0, 0, 0);
    assert(t0 * s3 == (-27) * mn(p, 2, 0, 5, 0, 0, 0, 0));
    assert(t0 * q == (-27) * mn(p, 6, 0, 1, 0, 0, 0, 0) + (54) * mn(p, 4, 0, 3, 0, 0, 0, 0) + (36) * mn(p, 3, 2, 2, 0, 0, 0, 0) + (-27) * mn(p, 2, 0, 5, 0, 0, 0, 0));
    lemma_tm(p, -3, 0, 0, 2, 0, 0, 0, 0, -9, 4, 0, 1, 0, 0, 0, 0);
    assert(t1 * s0 == (27) * mn(p, 4, 0, 3, 0, 0, 0, 0));
    lemma_tm(p, -3, 0, 0, 2, 0, 0, 0, 0, 18, 2, 0, 3, 0, 0, 0, 0);
    assert(t1 * s1 == (-54) * mn(p, 2, 0, 5, 0, 0, 0, 0));
    lemma_tm(p, -3, 0, 0, 2, 0, 0, 0, 0, 12, 1, 2, 2, 0, 0, 0, 0);
    assert(t1 * s2 == (-36) * mn(p, 1, 2, 4, 0, 0, 0, 0));
    lemma_tm(p, -3, 0, 0, 2, 0, 0, 0, 0, -9, 0, 0, 5, 0, 0, 0, 0);
    assert(t1 * s3 == (27) * mn(p, 0, 0, 7, 0, 0, 0, 0));
    assert(t1 * q == (27) * mn(p, 4, 0, 3, 0, 0, 0, 0) + (-54) * mn(p, 2, 0, 5, 0, 0, 0, 0) + (-36) * mn(p, 1, 2, 4, 0, 0, 0, 0) + (27) * mn(p, 0, 0, 7, 0, 0, 0, 0));
    assert(pp1 * q == (-27) * mn(p, 6, 0, 1, 0, 0, 0, 0) + (81) * mn(p, 4, 0, 3, 0, 0, 0, 0) + (36) * mn(p, 3, 2, 2, 0, 0, 0, 0) + (-81) * mn(p, 2, 0, 5, 0, 0, 0, 0) + (-36) * mn(p, 1, 2, 4, 0, 0, 0, 0) + (27) * mn(p, 0, 0, 7, 0, 0, 0, 0));
}

#[verifier::rlimit(100)]
proof fn dt1_prod20(p: Pt)
    ensures
        ((1) * mn(p, 0, 1, 0, 0, 0, 0, 0)) * ((2) * mn(p, 0, 1, 1, 0, 0, 0, 0)) == (2) * mn(p, 0, 2, 1, 0, 0, 0, 0),
{
    let t0 = (1) * mn(p, 0, 1, 0, 0, 0, 0, 0);
    let s0 = (2) * mn(p, 0, 1, 1, 0, 0, 0, 0);
    let pp0 = t0;
    let qq0 = s0;
    let q = qq0;
    lemma_tm(p, 1, 0, 1, 0, 0, 0, 0, 0, 2, 0, 1, 1, 0, 0, 0, 0);
    assert(t0 * s0 == (2) * mn(p, 0, 2, 1, 0, 0, 0, 0));
    assert(t0 * q == (2) * mn(p, 0, 2, 1, 0, 0, 0, 0));
    assert(pp0 * q == (2) * mn(p, 0, 2, 1, 0, 0, 0, 0));
}

#[verifier::rlimit(100)]
proof fn dt1_prod21(p: Pt)
    ensures
        ((2) * mn(p, 0, 2, 1, 0, 0, 0, 0)) * ((2) * mn(p, 0, 1, 1, 0, 0, 0, 0)) == (4) * mn(p, 0, 3, 2, 0, 0, 0, 0),
{
    let t0 = (2) * mn(p, 0, 2, 1, 0, 0, 0, 0);
    let s0 = (2) * mn(p, 0, 1, 1, 0, 0, 0, 0);
    let pp0 = t0;
    let qq0 = s0;
    let q = qq0;
    lemma_tm(p, 2, 0, 2, 1, 0, 0, 0, 0, 2, 0, 1, 1, 0, 0, 0, 0);
    assert(t0 * s0 == (4) * mn(p, 0, 3, 2, 0, 0, 0, 0));
    assert(t0 * q == (4) * mn(p, 0, 3, 2, 0, 0, 0, 0));
    assert(pp0 * q == (4) * mn(p, 0, 3, 2, 0, 0, 0, 0));
}

#[verifier::rlimit(100)]
proof fn dt1_prod22(p: Pt)
    ensures
        ((4) * mn(p, 0, 3, 2, 0, 0, 0, 0)) * ((2) * mn(p, 0, 1, 1, 0, 0, 0, 0)) == (8) * mn(p, 0, 4, 3, 0, 0, 0, 0),
{
    let t0 = (4) * mn(p, 0, 3, 2, 0, 0, 0, 0);
    let s0 = (2) * mn(p, 0, 1, 1, 0, 0, 0, 0);
    let pp0 = t0;
    let qq0 = s0;
    let q = qq0;
    lemma_tm(p, 4, 0, 3, 2, 0, 0, 0, 0, 2, 0, 1, 1, 0, 0, 0, 0);
    assert(t0 * s0 == (8) * mn(p, 0, 4, 3, 0, 0, 0, 0));
    assert(t0 * q == (8) * mn(p, 0, 4, 3, 0, 0, 0, 0));
    assert(pp0 * q == (8) * mn(p, 0, 4, 3, 0, 0, 0, 0));
}

#[verifier::rlimit(100)]
proof fn dt1_prod23(p: Pt)
    ensures
        ((4) * mn(p, 0, 2, 2, 0, 0, 0, 0)) * ((2) * mn(p, 0, 1, 1, 0, 0, 0, 0)) == (8) * mn(p, 0, 3, 3, 0, 0, 0, 0),
{
    let t0 = (4) * mn(p, 0, 2, 2, 0, 0, 0, 0);
    let s0 = (2) * mn(p, 0, 1, 1, 0, 0, 0, 0);
    let pp0 = t0;
    let qq0 = s0;
    let q = qq0;
    lemma_tm(p, 4, 0, 2, 2, 0, 0, 0, 0, 2, 0, 1, 1, 0, 0, 0, 0);
    assert(t0 * s0 == (8) * mn(p, 0, 3, 3, 0, 0, 0, 0));
    assert(t0 * q == (8) * mn(p, 0, 3, 3, 0, 0, 0, 0));
    assert(pp0 * q == (8) * mn(p, 0, 3, 3, 0, 0, 0, 0));
}

#[verifier::rlimit(100)]
proof fn dt1_prod24(p: Pt)
    ensures
        ((8) * mn(p, 0, 3, 3, 0, 0, 0, 0)) * ((1) * mn(p, 0, 0, 1, 0, 0, 0, 0)) == (8) * mn(p, 0, 3, 4, 0, 0, 0, 0),
{
    let t0 = (8) * mn(p, 0, 3, 3, 0, 0, 0, 0);
    let s0 = (1) * mn(p, 0, 0, 1, 0, 0, 0, 0);
    let pp0 = t0;
    let qq0 = s0;
    let q = qq0;
    lemma_tm(p, 8, 0, 3, 3, 0, 0, 0, 0, 1, 0, 0, 1, 0, 0, 0, 0);
    assert(t0 * s0 == (8) * mn(p, 0, 3, 4, 0, 0, 0, 0));
    assert(t0 * q == (8) * mn(p, 0, 3, 4, 0, 0, 0, 0));
    assert(pp0 * q == (8) * mn(p, 0, 3, 4, 0, 0, 0, 0));
}

#[verifier::rlimit(100)]
proof fn dt1_prod25(p: Pt)
    ensures
        ((1) * mn(p, 0, 0, 2, 0, 0, 0, 0)) * ((1) * mn(p, 0, 0, 1, 0, 0, 0, 0)) == (1) * mn(p, 0, 0, 3, 0, 0, 0, 0),
{
    let t0 = (1) * mn(p, 0, 0, 2, 0, 0, 0, 0);
    let s0 = (1) * mn(p, 0, 0, 1, 0, 0, 0, 0);
    let pp0 = t0;
    let qq0 = s0;
    let q = qq0;
    lemma_tm(p, 1, 0, 0, 2, 0, 0, 0, 0, 1, 0, 0, 1, 0, 0, 0, 0);
    assert(t0 * s0 == (1) * mn(p, 0, 0, 3, 0, 0, 0, 0));
    assert(t0 * q == (1) * mn(p, 0, 0, 3, 0, 0, 0, 0));
    assert(pp0 * q == (1) * mn(p, 0, 0, 3, 0, 0, 0, 0));
}

#[verifier::rlimit(100)]
proof fn dt1_prod26(p: Pt)
    ensures
        ((1) * mn(p, 0, 0, 3, 0, 0, 0, 0)) * ((-9) * mn(p, 4, 0, 0, 0, 0, 0, 0) + (18) * mn(p, 3, 0, 1, 1, 0, 0, 0) + (-54) * mn(p, 2, 0, 2, 0, 0, 0, 0) + (18) * mn(p, 1, 0, 3, 1, 0, 0, 0) + (1) * mn(p, 0, 4, 0, 0, 0, 0, 0) + (-9) * mn(p, 0, 0, 4, 2, 0, 0, 0) + (27) * mn(p, 0, 0, 4, 0, 0, 0, 0)) == (-9) * mn(p, 4, 0, 3, 0, 0, 0, 0) + (18) * mn(p, 3, 0, 4, 1, 0, 0, 0) + (-54) * mn(p, 2, 0, 5, 0, 0, 0, 0) + (18) * mn(p, 1, 0, 6, 1, 0, 0, 0) + (1) * mn(p, 0, 4, 3, 0, 0, 0, 0) + (-9) * mn(p, 0, 0, 7, 2, 0, 0, 0) + (27) * mn(p, 0, 0, 7, 0, 0, 0, 0),
{
    let t0 = (1) * mn(p, 0, 0, 3, 0, 0, 0, 0);
    let s0 = (-9) * mn(p, 4, 0, 0, 0, 0, 0, 0);
    let s1 = (18) * mn(p, 3, 0, 1, 1, 0, 0, 0);
    let s2 = (-54) * mn(p, 2, 0, 2, 0, 0, 0, 0);
    let s3 = (18) * mn(p, 1, 0, 3, 1, 0, 0, 0);
    let s4 = (1) * mn(p, 0, 4, 0, 0, 0, 0, 0);
    let s5 = (-9) * mn(p, 0, 0, 4, 2, 0, 0, 0);
    let s6 = (27) * mn(p, 0, 0, 4, 0, 0, 0, 0);
    let pp0 = t0;
    let qq0 = s0;
    let qq1 = qq0 + s1;
    let qq2 = qq1 + s2;
    let qq3 = qq2 + s3;
    let qq4 = qq3 + s4;
    let qq5 = qq4 + s5;
    let qq6 = qq5 + s6;
    let q = qq6;
    lemma_mul_is_distributive_add(t0, qq0, s1);
    lemma_mul_is_distributive_add(t0, qq1, s2);
    lemma_mul_is_distributive_add(t0, qq2, s3);
    lemma_mul_is_distributive_add(t0, qq3, s4);
    lemma_mul_is_distributive_add(t0, qq4, s5);
    lemma_mul_is_distributive_add(t0, qq5, s6);
    lemma_tm(p, 1, 0, 0, 3, 0, 0, 0, 0, -9, 4, 0, 0, 0, 0, 0, 0);
    assert(t0 * s0 == (-9) * mn(p, 4, 0, 3, 0, 0, 0, 0));
    lemma_tm(p, 1, 0, 0, 3, 0, 0, 0, 0, 18, 3, 0, 1, 1, 0, 0, 0);
    assert(t0 * s1 == (18) * mn(p, 3, 0, 4, 1, 0, 0, 0));
    lemma_tm(p, 1, 0, 0, 3, 0, 0, 0, 0, -54, 2, 0, 2, 0, 0, 0, 0);
    assert(t0 * s2 == (-54) * mn(p, 2, 0, 5, 0, 0, 0, 0));
    lemma_tm(p, 1, 0, 0, 3, 0, 0, 0, 0, 18, 1, 0, 3, 1, 0, 0, 0);
    assert(t0 * s3 == (18) * mn(p, 1, 0, 6, 1, 0, 0, 0));
    lemma_tm(p, 1, 0, 0, 3, 0, 0, 0, 0, 1, 0, 4, 0, 0, 0, 0, 0);
    assert(t0 * s4 == (1) * mn(p, 0, 4, 3, 0, 0, 0, 0));
    lemma_tm(p, 1, 0, 0, 3, 0, 0, 0, 0, -9, 0, 0, 4, 2, 0, 0, 0);
    assert(t0 * s5 == (-9) * mn(p, 0, 0, 7, 2, 0, 0, 0));
    lemma_tm(p, 1, 0, 0, 3, 0, 0, 0, 0, 27, 0, 0, 4, 0, 0, 0, 0);
    assert(t0 * s6 == (27) * mn(p, 0, 0, 7, 0, 0, 0, 0));
    assert(t0 * q == (-9) * mn(p, 4, 0, 3, 0, 0, 0, 0) + (18) * mn(p, 3, 0, 4, 1, 0, 0, 0) + (-54) * mn(p, 2, 0, 5, 0, 0, 0, 0) + (18) * mn(p, 1, 0, 6, 1, 0, 0, 0) + (1) * mn(p, 0, 4, 3, 0, 0, 0, 0) + (-9) * mn(p, 0, 0, 7, 2, 0, 0, 0) + (27) * mn(p, 0, 0, 7, 0, 0, 0, 0));
    assert(pp0 * q == (-9) * mn(p, 4, 0, 3, 0, 0, 0, 0) + (18) * mn(p, 3, 0, 4, 1, 0, 0, 0) + (-54) * mn(p, 2, 0, 5, 0, 0, 0, 0) + (18) * mn(p, 1, 0, 6, 1, 0, 0, 0) + (1) * mn(p, 0, 4, 3, 0, 0, 0, 0) + (-9) * mn(p, 0, 0, 7, 2, 0, 0, 0) + (27) * mn(p, 0, 0, 7, 0, 0, 0, 0));
}

#[verifier::rlimit(100)]
proof fn dt1_prod27(p: Pt)
    ensures
        ((1) * mn(p, 0, 2, 0, 0, 0, 0, 0)) * ((1) * mn(p, 0, 0, 1, 0, 0, 0, 0)) == (1) * mn(p, 0, 2, 1, 0, 0, 0, 0),
{
    let t0 = (1) * mn(p, 0, 2, 0, 0, 0, 0, 0);
    let s0 = (1) * mn(p, 0, 0, 1, 0, 0, 0, 0);
    let pp0 = t0;
    let qq0 = s0;
    let q = qq0;
    lemma_tm(p, 1, 0, 2, 0, 0, 0, 0, 0, 1, 0, 0, 1, 0, 0, 0, 0);
    assert(t0 * s0 == (1) * mn(p, 0, 2, 1, 0, 0, 0, 0));
    assert(t0 * q == (1) * mn(p, 0, 2, 1, 0, 0, 0, 0));
    assert(pp0 * q == (1) * mn(p, 0, 2, 1, 0, 0, 0, 0));
}

#[verifier::rlimit(100)]
proof fn dt1_prod28(p: Pt)
    ensures
        ((1) * mn(p, 2, 0, 0, 0, 0, 0, 0)) * ((1) * mn(p, 1, 0, 0, 0, 0, 0, 0)) == (1) * mn(p, 3, 0, 0, 0, 0, 0, 0),
{
    let t0 = (1) * mn(p, 2, 0, 0, 0, 0, 0, 0);
    let s0 = (1) * mn(p, 1, 0, 0, 0, 0, 0, 0);
    let pp0 = t0;
    let qq0 = s0;
    let q = qq0;
    lemma_tm(p, 1, 2, 0, 0, 0, 0, 0, 0, 1, 1, 0, 0, 0, 0, 0, 0);
    assert(t0 * s0 == (1) * mn(p, 3, 0, 0, 0, 0, 0, 0));
    assert(t0 * q == (1) * mn(p, 3, 0, 0, 0, 0, 0, 0));
    assert(pp0 * q == (1) * mn(p, 3, 0, 0, 0, 0, 0, 0));
}

#[verifier::rlimit(100)]
proof fn dt1_prod29(p: Pt)
    ensures
        ((1) * mn(p, 1, 0, 1, 0, 0, 0, 0)) * ((1) * mn(p, 0, 0, 1, 0, 0, 0, 0)) == (1) * mn(p, 1, 0, 2, 0, 0, 0, 0),
{
    let t0 = (1) * mn(p, 1, 0, 1, 0, 0, 0, 0);
    let s0 = (1) * mn(p, 0, 0, 1, 0, 0, 0, 0);
    let pp0 = t0;
    let qq0 = s0;
    let q = qq0;
    lemma_tm(p, 1, 1, 0, 1, 0, 0, 0, 0, 1, 0, 0, 1, 0, 0, 0, 0);
    assert(t0 * s0 == (1) * mn(p, 1, 0, 2, 0, 0, 0, 0));
    assert(t0 * q == (1) * mn(p, 1, 0, 2, 0, 0, 0, 0));
    assert(pp0 * q == (1) * mn(p, 1, 0, 2, 0, 0, 0, 0));
}

#[verifier::rlimit(100)]
proof fn dt1_prod30(p: Pt)
    ensures
        ((1) * mn(p, 0, 0, 0, 1, 0, 0, 0)) * ((1) * mn(p, 0, 0, 3, 0, 0, 0, 0)) == (1) * mn(p, 0, 0, 3, 1, 0, 0, 0),
{
    let t0 = (1) * mn(p, 0, 0, 0, 1, 0, 0, 0);
    let s0 = (1) * mn(p, 0, 0, 3, 0, 0, 0, 0);
    let pp0 = t0;
    let qq0 = s0;
    let q = qq0;
    lemma_tm(p, 1, 0, 0, 0, 1, 0, 0, 0, 1, 0, 0, 3, 0, 0, 0, 0);
    assert(t0 * s0 == (1) * mn(p, 0, 0, 3, 1, 0, 0, 0));
    assert(t0 * q == (1) * mn(p, 0, 0, 3, 1, 0, 0, 0));
    assert(pp0 * q == (1) * mn(p, 0, 0, 3, 1, 0, 0, 0));
}

#[verifier::rlimit(100)]
proof fn dt1_prod31(p: Pt)
    ensures
        ((27) * mn(p, 3, 0, 1, 0, 0, 0, 0) + (-9) * mn(p, 1, 0, 3, 0, 0, 0, 0) + (-9) * mn(p, 0, 2, 2, 0, 0, 0, 0) + (-9) * mn(p, 0, 0, 4, 1, 0, 0, 0)) * ((-1) * mn(p, 3, 0, 0, 0, 0, 0, 0) + (3) * mn(p, 1, 0, 2, 0, 0, 0, 0) + (1) * mn(p, 0, 2, 1, 0, 0, 0, 0) + (-1) * mn(p, 0, 0, 3, 1, 0, 0, 0)) == (-27) * mn(p, 6, 0, 1, 0, 0, 0, 0) + (90) * mn(p, 4, 0, 3, 0, 0, 0, 0) + (36) * mn(p, 3, 2, 2, 0, 0, 0, 0) + (-18) * mn(p, 3, 0, 4, 1, 0, 0, 0) + (-27) * mn(p, 2, 0, 5, 0, 0, 0, 0) + (-36) * mn(p, 1, 2, 4, 0, 0, 0, 0) + (-18) * mn(p, 1, 0, 6, 1, 0, 0, 0) + (-9) * mn(p, 0, 4, 3, 0, 0, 0, 0) + (9) * mn(p, 0, 0, 7, 2, 0, 0, 0),
{
    let t0 = (27) * mn(p, 3, 0, 1, 0, 0, 0, 0);
    let t1 = (-9) * mn(p, 1, 0, 3, 0, 0, 0, 0);
    let t2 = (-9) * mn(p, 0, 2, 2, 0, 0, 0, 0);
    let t3 = (-9) * mn(p, 0, 0, 4, 1, 0, 0, 0);
    let s0 = (-1) * mn(p, 3, 0, 0, 0, 0, 0, 0);
    let s1 = (3) * mn(p, 1, 0, 2, 0, 0, 0, 0);
    let s2 = (1) * mn(p, 0, 2, 1, 0, 0, 0, 0);
    let s3 = (-1) * mn(p, 0, 0, 3, 1, 0, 0, 0);
    let pp0 = t0;
    let pp1 = pp0 + t1;
    let pp2 = pp1 + t2;
    let pp3 = pp2 + t3;
    let qq0 = s0;
    let qq1 = qq0 + s1;
    let qq2 = qq1 + s2;
    let qq3 = qq2 + s3;
    let q = qq3;
    lemma_mul_is_distributive_add_other_way(q, pp0, t1);
    lemma_mul_is_distributive_add_other_way(q, pp1, t2);
    lemma_mul_is_distributive_add_other_way(q, pp2, t3);
    lemma_mul_is_distributive_add(t0, qq0, s1);
    lemma_mul_is_distributive_add(t0, qq1, s2);
    lemma_mul_is_distributive_add(t0, qq2, s3);
    lemma_mul_is_distributive_add(t1, qq0, s1);
    lemma_mul_is_distributive_add(t1, qq1, s2);
    lemma_mul_is_distributive_add(t1, qq2, s3);
    lemma_mul_is_distributive_add(t2, qq0, s1);
    lemma_mul_is_distributive_add(t2, qq1, s2);
    lemma_mul_is_distributive_add(t2, qq2, s3);
    lemma_mul_is_distributive_add(t3, qq0, s1);
    lemma_mul_is_distributive_add(t3, qq1, s2);
    lemma_mul_is_distributive_add(t3, qq2, s3);
    lemma_tm(p, 27, 3, 0, 1, 0, 0, 0, 0, -1, 3, 0, 0, 0, 0, 0, 0);
    assert(t0 * s0 == (-27) * mn(p, 6, 0, 1, 0, 0, 0, 0));
    lemma_tm(p, 27, 3, 0, 1, 0, 0, 0, 0, 3, 1, 0, 2, 0, 0, 0, 0);
    assert(t0 * s1 == (81) * mn(p, 4, 0, 3, 0, 0, 0, 0));
    lemma_tm(p, 27, 3, 0, 1, 0, 0, 0, 0, 1, 0, 2, 1, 0, 0, 0, 0);
    assert(t0 * s2 == (27) * mn(p, 3, 2, 2, 0, 0, 0, 0));
    lemma_tm(p, 27, 3, 0, 1, 0, 0, 0, 0, -1, 0, 0, 3, 1, 0, 0, 0);
    assert(t0 * s3 == (-27) * mn(p, 3, 0, 4, 1, 0, 0, 0));
    assert(t0 * q == (-27) * mn(p, 6, 0, 1, 0, 0, 0, 0) + (81) * mn(p, 4, 0, 3, 0, 0, 0, 0) + (27) * mn(p, 3, 2, 2, 0, 0, 0, 0) + (-27) * mn(p, 3, 0, 4, 1, 0, 0, 0));
    lemma_tm(p, -9, 1, 0, 3, 0, 0, 0, 0, -1, 3, 0, 0, 0, 0, 0, 0);
    assert(t1 * s0 == (9) * mn(p, 4, 0, 3, 0, 0, 0, 0));
    lemma_tm(p, -9, 1, 0, 3, 0, 0, 0, 0, 3, 1, 0, 2, 0, 0, 0, 0);
    assert(t1 * s1 == (-27) * mn(p, 2, 0, 5, 0, 0, 0, 0));
    lemma_tm(p, -9, 1, 0, 3, 0, 0, 0, 0, 1, 0, 2, 1, 0, 0, 0, 0);
    assert(t1 * s2 == (-9) * mn(p, 1, 2, 4, 0, 0, 0, 0));
    lemma_tm(p, -9, 1, 0, 3, 0, 0, 0, 0, -1, 0, 0, 3, 1, 0, 0, 0);
    assert(t1 * s3 == (9) * mn(p, 1, 0, 6, 1, 0, 0, 0));
    assert(t1 * q == (9) * mn(p, 4, 0, 3, 0, 0, 0, 0) + (-27) * mn(p, 2, 0, 5, 0, 0, 0, 0) + (-9) * mn(p, 1, 2, 4, 0, 0, 0, 0) + (9) * mn(p, 1, 0, 6, 1, 0, 0, 0));
    lemma_tm(p, -9, 0, 2, 2, 0, 0, 0, 0, -1, 3, 0, 0, 0, 0, 0, 0);
    assert(t2 * s0 == (9) * mn(p, 3, 2, 2, 0, 0, 0, 0));
    lemma_tm(p, -9, 0, 2, 2, 0, 0, 0, 0, 3, 1, 0, 2, 0, 0, 0, 0);
    assert(t2 * s1 == (-27) * mn(p, 1, 2, 4, 0, 0, 0, 0));
    lemma_tm(p, -9, 0, 2, 2, 0, 0, 0, 0, 1, 0, 2, 1, 0, 0, 0, 0);
    assert(t2 * s2 == (-9) * mn(p, 0, 4, 3, 0, 0, 0, 0));
    lemma_tm(p, -9, 0, 2, 2, 0, 0, 0, 0, -1, 0, 0, 3, 1, 0, 0, 0);
    assert(t2 * s3 == (9) * mn(p, 0, 2, 5, 1, 0, 0, 0));
    assert(t2 * q == (9) * mn(p, 3, 2, 2, 0, 0, 0, 0) + (-27) * mn(p, 1, 2, 4, 0, 0, 0, 0) + (-9) * mn(p, 0, 4, 3, 0, 0, 0, 0) + (9) * mn(p, 0, 2, 5, 1, 0, 0, 0));
    lemma_tm(p, -9, 0, 0, 4, 1, 0, 0, 0, -1, 3, 0, 0, 0, 0, 0, 0);
    assert(t3 * s0 == (9) * mn(p, 3, 0, 4, 1, 0, 0, 0));
    lemma_tm(p, -9, 0, 0, 4, 1, 0, 0, 0, 3, 1, 0, 2, 0, 0, 0, 0);
    assert(t3 * s1 == (-27) * mn(p, 1, 0, 6, 1, 0, 0, 0));
    lemma_tm(p, -9, 0, 0, 4, 1, 0, 0, 0, 1, 0, 2, 1, 0, 0, 0, 0);
    assert(t3 * s2 == (-9) * mn(p, 0, 2, 5, 1, 0, 0, 0));
    lemma_tm(p, -9, 0, 0, 4, 1, 0, 0, 0, -1, 0, 0, 3, 1, 0, 0, 0);
    assert(t3 * s3 == (9) * mn(p, 0, 0, 7, 2, 0, 0, 0));
    assert(t3 * q == (9) * mn(p, 3, 0, 4, 1, 0, 0, 0) + (-27) * mn(p, 1, 0, 6, 1, 0, 0, 0) + (-9) * mn(p, 0, 2, 5, 1, 0, 0, 0) + (9) * mn(p, 0, 0, 7, 2, 0, 0, 0));
    assert(pp3 * q == (-27) * mn(p, 6, 0, 1, 0, 0, 0, 0) + (90) * mn(p, 4, 0, 3, 0, 0, 0, 0) + (36) * mn(p, 3, 2, 2, 0, 0, 0, 0) + (-18) * mn(p, 3, 0, 4, 1, 0, 0, 0) + (-27) * mn(p, 2, 0, 5, 0, 0, 0, 0) + (-36) * mn(p, 1, 2, 4, 0, 0, 0, 0) + (-18) * mn(p, 1, 0, 6, 1, 0, 0, 0) + (-9) * mn(p, 0, 4, 3, 0, 0, 0, 0) + (9) * mn(p, 0, 0, 7, 2, 0, 0, 0));
}

#[verifier::rlimit(100)]
pub(crate) proof fn lemma_double_tangent1_identity(x: int, y: int, z: int, b: int)
    ensures
        ({
            let p = Pt { v0: x, v1: y, v2: z, v3: b, v4: 0, v5: 0, v6: 0 };
            tangent_double(x, y, z).1 - z * z * z * rcb_double(x, y, z, b).1 == dt1_cof0(p) * curve_poly(x, y, z, b)
        }),
{
    let p = Pt { v0: x, v1: y, v2: z, v3: b, v4: 0, v5: 0, v6: 0 };
    lemma_vars(p);
    assert(x == (1) * mn(p, 1, 0, 0, 0, 0, 0, 0));
    assert(y == (1) * mn(p, 0, 1, 0, 0, 0, 0, 0));
    assert(z == (1) * mn(p, 0, 0, 1, 0, 0, 0, 0));
    assert(b == (1) * mn(p, 0, 0, 0, 1, 0, 0, 0));
    dt1_prod0(p);
    let n0 = x * x;
    assert(n0 == (1) * mn(p, 2, 0, 0, 0, 0, 0, 0));
    dt1_prod1(p);
    let n1 = y * y;
    assert(n1 == (1) * mn(p, 0, 2, 0, 0, 0, 0, 0));
    dt1_prod2(p);
    let n2 = z * z;
    assert(n2 == (1) * mn(p, 0, 0, 2, 0, 0, 0, 0));
    dt1_prod3(p);
    let n3 = x * y;
    assert(n3 == (1) * mn(p, 1, 1, 0, 0, 0, 0, 0));
    let n4 = 2 * n3;
    assert(n4 == (2) * mn(p, 1, 1, 0, 0, 0, 0, 0));
    dt1_prod4(p);
    let n5 = y * z;
    assert(n5 == (1) * mn(p, 0, 1, 1, 0, 0, 0, 0));
    let n6 = 2 * n5;
    assert(n6 == (2) * mn(p, 0, 1, 1, 0, 0, 0, 0));
    dt1_prod5(p);
    let n7 = x * z;
    assert(n7 == (1) * mn(p, 1, 0, 1, 0, 0, 0, 0));
    let n8 = 2 * n7;
    assert(n8 == (2) * mn(p, 1, 0, 1, 0, 0, 0, 0));
    dt1_prod6(p);
    let n9 = b * n2;
    assert(n9 == (1) * mn(p, 0, 0, 2, 1, 0, 0, 0));
    let n10 = n9 - n8;
    assert(n10 == (-2) * mn(p, 1, 0, 1, 0, 0, 0, 0) + (1) * mn(p, 0, 0, 2, 1, 0, 0, 0));
    let n11 = 3 * n10;
    assert(n11 == (-6) * mn(p, 1, 0, 1, 0, 0, 0, 0) + (3) * mn(p, 0, 0, 2, 1, 0, 0, 0));
    let n12 = n1 - n11;
    assert(n12 == (6) * mn(p, 1, 0, 1, 0, 0, 0, 0) + (1) * mn(p, 0, 2, 0, 0, 0, 0, 0) + (-3) * mn(p, 0, 0, 2, 1, 0, 0, 0));
    let n13 = n1 + n11;
    assert(n13 == (-6) * mn(p, 1, 0, 1, 0, 0, 0, 0) + (1) * mn(p, 0, 2, 0, 0, 0, 0, 0) + (3) * mn(p, 0, 0, 2, 1, 0, 0, 0));
    dt1_prod7(p);
    let n14 = b * n8;
    assert(n14 == (2) * mn(p, 1, 0, 1, 1, 0, 0, 0));
    let n15 = 3 * n2;
    assert(n15 == (3) * mn(p, 0, 0, 2, 0, 0, 0, 0));
    let n16 = n14 - n15;
    assert(n16 == (2) * mn(p, 1, 0, 1, 1, 0, 0, 0) + (-3) * mn(p, 0, 0, 2, 0, 0, 0, 0));
    let n17 = n16 - n0;
    assert(n17 == (-1) * mn(p, 2, 0, 0, 0, 0, 0, 0) + (2) * mn(p, 1, 0, 1, 1, 0, 0, 0) + (-3) * mn(p, 0, 0, 2, 0, 0, 0, 0));
    let n18 = 3 * n17;
    assert(n18 == (-3) * mn(p, 2, 0, 0, 0, 0, 0, 0) + (6) * mn(p, 1, 0, 1, 1, 0, 0, 0) + (-9) * mn(p, 0, 0, 2, 0, 0, 0, 0));
    let n19 = 3 * n0;
    assert(n19 == (3) * mn(p, 2, 0, 0, 0, 0, 0, 0));
    let n20 = n19 - n15;
    assert(n20 == (3) * mn(p, 2, 0, 0, 0, 0, 0, 0) + (-3) * mn(p, 0, 0, 2, 0, 0, 0, 0));
    dt1_prod8(p);
    let n21 = n12 * n4;
    assert(n21 == (12) * mn(p, 2, 1, 1, 0, 0, 0, 0) + (2) * mn(p, 1, 3, 0, 0, 0, 0, 0) + (-6) * mn(p, 1, 1, 2, 1, 0, 0, 0));
    dt1_prod9(p);
    let n22 = n18 * n6;
    assert(n22 == (-6) * mn(p, 2, 1, 1, 0, 0, 0, 0) + (12) * mn(p, 1, 1, 2, 1, 0, 0, 0) + (-18) * mn(p, 0, 1, 3, 0, 0, 0, 0));
    let n23 = n21 - n22;
    assert(n23 == (18) * mn(p, 2, 1, 1, 0, 0, 0, 0) + (2) * mn(p, 1, 3, 0, 0, 0, 0, 0) + (-18) * mn(p, 1, 1, 2, 1, 0, 0, 0) + (18) * mn(p, 0, 1, 3, 0, 0, 0, 0));
    dt1_prod10(p);
    let n24 = n13 * n12;
    assert(n24 == (-36) * mn(p, 2, 0, 2, 0, 0, 0, 0) + (36) * mn(p, 1, 0, 3, 1, 0, 0, 0) + (1) * mn(p, 0, 4, 0, 0, 0, 0, 0) + (-9) * mn(p, 0, 0, 4, 2, 0, 0, 0));
    dt1_prod11(p);
    let n25 = n20 * n18;
    assert(n25 == (-9) * mn(p, 4, 0, 0, 0, 0, 0, 0) + (18) * mn(p, 3, 0, 1, 1, 0, 0, 0) + (-18) * mn(p, 2, 0, 2, 0, 0, 0, 0) + (-18) * mn(p, 1, 0, 3, 1, 0, 0, 0) + (27) * mn(p, 0, 0, 4, 0, 0, 0, 0));
    let n26 = n24 + n25;
    assert(n26 == (-9) * mn(p, 4, 0, 0, 0, 0, 0, 0) + (18) * mn(p, 3, 0, 1, 1, 0, 0, 0) + (-54) * mn(p, 2, 0, 2, 0, 0, 0, 0) + (18) * mn(p, 1, 0, 3, 1, 0, 0, 0) + (1) * mn(p, 0, 4, 0, 0, 0, 0, 0) + (-9) * mn(p, 0, 0, 4, 2, 0, 0, 0) + (27) * mn(p, 0, 0, 4, 0, 0, 0, 0));
    dt1_prod12(p);
    let n27 = n6 * n1;
    assert(n27 == (2) * mn(p, 0, 3, 1, 0, 0, 0, 0));
    let n28 = 4 * n27;
    assert(n28 == (8) * mn(p, 0, 3, 1, 0, 0, 0, 0));
    dt1_prod13(p);
    let n29 = n20 * n20;
    assert(n29 == (9) * mn(p, 4, 0, 0, 0, 0, 0, 0) + (-18) * mn(p, 2, 0, 2, 0, 0, 0, 0) + (9) * mn(p, 0, 0, 4, 0, 0, 0, 0));
    dt1_prod14(p);
    let n30 = n29 * z;
    assert(n30 == (9) * mn(p, 4, 0, 1, 0, 0, 0, 0) + (-18) * mn(p, 2, 0, 3, 0, 0, 0, 0) + (9) * mn(p, 0, 0, 5, 0, 0, 0, 0));
    dt1_prod15(p);
    let n31 = n6 * n6;
    assert(n31 == (4) * mn(p, 0, 2, 2, 0, 0, 0, 0));
    dt1_prod16(p);
    let n32 = x * n31;
    assert(n32 == (4) * mn(p, 1, 2, 2, 0, 0, 0, 0));
    let n33 = 2 * n32;
    assert(n33 == (8) * mn(p, 1, 2, 2, 0, 0, 0, 0));
    let n34 = n30 - n33;
    assert(n34 == (9) * mn(p, 4, 0, 1, 0, 0, 0, 0) + (-18) * mn(p, 2, 0, 3, 0, 0, 0, 0) + (-8) * mn(p, 1, 2, 2, 0, 0, 0, 0) + (9) * mn(p, 0, 0, 5, 0, 0, 0, 0));
    dt1_prod17(p);
    let n35 = n6 * n34;
    assert(n35 == (18) * mn(p, 4, 1, 2, 0, 0, 0, 0) + (-36) * mn(p, 2, 1, 4, 0, 0, 0, 0) + (-16) * mn(p, 1, 3, 3, 0, 0, 0, 0) + (18) * mn(p, 0, 1, 6, 0, 0, 0, 0));
    dt1_prod18(p);
    let n36 = n31 * x;
    assert(n36 == (4) * mn(p, 1, 2, 2, 0, 0, 0, 0));
    let n37 = n36 - n34;
    assert(n37 == (-9) * mn(p, 4, 0, 1, 0, 0, 0, 0) + (18) * mn(p, 2, 0, 3, 0, 0, 0, 0) + (12) * mn(p, 1, 2, 2, 0, 0, 0, 0) + (-9) * mn(p, 0, 0, 5, 0, 0, 0, 0));
    dt1_prod19(p);
    let n38 = n20 * n37;
    assert(n38 == (-27) * mn(p, 6, 0, 1, 0, 0, 0, 0) + (81) * mn(p, 4, 0, 3, 0, 0, 0, 0) + (36) * mn(p, 3, 2, 2, 0, 0, 0, 0) + (-81) * mn(p, 2, 0, 5, 0, 0, 0, 0) + (-36) * mn(p, 1, 2, 4, 0, 0, 0, 0) + (27) * mn(p, 0, 0, 7, 0, 0, 0, 0));
    dt1_prod20(p);
    let n39 = y * n6;
    assert(n39 == (2) * mn(p, 0, 2, 1, 0, 0, 0, 0));
    dt1_prod21(p);
    let n40 = n39 * n6;
    assert(n40 == (4) * mn(p, 0, 3, 2, 0, 0, 0, 0));
    dt1_prod22(p);
    let n41 = n40 * n6;
    assert(n41 == (8) * mn(p, 0, 4, 3, 0, 0, 0, 0));
    let n42 = n38 - n41;
    assert(n42 == (-27) * mn(p, 6, 0, 1, 0, 0, 0, 0) + (81) * mn(p, 4, 0, 3, 0, 0, 0, 0) + (36) * mn(p, 3, 2, 2, 0, 0, 0, 0) + (-81) * mn(p, 2, 0, 5, 0, 0, 0, 0) + (-36) * mn(p, 1, 2, 4, 0, 0, 0, 0) + (-8) * mn(p, 0, 4, 3, 0, 0, 0, 0) + (27) * mn(p, 0, 0, 7, 0, 0, 0, 0));
    dt1_prod23(p);
    let n43 = n31 * n6;
    assert(n43 == (8) * mn(p, 0, 3, 3, 0, 0, 0, 0));
    dt1_prod24(p);
    let n44 = n43 * z;
    assert(n44 == (8) * mn(p, 0, 3, 4, 0, 0, 0, 0));
    dt1_prod25(p);
    let n45 = n2 * z;
    assert(n45 == (1) * mn(p, 0, 0, 3, 0, 0, 0, 0));
    dt1_prod26(p);
    let n46 = n45 * n26;
    assert(n46 == (-9) * mn(p, 4, 0, 3, 0, 0, 0, 0) + (18) * mn(p, 3, 0, 4, 1, 0, 0, 0) + (-54) * mn(p, 2, 0, 5, 0, 0, 0, 0) + (18) * mn(p, 1, 0, 6, 1, 0, 0, 0) + (1) * mn(p, 0, 4, 3, 0, 0, 0, 0) + (-9) * mn(p, 0, 0, 7, 2, 0, 0, 0) + (27) * mn(p, 0, 0, 7, 0, 0, 0, 0));
    let n47 = n42 - n46;
    assert(n47 == (-27) * mn(p, 6, 0, 1, 0, 0, 0, 0) + (90) * mn(p, 4, 0, 3, 0, 0, 0, 0) + (36) * mn(p, 3, 2, 2, 0, 0, 0, 0) + (-18) * mn(p, 3, 0, 4, 1, 0, 0, 0) + (-27) * mn(p, 2, 0, 5, 0, 0, 0, 0) + (-36) * mn(p, 1, 2, 4, 0, 0, 0, 0) + (-18) * mn(p, 1, 0, 6, 1, 0, 0, 0) + (-9) * mn(p, 0, 4, 3, 0, 0, 0, 0) + (9) * mn(p, 0, 0, 7, 2, 0, 0, 0));
    dt1_prod27(p);
    let n48 = n1 * z;
    assert(n48 == (1) * mn(p, 0, 2, 1, 0, 0, 0, 0));
    dt1_prod28(p);
    let n49 = n0 * x;
    assert(n49 == (1) * mn(p, 3, 0, 0, 0, 0, 0, 0));
    dt1_prod29(p);
    let n50 = n7 * z;
    assert(n50 == (1) * mn(p, 1, 0, 2, 0, 0, 0, 0));
    let n51 = 3 * n50;
    assert(n51 == (3) * mn(p, 1, 0, 2, 0, 0, 0, 0));
    let n52 = n49 - n51;
    assert(n52 == (1) * mn(p, 3, 0, 0, 0, 0, 0, 0) + (-3) * mn(p, 1, 0, 2, 0, 0, 0, 0));
    dt1_prod30(p);
    let n53 = b * n45;
    assert(n53 == (1) * mn(p, 0, 0, 3, 1, 0, 0, 0));
    let n54 = n52 + n53;
    assert(n54 == (1) * mn(p, 3, 0, 0, 0, 0, 0, 0) + (-3) * mn(p, 1, 0, 2, 0, 0, 0, 0) + (1) * mn(p, 0, 0, 3, 1, 0, 0, 0));
    let n55 = n48 - n54;
    assert(n55 == (-1) * mn(p, 3, 0, 0, 0, 0, 0, 0) + (3) * mn(p, 1, 0, 2, 0, 0, 0, 0) + (1) * mn(p, 0, 2, 1, 0, 0, 0, 0) + (-1) * mn(p, 0, 0, 3, 1, 0, 0, 0));
    dt1_prod31(p);
    assert(n47 == dt1_cof0(p) * n55);
}

pub(crate) open spec fn dt2_cof0(p: Pt) -> int {
    0
}

#[verifier::rlimit(100)]
proof fn dt2_prod0(p: Pt)
    ensures
        ((1) * mn(p, 1, 0, 0, 0, 0, 0, 0)) * ((1) * mn(p, 1, 0, 0, 0, 0, 0, 0)) == (1) * mn(p, 2, 0, 0, 0, 0, 0, 0),
{
    let t0 = (1) * mn(p, 1, 0, 0, 0, 0, 0, 0);
    let s0 = (1) * mn(p, 1, 0, 0, 0, 0, 0, 0);
    let pp0 = t0;
    let qq0 = s0;
    let q = qq0;
    lemma_tm(p, 1, 1, 0, 0, 0, 0, 0, 0, 1, 1, 0, 0, 0, 0, 0, 0);
    assert(t0 * s0 == (1) * mn(p, 2, 0, 0, 0, 0, 0, 0));
    assert(t0 * q == (1) * mn(p, 2, 0, 0, 0, 0, 0, 0));
    assert(pp0 * q == (1) * mn(p, 2, 0, 0, 0, 0, 0, 0));
}

#[verifier::rlimit(100)]
proof fn dt2_prod1(p: Pt)
    ensures
        ((1) * mn(p, 0, 1, 0, 0, 0, 0, 0)) * ((1) * mn(p, 0, 1, 0, 0, 0, 0, 0)) == (1) * mn(p, 0, 2, 0, 0, 0, 0, 0),
{
    let t0 = (1) * mn(p, 0, 1, 0, 0, 0, 0, 0);
    let s0 = (1) * mn(p, 0, 1, 0, 0, 0, 0, 0);
    let pp0 = t0;
    let qq0 = s0;
    let q = qq0;
    lemma_tm(p, 1, 0, 1, 0, 0, 0, 0, 0, 1, 0, 1, 0, 0, 0, 0, 0);
    assert(t0 * s0 == (1) * mn(p, 0, 2, 0, 0, 0, 0, 0));
    assert(t0 * q == (1) * mn(p, 0, 2, 0, 0, 0, 0, 0));
    assert(pp0 * q == (1) * mn(p, 0, 2, 0, 0, 0, 0, 0));
}

#[verifier::rlimit(100)]
proof fn dt2_prod2(p: Pt)
    ensures
        ((1) * mn(p, 0, 0, 1, 0, 0, 0, 0)) * ((1) * mn(p, 0, 0, 1, 0, 0, 0, 0)) == (1) * mn(p, 0, 0, 2, 0, 0, 0, 0),
{
    let t0 = (1) * mn(p, 0, 0, 1, 0, 0, 0, 0);
    let s0 = (1) * mn(p, 0, 0, 1, 0, 0, 0, 0);
    let pp0 = t0;
    let qq0 = s0;
    let q = qq0;
    lemma_tm(p, 1, 0, 0, 1, 0, 0, 0, 0, 1, 0, 0, 1, 0, 0, 0, 0);
    assert(t0 * s0 == (1) * mn(p, 0, 0, 2, 0, 0, 0, 0));
    assert(t0 * q == (1) * mn(p, 0, 0, 2, 0, 0, 0, 0));
    assert(pp0 * q == (1) * mn(p, 0, 0, 2, 0, 0, 0, 0));
}

#[verifier::rlimit(100)]
proof fn dt2_prod3(p: Pt)
    ensures
        ((1) * mn(p, 1, 0, 0, 0, 0, 0, 0)) * ((1) * mn(p, 0, 1, 0, 0, 0, 0, 0)) == (1) * mn(p, 1, 1, 0, 0, 0, 0, 0),
{
    let t0 = (1) * mn(p, 1, 0, 0, 0, 0, 0, 0);
    let s0 = (1) * mn(p, 0, 1, 0, 0, 0, 0, 0);
    let pp0 = t0;
    let qq0 = s0;
    let q = qq0;
    lemma_tm(p, 1, 1, 0, 0, 0, 0, 0, 0, 1, 0, 1, 0, 0, 0, 0, 0);
    assert(t0 * s0 == (1) * mn(p, 1, 1, 0, 0, 0, 0, 0));
    assert(t0 * q == (1) * mn(p, 1, 1, 0, 0, 0, 0, 0));
    assert(pp0 * q == (1) * mn(p, 1, 1, 0, 0, 0, 0, 0));
}

#[verifier::rlimit(100)]
proof fn dt2_prod4(p: Pt)
    ensures
        ((1) * mn(p, 0, 1, 0, 0, 0, 0, 0)) * ((1) * mn(p, 0, 0, 1, 0, 0, 0, 0)) == (1) * mn(p, 0, 1, 1, 0, 0, 0, 0),
{
    let t0 = (1) * mn(p, 0, 1, 0, 0, 0, 0, 0);
    let s0 = (1) * mn(p, 0, 0, 1, 0, 0, 0, 0);
    let pp0 = t0;
    let qq0 = s0;
    let q = qq0;
    lemma_tm(p, 1, 0, 1, 0, 0, 0, 0, 0, 1, 0, 0, 1, 0, 0, 0, 0);
    assert(t0 * s0 == (1) * mn(p, 0, 1, 1, 0, 0, 0, 0));
    assert(t0 * q == (1) * mn(p, 0, 1, 1, 0, 0, 0, 0));
    assert(pp0 * q == (1) * mn(p, 0, 1, 1, 0, 0, 0, 0));
}

#[verifier::rlimit(100)]
proof fn dt2_prod5(p: Pt)
    ensures
        ((1) * mn(p, 1, 0, 0, 0, 0, 0, 0)) * ((1) * mn(p, 0, 0, 1, 0, 0, 0, 0)) == (1) * mn(p, 1, 0, 1, 0, 0, 0, 0),
{
    let t0 = (1) * mn(p, 1, 0, 0, 0, 0, 0, 0);
    let s0 = (1) * mn(p, 0, 0, 1, 0, 0, 0, 0);
    let pp0 = t0;
    let qq0 = s0;
    let q = qq0;
    lemma_tm(p, 1, 1, 0, 0, 0, 0, 0, 0, 1, 0, 0, 1, 0, 0, 0, 0);
    assert(t0 * s0 == (1) * mn(p, 1, 0, 1, 0, 0, 0, 0));
    assert(t0 * q == (1) * mn(p, 1, 0, 1, 0, 0, 0, 0));
    assert(pp0 * q == (1) * mn(p, 1, 0, 1, 0, 0, 0, 0));
}

#[verifier::rlimit(100)]
proof fn dt2_prod6(p: Pt)
    ensures
        ((1) * mn(p, 0, 0, 0, 1, 0, 0, 0)) * ((1) * mn(p, 0, 0, 2, 0, 0, 0, 0)) == (1) * mn(p, 0, 0, 2, 1, 0, 0, 0),
{
    let t0 = (1) * mn(p, 0, 0, 0, 1, 0, 0, 0);
    let s0 = (1) * mn(p, 0, 0, 2, 0, 0, 0, 0);
    let pp0 = t0;
    let qq0 = s0;
    let q = qq0;
    lemma_tm(p, 1, 0, 0, 0, 1, 0, 0, 0, 1, 0, 0, 2, 0, 0, 0, 0);
    assert(t0 * s0 == (1) * mn(p, 0, 0, 2, 1, 0, 0, 0));
    assert(t0 * q == (1) * mn(p, 0, 0, 2, 1, 0, 0, 0));
    assert(pp0 * q == (1) * mn(p, 0, 0, 2, 1, 0, 0, 0));
}

#[verifier::rlimit(100)]
proof fn dt2_prod7(p: Pt)
    ensures
        ((1) * mn(p, 0, 0, 0, 1, 0, 0, 0)) * ((2) * mn(p, 1, 0, 1, 0, 0, 0, 0)) == (2) * mn(p, 1, 0, 1, 1, 0, 0, 0),
{
    let t0 = (1) * mn(p, 0, 0, 0, 1, 0, 0, 0);
    let s0 = (2) * mn(p, 1, 0, 1, 0, 0, 0, 0);
    let pp0 = t0;
    let qq0 = s0;
    let q = qq0;
    lemma_tm(p, 1, 0, 0, 0, 1, 0, 0, 0, 2, 1, 0, 1, 0, 0, 0, 0);
    assert(t0 * s0 == (2) * mn(p, 1, 0, 1, 1, 0, 0, 0));
    assert(t0 * q == (2) * mn(p, 1, 0, 1, 1, 0, 0, 0));
    assert(pp0 * q == (2) * mn(p, 1, 0, 1, 1, 0, 0, 0));
}

#[verifier::rlimit(100)]
proof fn dt2_prod8(p: Pt)
    ensures
        ((6) * mn(p, 1, 0, 1, 0, 0, 0, 0) + (1) * mn(p, 0, 2, 0, 0, 0, 0, 0) + (-3) * mn(p, 0, 0, 2, 1, 0, 0, 0)) * ((2) * mn(p, 1, 1, 0, 0, 0, 0, 0)) == (12) * mn(p, 2, 1, 1, 0, 0, 0, 0) + (2) * mn(p, 1, 3, 0, 0, 0, 0, 0) + (-6) * mn(p, 1, 1, 2, 1, 0, 0, 0),
{
    let t0 = (6) * mn(p, 1, 0, 1, 0, 0, 0, 0);
    let t1 = (1) * mn(p, 0, 2, 0, 0, 0, 0, 0);
    let t2 = (-3) * mn(p, 0, 0, 2, 1, 0, 0, 0);
    let s0 = (2) * mn(p, 1, 1, 0, 0, 0, 0, 0);
    let pp0 = t0;
    let pp1 = pp0 + t1;
    let pp2 = pp1 + t2;
    let qq0 = s0;
    let q = qq0;
    lemma_mul_is_distributive_add_other_way(q, pp0, t1);
    lemma_mul_is_distributive_add_other_way(q, pp1, t2);
    lemma_tm(p, 6, 1, 0, 1, 0, 0, 0, 0, 2, 1, 1, 0, 0, 0, 0, 0);
    assert(t0 * s0 == (12) * mn(p, 2, 1, 1, 0, 0, 0, 0));
    assert(t0 * q == (12) * mn(p, 2, 1, 1, 0, 0, 0, 0));
    lemma_tm(p, 1, 0, 2, 0, 0, 0, 0, 0, 2, 1, 1, 0, 0, 0, 0, 0);
    assert(t1 * s0 == (2) * mn(p, 1, 3, 0, 0, 0, 0, 0));
    assert(t1 * q == (2) * mn(p, 1, 3, 0, 0, 0, 0, 0));
    lemma_tm(p, -3, 0, 0, 2, 1, 0, 0, 0, 2, 1, 1, 0, 0, 0, 0, 0);
    assert(t2 * s0 == (-6) * mn(p, 1, 1, 2, 1, 0, 0, 0));
    assert(t2 * q == (-6) * mn(p, 1, 1, 2, 1, 0, 0, 0));
    assert(pp2 * q == (12) * mn(p, 2, 1, 1, 0, 0, 0, 0) + (2) * mn(p, 1, 3, 0, 0, 0, 0, 0) + (-6) * mn(p, 1, 1, 2, 1, 0, 0, 0));
}

#[verifier::rlimit(100)]
proof fn dt2_prod9(p: Pt)
    ensures
        ((-3) * mn(p, 2, 0, 0, 0, 0, 0, 0) + (6) * mn(p, 1, 0, 1, 1, 0, 0, 0) + (-9) * mn(p, 0, 0, 2, 0, 0, 0, 0)) * ((2) * mn(p, 0, 1, 1, 0, 0, 0, 0)) == (-6) * mn(p, 2, 1, 1, 0, 0, 0, 0) + (12) * mn(p, 1, 1, 2, 1, 0, 0, 0) + (-18) * mn(p, 0, 1, 3, 0, 0, 0, 0),
{
    let t0 = (-3) * mn(p, 2, 0, 0, 0, 0, 0, 0);
    let t1 = (6) * mn(p, 1, 0, 1, 1, 0, 0, 0);
    let t2 = (-9) * mn(p, 0, 0, 2, 0, 0, 0, 0);
    let s0 = (2) * mn(p, 0, 1, 1, 0, 0, 0, 0);
    let pp0 = t0;
    let pp1 = pp0 + t1;
    let pp2 = pp1 + t2;
    let qq0 = s0;
    let q = qq0;
    lemma_mul_is_distributive_add_other_way(q, pp0, t1);
    lemma_mul_is_distributive_add_other_way(q, pp1, t2);
    lemma_tm(p, -3, 2, 0, 0, 0, 0, 0, 0, 2, 0, 1, 1, 0, 0, 0, 0);
    assert(t0 * s0 == (-6) * mn(p, 2, 1, 1, 0, 0, 0, 0));
    assert(t0 * q == (-6) * mn(p, 2, 1, 1, 0, 0, 0, 0));
    lemma_tm(p, 6, 1, 0, 1, 1, 0, 0, 0, 2, 0, 1, 1, 0, 0, 0, 0);
    assert(t1 * s0 == (12) * mn(p, 1, 1, 2, 1, 0, 0, 0));
    assert(t1 * q == (12) * mn(p, 1, 1, 2, 1, 0, 0, 0));
    lemma_tm(p, -9, 0, 0, 2, 0, 0, 0, 0, 2, 0, 1, 1, 0, 0, 0, 0);
    assert(t2 * s0 == (-18) * mn(p, 0, 1, 3, 0, 0, 0, 0));
    assert(t2 * q == (-18) * mn(p, 0, 1, 3, 0, 0, 0, 0));
    assert(pp2 * q == (-6) * mn(p, 2, 1, 1, 0, 0, 0, 0) + (12) * mn(p, 1, 1, 2, 1, 0, 0, 0) + (-18) * mn(p, 0, 1, 3, 0, 0, 0, 0));
}

#[verifier::rlimit(100)]
proof fn dt2_prod10(p: Pt)
    ensures
        ((-6) * mn(p, 1, 0, 1, 0, 0, 0, 0) + (1) * mn(p, 0, 2, 0, 0, 0, 0, 0) + (3) * mn(p, 0, 0, 2, 1, 0, 0, 0)) * ((6) * mn(p, 1, 0, 1, 0, 0, 0, 0) + (1) * mn(p, 0, 2, 0, 0, 0, 0, 0) + (-3) * mn(p, 0, 0, 2, 1, 0, 0, 0)) == (-36) * mn(p, 2, 0, 2, 0, 0, 0, 0) + (36) * mn(p, 1, 0, 3, 1, 0, 0, 0) + (1) * mn(p, 0, 4, 0, 0, 0, 0, 0) + (-9) * mn(p, 0, 0, 4, 2, 0, 0, 0),
{
    let t0 = (-6) * mn(p, 1, 0, 1, 0, 0, 0, 0);
    let t1 = (1) * mn(p, 0, 2, 0, 0, 0, 0, 0);
    let t2 = (3) * mn(p, 0, 0, 2, 1, 0, 0, 0);
    let s0 = (6) * mn(p, 1, 0, 1, 0, 0, 0, 0);
    let s1 = (1) * mn(p, 0, 2, 0, 0, 0, 0, 0);
    let s2 = (-3) * mn(p, 0, 0, 2, 1, 0, 0, 0);
    let pp0 = t0;
    let pp1 = pp0 + t1;
    let pp2 = pp1 + t2;
    let qq0 = s0;
    let qq1 = qq0 + s1;
    let qq2 = qq1 + s2;
    let q = qq2;
    lemma_mul_is_distributive_add_other_way(q, pp0, t1);
    lemma_mul_is_distributive_add_other_way(q, pp1, t2);
    lemma_mul_is_distributive_add(t0, qq0, s1);
    lemma_mul_is_distributive_add(t0, qq1, s2);
    lemma_mul_is_distributive_add(t1, qq0, s1);
    lemma_mul_is_distributive_add(t1, qq1, s2);
    lemma_mul_is_distributive_add(t2, qq0, s1);
    lemma_mul_is_distributive_add(t2, qq1, s2);
    lemma_tm(p, -6, 1, 0, 1, 0, 0, 0, 0, 6, 1, 0, 1, 0, 0, 0, 0);
    assert(t0 * s0 == (-36) * mn(p, 2, 0, 2, 0, 0, 0, 0));
    lemma_tm(p, -6, 1, 0, 1, 0, 0, 0, 0, 1, 0, 2, 0, 0, 0, 0, 0);
    assert(t0 * s1 == (-6) * mn(p, 1, 2, 1, 0, 0, 0, 0));
    lemma_tm(p, -6, 1, 0, 1, 0, 0, 0, 0, -3, 0, 0, 2, 1, 0, 0, 0);
    assert(t0 * s2 == (18) * mn(p, 1, 0, 3, 1, 0, 0, 0));
    assert(t0 * q == (-36) * mn(p, 2, 0, 2, 0, 0, 0, 0) + (-6) * mn(p, 1, 2, 1, 0, 0, 0, 0) + (18) * mn(p, 1, 0, 3, 1, 0, 0, 0));
    lemma_tm(p, 1, 0, 2, 0, 0, 0, 0, 0, 6, 1, 0, 1, 0, 0, 0, 0);
    assert(t1 * s0 == (6) * mn(p, 1, 2, 1, 0, 0, 0, 0));
    lemma_tm(p, 1, 0, 2, 0, 0, 0, 0, 0, 1, 0, 2, 0, 0, 0, 0, 0);
    assert(t1 * s1 == (1) * mn(p, 0, 4, 0, 0, 0, 0, 0));
    lemma_tm(p, 1, 0, 2, 0, 0, 0, 0, 0, -3, 0, 0, 2, 1, 0, 0, 0);
    assert(t1 * s2 == (-3) * mn(p, 0, 2, 2, 1, 0, 0, 0));
    assert(t1 * q == (6) * mn(p, 1, 2, 1, 0, 0, 0, 0) + (1) * mn(p, 0, 4, 0, 0, 0, 0, 0) + (-3) * mn(p, 0, 2, 2, 1, 0, 0, 0));
    lemma_tm(p, 3, 0, 0, 2, 1, 0, 0, 0, 6, 1, 0, 1, 0, 0, 0, 0);
    assert(t2 * s0 == (18) * mn(p, 1, 0, 3, 1, 0, 0, 0));
    lemma_tm(p, 3, 0, 0, 2, 1, 0, 0, 0, 1, 0, 2, 0, 0, 0, 0, 0);
    assert(t2 * s1 == (3) * mn(p, 0, 2, 2, 1, 0, 0, 0));
    lemma_tm(p, 3, 0, 0, 2, 1, 0, 0, 0, -3, 0, 0, 2, 1, 0, 0, 0);
    assert(t2 * s2 == (-9) * mn(p, 0, 0, 4, 2, 0, 0, 0));
    assert(t2 * q == (18) * mn(p, 1, 0, 3, 1, 0, 0, 0) + (3) * mn(p, 0, 2, 2, 1, 0, 0, 0) + (-9) * mn(p, 0, 0, 4, 2, 0, 0, 0));
    assert(pp2 * q == (-36) * mn(p, 2, 0, 2, 0, 0, 0, 0) + (36) * mn(p, 1, 0, 3, 1, 0, 0, 0) + (1) * mn(p, 0, 4, 0, 0, 0, 0, 0) + (-9) * mn(p, 0, 0, 4, 2, 0, 0, 0));
}

#[verifier::rlimit(100)]
proof fn dt2_prod11(p: Pt)
    ensures
        ((3) * mn(p, 2, 0, 0, 0, 0, 0, 0) + (-3) * mn(p, 0, 0, 2, 0, 0, 0, 0)) * ((-3) * mn(p, 2, 0, 0, 0, 0, 0, 0) + (6) * mn(p, 1, 0, 1, 1, 0, 0, 0) + (-9) * mn(p, 0, 0, 2, 0, 0, 0, 0)) == (-9) * mn(p, 4, 0, 0, 0, 0, 0, 0) + (18) * mn(p, 3, 0, 1, 1, 0, 0, 0) + (-18) * mn(p, 2, 0, 2, 0, 0, 0, 0) + (-18) * mn(p, 1, 0, 3, 1, 0, 0, 0) + (27) * mn(p, 0, 0, 4, 0, 0, 0, 0),
{
    let t0 = (3) * mn(p, 2, 0, 0, 0, 0, 0, 0);
    let t1 = (-3) * mn(p, 0, 0, 2, 0, 0, 0, 0);
    let s0 = (-3) * mn(p, 2, 0, 0, 0, 0, 0, 0);
    let s1 = (6) * mn(p, 1, 0, 1, 1, 0, 0, 0);
    let s2 = (-9) * mn(p, 0, 0, 2, 0, 0, 0, 0);
    let pp0 = t0;
    let pp1 = pp0 + t1;
    let qq0 = s0;
    let qq1 = qq0 + s1;
    let qq2 = qq1 + s2;
    let q = qq2;
    lemma_mul_is_distributive_add_other_way(q, pp0, t1);
    lemma_mul_is_distributive_add(t0, qq0, s1);
    lemma_mul_is_distributive_add(t0, qq1, s2);
    lemma_mul_is_distributive_add(t1, qq0, s1);
    lemma_mul_is_distributive_add(t1, qq1, s2);
    lemma_tm(p, 3, 2, 0, 0, 0, 0, 0, 0, -3, 2, 0, 0, 0, 0, 0, 0);
    assert(t0 * s0 == (-9) * mn(p, 4, 0, 0, 0, 0, 0, 0));
    lemma_tm(p, 3, 2, 0, 0, 0, 0, 0, 0, 6, 1, 0, 1, 1, 0, 0, 0);
    assert(t0 * s1 == (18) * mn(p, 3, 0, 1, 1, 0, 0, 0));
    lemma_tm(p, 3, 2, 0, 0, 0, 0, 0, 0, -9, 0, 0, 2, 0, 0, 0, 0);
    assert(t0 * s2 == (-27) * mn(p, 2, 0, 2, 0, 0, 0, 0));
    assert(t0 * q == (-9) * mn(p, 4, 0, 0, 0, 0, 0, 0) + (18) * mn(p, 3, 0, 1, 1, 0, 0, 0) + (-27) * mn(p, 2, 0, 2, 0, 0, 0, 0));
    lemma_tm(p, -3, 0, 0, 2, 0, 0, 0, 0, -3, 2, 0, 0, 0, 0, 0, 0);
    assert(t1 * s0 == (9) * mn(p, 2, 0, 2, 0, 0, 0, 0));
    lemma_tm(p, -3, 0, 0, 2, 0, 0, 0, 0, 6, 1, 0, 1, 1, 0, 0, 0);
    assert(t1 * s1 == (-18) * mn(p, 1, 0, 3, 1, 0, 0, 0));
    lemma_tm(p, -3, 0, 0, 2, 0, 0, 0, 0, -9, 0, 0, 2, 0, 0, 0, 0);
    assert(t1 * s2 == (27) * mn(p, 0, 0, 4, 0, 0, 0, 0));
    assert(t1 * q == (9) * mn(p, 2, 0, 2, 0, 0, 0, 0) + (-18) * mn(p, 1, 0, 3, 1, 0, 0, 0) + (27) * mn(p, 0, 0, 4, 0, 0, 0, 0));
    assert(pp1 * q == (-9) * mn(p, 4, 0, 0, 0, 0, 0, 0) + (18) * mn(p, 3, 0, 1, 1, 0, 0, 0) + (-18) * mn(p, 2, 0, 2, 0, 0, 0, 0) + (-18) * mn(p, 1, 0, 3, 1, 0, 0, 0) + (27) * mn(p, 0, 0, 4, 0, 0, 0, 0));
}

#[verifier::rlimit(100)]
proof fn dt2_prod12(p: Pt)
    ensures
        ((2) * mn(p, 0, 1, 1, 0, 0, 0, 0)) * ((1) * mn(p, 0, 2, 0, 0, 0, 0, 0)) == (2) * mn(p, 0, 3, 1, 0, 0, 0, 0),
{
    let t0 = (2) * mn(p, 0, 1, 1, 0, 0, 0, 0);
    let s0 = (1) * mn(p, 0, 2, 0, 0, 0, 0, 0);
    let pp0 = t0;
    let qq0 = s0;
    let q = qq0;
    lemma_tm(p, 2, 0, 1, 1, 0, 0, 0, 0, 1, 0, 2, 0, 0, 0, 0, 0);
    assert(t0 * s0 == (2) * mn(p, 0, 3, 1, 0, 0, 0, 0));
    assert(t0 * q == (2) * mn(p, 0, 3, 1, 0, 0, 0, 0));
    assert(pp0 * q == (2) * mn(p, 0, 3, 1, 0, 0, 0, 0));
}

#[verifier::rlimit(100)]
proof fn dt2_prod13(p: Pt)
    ensures
        ((3) * mn(p, 2, 0, 0, 0, 0, 0, 0) + (-3) * mn(p, 0, 0, 2, 0, 0, 0, 0)) * ((3) * mn(p, 2, 0, 0, 0, 0, 0, 0) + (-3) * mn(p, 0, 0, 2, 0, 0, 0, 0)) == (9) * mn(p, 4, 0, 0, 0, 0, 0, 0) + (-18) * mn(p, 2, 0, 2, 0, 0, 0, 0) + (9) * mn(p, 0, 0, 4, 0, 0, 0, 0),
{
    let t0 = (3) * mn(p, 2, 0, 0, 0, 0, 0, 0);
    let t1 = (-3) * mn(p, 0, 0, 2, 0, 0, 0, 0);
    let s0 = (3) * mn(p, 2, 0, 0, 0, 0, 0, 0);
    let s1 = (-3) * mn(p, 0, 0, 2, 0, 0, 0, 0);
    let pp0 = t0;
    let pp1 = pp0 + t1;
    let qq0 = s0;
    let qq1 = qq0 + s1;
    let q = qq1;
    lemma_mul_is_distributive_add_other_way(q, pp0, t1);
    lemma_mul_is_distributive_add(t0, qq0, s1);
    lemma_mul_is_distributive_add(t1, qq0, s1);
    lemma_tm(p, 3, 2, 0, 0, 0, 0, 0, 0, 3, 2, 0, 0, 0, 0, 0, 0);
    assert(t0 * s0 == (9) * mn(p, 4, 0, 0, 0, 0, 0, 0));
    lemma_tm(p, 3, 2, 0, 0, 0, 0, 0, 0, -3, 0, 0, 2, 0, 0, 0, 0);
    assert(t0 * s1 == (-9) * mn(p, 2, 0, 2, 0, 0, 0, 0));
    assert(t0 * q == (9) * mn(p, 4, 0, 0, 0, 0, 0, 0) + (-9) * mn(p, 2, 0, 2, 0, 0, 0, 0));
    lemma_tm(p, -3, 0, 0, 2, 0, 0, 0, 0, 3, 2, 0, 0, 0, 0, 0, 0);
    assert(t1 * s0 == (-9) * mn(p, 2, 0, 2, 0, 0, 0, 0));
    lemma_tm(p, -3, 0, 0, 2, 0, 0, 0, 0, -3, 0, 0, 2, 0, 0, 0, 0);
    assert(t1 * s1 == (9) * mn(p, 0, 0, 4, 0, 0, 0, 0));
    assert(t1 * q == (-9) * mn(p, 2, 0, 2, 0, 0, 0, 0) + (9) * mn(p, 0, 0, 4, 0, 0, 0, 0));
    assert(pp1 * q == (9) * mn(p, 4, 0, 0, 0, 0, 0, 0) + (-18) * mn(p, 2, 0, 2, 0, 0, 0, 0) + (9) * mn(p, 0, 0, 4, 0, 0, 0, 0));
}

#[verifier::rlimit(100)]
proof fn dt2_prod14(p: Pt)
    ensures
        ((9) * mn(p, 4, 0, 0, 0, 0, 0, 0) + (-18) * mn(p, 2, 0, 2, 0, 0, 0, 0) + (9) * mn(p, 0, 0, 4, 0, 0, 0, 0)) * ((1) * mn(p, 0, 0, 1, 0, 0, 0, 0)) == (9) * mn(p, 4, 0, 1, 0, 0, 0, 0) + (-18) * mn(p, 2, 0, 3, 0, 0, 0, 0) + (9) * mn(p, 0, 0, 5, 0, 0, 0, 0),
{
    let t0 = (9) * mn(p, 4, 0, 0, 0, 0, 0, 0);
    let t1 = (-18) * mn(p, 2, 0, 2, 0, 0, 0, 0);
    let t2 = (9) * mn(p, 0, 0, 4, 0, 0, 0, 0);
    let s0 = (1) * mn(p, 0, 0, 1, 0, 0, 0, 0);
    let pp0 = t0;
    let pp1 = pp0 + t1;
    let pp2 = pp1 + t2;
    let qq0 = s0;
    let q = qq0;
    lemma_mul_is_distributive_add_other_way(q, pp0, t1);
    lemma_mul_is_distributive_add_other_way(q, pp1, t2);
    lemma_tm(p, 9, 4, 0, 0, 0, 0, 0, 0, 1, 0, 0, 1, 0, 0, 0, 0);
    assert(t0 * s0 == (9) * mn(p, 4, 0, 1, 0, 0, 0, 0));
    assert(t0 * q == (9) * mn(p, 4, 0, 1, 0, 0, 0, 0));
    lemma_tm(p, -18, 2, 0, 2, 0, 0, 0, 0, 1, 0, 0, 1, 0, 0, 0, 0);
    assert(t1 * s0 == (-18) * mn(p, 2, 0, 3, 0, 0, 0, 0));
    assert(t1 * q == (-18) * mn(p, 2, 0, 3, 0, 0, 0, 0));
    lemma_tm(p, 9, 0, 0, 4, 0, 0, 0, 0, 1, 0, 0, 1, 0, 0, 0, 0);
    assert(t2 * s0 == (9) * mn(p, 0, 0, 5, 0, 0, 0, 0));
    assert(t2 * q == (9) * mn(p, 0, 0, 5, 0, 0, 0, 0));
    assert(pp2 * q == (9) * mn(p, 4, 0, 1, 0, 0, 0, 0) + (-18) * mn(p, 2, 0, 3, 0, 0, 0, 0) + (9) * mn(p, 0, 0, 5, 0, 0, 0, 0));
}

#[verifier::rlimit(100)]
proof fn dt2_prod15(p: Pt)
    ensures
        ((2) * mn(p, 0, 1, 1, 0, 0, 0, 0)) * ((2) * mn(p, 0, 1, 1, 0, 0, 0, 0)) == (4) * mn(p, 0, 2, 2, 0, 0, 0, 0),
{
    let t0 = (2) * mn(p, 0, 1, 1, 0, 0, 0, 0);
    let s0 = (2) * mn(p, 0, 1, 1, 0, 0, 0, 0);
    let pp0 = t0;
    let qq0 = s0;
    let q = qq0;
    lemma_tm(p, 2, 0, 1, 1, 0, 0, 0, 0, 2, 0, 1, 1, 0, 0, 0, 0);
    assert(t0 * s0 == (4) * mn(p, 0, 2, 2, 0, 0, 0, 0));
    assert(t0 * q == (4) * mn(p, 0, 2, 2, 0, 0, 0, 0));
    assert(pp0 * q == (4) * mn(p, 0, 2, 2, 0, 0, 0, 0));
}

#[verifier::rlimit(100)]
proof fn dt2_prod16(p: Pt)
    ensures
        ((1) * mn(p, 1, 0, 0, 0, 0, 0, 0)) * ((4) * mn(p, 0, 2, 2, 0, 0, 0, 0)) == (4) * mn(p, 1, 2, 2, 0, 0, 0, 0),
{
    let t0 = (1) * mn(p, 1, 0, 0, 0, 0, 0, 0);
    let s0 = (4) * mn(p, 0, 2, 2, 0, 0, 0, 0);
    let pp0 = t0;
    let qq0 = s0;
    let q = qq0;
    lemma_tm(p, 1, 1, 0, 0, 0, 0, 0, 0, 4, 0, 2, 2, 0, 0, 0, 0);
    assert(t0 * s0 == (4) * mn(p, 1, 2, 2, 0, 0, 0, 0));
    assert(t0 * q == (4) * mn(p, 1, 2, 2, 0, 0, 0, 0));
    assert(pp0 * q == (4) * mn(p, 1, 2, 2, 0, 0, 0, 0));
}

#[verifier::rlimit(100)]
proof fn dt2_prod17(p: Pt)
    ensures
        ((2) * mn(p, 0, 1, 1, 0, 0, 0, 0)) * ((9) * mn(p, 4, 0, 1, 0, 0, 0, 0) + (-18) * mn(p, 2, 0, 3, 0, 0, 0, 0) + (-8) * mn(p, 1, 2, 2, 0, 0, 0, 0) + (9) * mn(p, 0, 0, 5, 0, 0, 0, 0)) == (18) * mn(p, 4, 1, 2, 0, 0, 0, 0) + (-36) * mn(p, 2, 1, 4, 0, 0, 0, 0) + (-16) * mn(p, 1, 3, 3, 0, 0, 0, 0) + (18) * mn(p, 0, 1, 6, 0, 0, 0, 0),
{
    let t0 = (2) * mn(p, 0, 1, 1, 0, 0, 0, 0);
    let s0 = (9) * mn(p, 4, 0, 1, 0, 0, 0, 0);
    let s1 = (-18) * mn(p, 2, 0, 3, 0, 0, 0, 0);
    let s2 = (-8) * mn(p, 1, 2, 2, 0, 0, 0, 0);
    let s3 = (9) * mn(p, 0, 0, 5, 0, 0, 0, 0);
    let pp0 = t0;
    let qq0 = s0;
    let qq1 = qq0 + s1;
    let qq2 = qq1 + s2;
    let qq3 = qq2 + s3;
    let q = qq3;
    lemma_mul_is_distributive_add(t0, qq0, s1);
    lemma_mul_is_distributive_add(t0, qq1, s2);
    lemma_mul_is_distributive_add(t0, qq2, s3);
    lemma_tm(p, 2, 0, 1, 1, 0, 0, 0, 0, 9, 4, 0, 1, 0, 0, 0, 0);
    assert(t0 * s0 == (18) * mn(p, 4, 1, 2, 0, 0, 0, 0));
    lemma_tm(p, 2, 0, 1, 1, 0, 0, 0, 0, -18, 2, 0, 3, 0, 0, 0, 0);
    assert(t0 * s1 == (-36) * mn(p, 2, 1, 4, 0, 0, 0, 0));
    lemma_tm(p, 2, 0, 1, 1, 0, 0, 0, 0, -8, 1, 2, 2, 0, 0, 0, 0);
    assert(t0 * s2 == (-16) * mn(p, 1, 3, 3, 0, 0, 0, 0));
    lemma_tm(p, 2, 0, 1, 1, 0, 0, 0, 0, 9, 0, 0, 5, 0, 0, 0, 0);
    assert(t0 * s3 == (18) * mn(p, 0, 1, 6, 0, 0, 0, 0));
    assert(t0 * q == (18) * mn(p, 4, 1, 2, 0, 0, 0, 0) + (-36) * mn(p, 2, 1, 4, 0, 0, 0, 0) + (-16) * mn(p, 1, 3, 3, 0, 0, 0, 0) + (18) * mn(p, 0, 1, 6, 0, 0, 0, 0));
    assert(pp0 * q == (18) * mn(p, 4, 1, 2, 0, 0, 0, 0) + (-36) * mn(p, 2, 1, 4, 0, 0, 0, 0) + (-16) * mn(p, 1, 3, 3, 0, 0, 0, 0) + (18) * mn(p, 0, 1, 6, 0, 0, 0, 0));
}

#[verifier::rlimit(100)]
proof fn dt2_prod18(p: Pt)
    ensures
        ((4) * mn(p, 0, 2, 2, 0, 0, 0, 0)) * ((1) * mn(p, 1, 0, 0, 0, 0, 0, 0)) == (4) * mn(p, 1, 2, 2, 0, 0, 0, 0),
{
    let t0 = (4) * mn(p, 0, 2, 2, 0, 0, 0, 0);
    let s0 = (1) * mn(p, 1, 0, 0, 0, 0, 0, 0);
    let pp0 = t0;
    let qq0 = s0;
    let q = qq0;
    lemma_tm(p, 4, 0, 2, 2, 0, 0, 0, 0, 1, 1, 0, 0, 0, 0, 0, 0);
    assert(t0 * s0 == (4) * mn(p, 1, 2, 2, 0, 0, 0, 0));
    assert(t0 * q == (4) * mn(p, 1, 2, 2, 0, 0, 0, 0));
    assert(pp0 * q == (4) * mn(p, 1, 2, 2, 0, 0, 0, 0));
}

#[verifier::rlimit(100)]
proof fn dt2_prod19(p: Pt)
    ensures
        ((3) * mn(p, 2, 0, 0, 0, 0, 0, 0) + (-3) * mn(p, 0, 0, 2, 0, 0, 0, 0)) * ((-9) * mn(p, 4, 0, 1, 0, 0, 0, 0) + (18) * mn(p, 2, 0, 3, 0, 0, 0, 0) + (12) * mn(p, 1, 2, 2, 0, 0, 0, 0) + (-9) * mn(p, 0, 0, 5, 0, 0, 0, 0)) == (-27) * mn(p, 6, 0, 1, 0, 0, 0, 0) + (81) * mn(p, 4, 0, 3, 0, 0, 0, 0) + (36) * mn(p, 3, 2, 2, 0, 0, 0, 0) + (-81) * mn(p, 2, 0, 5, 0, 0, 0, 0) + (-36) * mn(p, 1, 2, 4, 0, 0, 0, 0) + (27) * mn(p, 0, 0, 7, 0, 0, 0, 0),
{
    let t0 = (3) * mn(p, 2, 0, 0, 0, 0, 0, 0);
    let t1 = (-3) * mn(p, 0, 0, 2, 0, 0, 0, 0);
    let s0 = (-9) * mn(p, 4, 0, 1, 0, 0, 0, 0);
    let s1 = (18) * mn(p, 2, 0, 3, 0, 0, 0, 0);
    let s2 = (12) * mn(p, 1, 2, 2, 0, 0, 0, 0);
    let s3 = (-9) * mn(p, 0, 0, 5, 0, 0, 0, 0);
    let pp0 = t0;
    let pp1 = pp0 + t1;
    let qq0 = s0;
    let qq1 = qq0 + s1;
    let qq2 = qq1 + s2;
    let qq3 = qq2 + s3;
    let q = qq3;
    lemma_mul_is_distributive_add_other_way(q, pp0, t1);
    lemma_mul_is_distributive_add(t0, qq0, s1);
    lemma_mul_is_distributive_add(t0, qq1, s2);
    lemma_mul_is_distributive_add(t0, qq2, s3);
    lemma_mul_is_distributive_add(t1, qq0, s1);
    lemma_mul_is_distributive_add(t1, qq1, s2);
    lemma_mul_is_distributive_add(t1, qq2, s3);
    lemma_tm(p, 3, 2, 0, 0, 0, 0, 0, 0, -9, 4, 0, 1, 0, 0, 0, 0);
    assert(t0 * s0 == (-27) * mn(p, 6, 0, 1, 0, 0, 0, 0));
    lemma_tm(p, 3, 2, 0, 0, 0, 0, 0, 0, 18, 2, 0, 3, 0, 0, 0, 0);
    assert(t0 * s1 == (54) * mn(p, 4, 0, 3, 0, 0, 0, 0));
    lemma_tm(p, 3, 2, 0, 0, 0, 0, 0, 0, 12, 1, 2, 2, 0, 0, 0, 0);
    assert(t0 * s2 == (36) * mn(p, 3, 2, 2, 0, 0, 0, 0));
    lemma_tm(p, 3, 2, 0, 0, 0, 0, 0, 0, -9, 0, 0, 5, 0, 0, 0, 0);
    assert(t0 * s3 == (-27) * mn(p, 2, 0, 5, 0, 0, 0, 0));
    assert(t0 * q == (-27) * mn(p, 6, 0, 1, 0, 0, 0, 0) + (54) * mn(p, 4, 0, 3, 0, 0, 0, 0) + (36) * mn(p, 3, 2, 2, 0, 0, 0, 0) + (-27) * mn(p, 2, 0, 5, 0, 0, 0, 0));
    lemma_tm(p, -3, 0, 0, 2, 0, 0, 0, 0, -9, 4, 0, 1, 0, 0, 0, 0);
    assert(t1 * s0 == (27) * mn(p, 4, 0, 3, 0, 0, 0, 0));
    lemma_tm(p, -3, 0, 0, 2, 0, 0, 0, 0, 18, 2, 0, 3, 0, 0, 0, 0);
    assert(t1 * s1 == (-54) * mn(p, 2, 0, 5, 0, 0, 0, 0));
    lemma_tm(p, -3, 0, 0, 2, 0, 0, 0, 0, 12, 1, 2, 2, 0, 0, 0, 0);
    assert(t1 * s2 == (-36) * mn(p, 1, 2, 4, 0, 0, 0, 0));
    lemma_tm(p, -3, 0, 0, 2, 0, 0, 0, 0, -9, 0, 0, 5, 0, 0, 0, 0);
    assert(t1 * s3 == (27) * mn(p, 0, 0, 7, 0, 0, 0, 0));
    assert(t1 * q == (27) * mn(p, 4, 0, 3, 0, 0, 0, 0) + (-54) * mn(p, 2, 0, 5, 0, 0, 0, 0) + (-36) * mn(p, 1, 2, 4, 0, 0, 0, 0) + (27) * mn(p, 0, 0, 7, 0, 0, 0, 0));
    assert(pp1 * q == (-27) * mn(p, 6, 0, 1, 0, 0, 0, 0) + (81) * mn(p, 4, 0, 3, 0, 0, 0, 0) + (36) * mn(p, 3, 2, 2, 0, 0, 0, 0) + (-81) * mn(p, 2, 0, 5, 0, 0, 0, 0) + (-36) * mn(p, 1, 2, 4, 0, 0, 0, 0) + (27) * mn(p, 0, 0, 7, 0, 0, 0, 0));
}

#[verifier::rlimit(100)]
proof fn dt2_prod20(p: Pt)
    ensures
        ((1) * mn(p, 0, 1, 0, 0, 0, 0, 0)) * ((2) * mn(p, 0, 1, 1, 0, 0, 0, 0)) == (2) * mn(p, 0, 2, 1, 0, 0, 0, 0),
{
    let t0 = (1) * mn(p, 0, 1, 0, 0, 0, 0, 0);
    let s0 = (2) * mn(p, 0, 1, 1, 0, 0, 0, 0);
    let pp0 = t0;
    let qq0 = s0;
    let q = qq0;
    lemma_tm(p, 1, 0, 1, 0, 0, 0, 0, 0, 2, 0, 1, 1, 0, 0, 0, 0);
    assert(t0 * s0 == (2) * mn(p, 0, 2, 1, 0, 0, 0, 0));
    assert(t0 * q == (2) * mn(p, 0, 2, 1, 0, 0, 0, 0));
    assert(pp0 * q == (2) * mn(p, 0, 2, 1, 0, 0, 0, 0));
}

#[verifier::rlimit(100)]
proof fn dt2_prod21(p: Pt)
    ensures
        ((2) * mn(p, 0, 2, 1, 0, 0, 0, 0)) * ((2) * mn(p, 0, 1, 1, 0, 0, 0, 0)) == (4) * mn(p, 0, 3, 2, 0, 0, 0, 0),
{
    let t0 = (2) * mn(p, 0, 2, 1, 0, 0, 0, 0);
    let s0 = (2) * mn(p, 0, 1, 1, 0, 0, 0, 0);
    let pp0 = t0;
    let qq0 = s0;
    let q = qq0;
    lemma_tm(p, 2, 0, 2, 1, 0, 0, 0, 0, 2, 0, 1, 1, 0, 0, 0, 0);
    assert(t0 * s0 == (4) * mn(p, 0, 3, 2, 0, 0, 0, 0));
    assert(t0 * q == (4) * mn(p, 0, 3, 2, 0, 0, 0, 0));
    assert(pp0 * q == (4) * mn(p, 0, 3, 2, 0, 0, 0, 0));
}

#[verifier::rlimit(100)]
proof fn dt2_prod22(p: Pt)
    ensures
        ((4) * mn(p, 0, 3, 2, 0, 0, 0, 0)) * ((2) * mn(p, 0, 1, 1, 0, 0, 0, 0)) == (8) * mn(p, 0, 4, 3, 0, 0, 0, 0),
{
    let t0 = (4) * mn(p, 0, 3, 2, 0, 0, 0, 0);
    let s0 = (2) * mn(p, 0, 1, 1, 0, 0, 0, 0);
    let pp0 = t0;
    let qq0 = s0;
    let q = qq0;
    lemma_tm(p, 4, 0, 3, 2, 0, 0, 0, 0, 2, 0, 1, 1, 0, 0, 0, 0);
    assert(t0 * s0 == (8) * mn(p, 0, 4, 3, 0, 0, 0, 0));
    assert(t0 * q == (8) * mn(p, 0, 4, 3, 0, 0, 0, 0));
    assert(pp0 * q == (8) * mn(p, 0, 4, 3, 0, 0, 0, 0));
}

#[verifier::rlimit(100)]
proof fn dt2_prod23(p: Pt)
    ensures
        ((4) * mn(p, 0, 2, 2, 0, 0, 0, 0)) * ((2) * mn(p, 0, 1, 1, 0, 0, 0, 0)) == (8) * mn(p, 0, 3, 3, 0, 0, 0, 0),
{
    let t0 = (4) * mn(p, 0, 2, 2, 0, 0, 0, 0);
    let s0 = (2) * mn(p, 0, 1, 1, 0, 0, 0, 0);
    let pp0 = t0;
    let qq0 = s0;
    let q = qq0;
    lemma_tm(p, 4, 0, 2, 2, 0, 0, 0, 0, 2, 0, 1, 1, 0, 0, 0, 0);
    assert(t0 * s0 == (8) * mn(p, 0, 3, 3, 0, 0, 0, 0));
    assert(t0 * q == (8) * mn(p, 0, 3, 3, 0, 0, 0, 0));
    assert(pp0 * q == (8) * mn(p, 0, 3, 3, 0, 0, 0, 0));
}

#[verifier::rlimit(100)]
proof fn dt2_prod24(p: Pt)
    ensures
        ((8) * mn(p, 0, 3, 3, 0, 0, 0, 0)) * ((1) * mn(p, 0, 0, 1, 0, 0, 0, 0)) == (8) * mn(p, 0, 3, 4, 0, 0, 0, 0),
{
    let t0 = (8) * mn(p, 0, 3, 3, 0, 0, 0, 0);
    let s0 = (1) * mn(p, 0, 0, 1, 0, 0, 0, 0);
    let pp0 = t0;
    let qq0 = s0;
    let q = qq0;
    lemma_tm(p, 8, 0, 3, 3, 0, 0, 0, 0, 1, 0, 0, 1, 0, 0, 0, 0);
    assert(t0 * s0 == (8) * mn(p, 0, 3, 4, 0, 0, 0, 0));
    assert(t0 * q == (8) * mn(p, 0, 3, 4, 0, 0, 0, 0));
    assert(pp0 * q == (8) * mn(p, 0, 3, 4, 0, 0, 0, 0));
}

#[verifier::rlimit(100)]
proof fn dt2_prod25(p: Pt)
    ensures
        ((1) * mn(p, 0, 0, 2, 0, 0, 0, 0)) * ((1) * mn(p, 0, 0, 1, 0, 0, 0, 0)) == (1) * mn(p, 0, 0, 3, 0, 0, 0, 0),
{
    let t0 = (1) * mn(p, 0, 0, 2, 0, 0, 0, 0);
    let s0 = (1) * mn(p, 0, 0, 1, 0, 0, 0, 0);
    let pp0 = t0;
    let qq0 = s0;
    let q = qq0;
    lemma_tm(p, 1, 0, 0, 2, 0, 0, 0, 0, 1, 0, 0, 1, 0, 0, 0, 0);
    assert(t0 * s0 == (1) * mn(p, 0, 0, 3, 0, 0, 0, 0));
    assert(t0 * q == (1) * mn(p, 0, 0, 3, 0, 0, 0, 0));
    assert(pp0 * q == (1) * mn(p, 0, 0, 3, 0, 0, 0, 0));
}

#[verifier::rlimit(100)]
proof fn dt2_prod26(p: Pt)
    ensures
        ((1) * mn(p, 0, 0, 3, 0, 0, 0, 0)) * ((8) * mn(p, 0, 3, 1, 0, 0, 0, 0)) == (8) * mn(p, 0, 3, 4, 0, 0, 0, 0),
{
    let t0 = (1) * mn(p, 0, 0, 3, 0, 0, 0, 0);
    let s0 = (8) * mn(p, 0, 3, 1, 0, 0, 0, 0);
    let pp0 = t0;
    let qq0 = s0;
    let q = qq0;
    lemma_tm(p, 1, 0, 0, 3, 0, 0, 0, 0, 8, 0, 3, 1, 0, 0, 0, 0);
    assert(t0 * s0 == (8) * mn(p, 0, 3, 4, 0, 0, 0, 0));
    assert(t0 * q == (8) * mn(p, 0, 3, 4, 0, 0, 0, 0));
    assert(pp0 * q == (8) * mn(p, 0, 3, 4, 0, 0, 0, 0));
}

#[verifier::rlimit(100)]
proof fn dt2_prod27(p: Pt)
    ensures
        ((1) * mn(p, 0, 2, 0, 0, 0, 0, 0)) * ((1) * mn(p, 0, 0, 1, 0, 0, 0, 0)) == (1) * mn(p, 0, 2, 1, 0, 0, 0, 0),
{
    let t0 = (1) * mn(p, 0, 2, 0, 0, 0, 0, 0);
    let s0 = (1) * mn(p, 0, 0, 1, 0, 0, 0, 0);
    let pp0 = t0;
    let qq0 = s0;
    let q = qq0;
    lemma_tm(p, 1, 0, 2, 0, 0, 0, 0, 0, 1, 0, 0, 1, 0, 0, 0, 0);
    assert(t0 * s0 == (1) * mn(p, 0, 2, 1, 0, 0, 0, 0));
    assert(t0 * q == (1) * mn(p, 0, 2, 1, 0, 0, 0, 0));
    assert(pp0 * q == (1) * mn(p, 0, 2, 1, 0, 0, 0, 0));
}

#[verifier::rlimit(100)]
proof fn dt2_prod28(p: Pt)
    ensures
        ((1) * mn(p, 2, 0, 0, 0, 0, 0, 0)) * ((1) * mn(p, 1, 0, 0, 0, 0, 0, 0)) == (1) * mn(p, 3, 0, 0, 0, 0, 0, 0),
{
    let t0 = (1) * mn(p, 2, 0, 0, 0, 0, 0, 0);
    let s0 = (1) * mn(p, 1, 0, 0, 0, 0, 0, 0);
    let pp0 = t0;
    let qq0 = s0;
    let q = qq0;
    lemma_tm(p, 1, 2, 0, 0, 0, 0, 0, 0, 1, 1, 0, 0, 0, 0, 0, 0);
    assert(t0 * s0 == (1) * mn(p, 3, 0, 0, 0, 0, 0, 0));
    assert(t0 * q == (1) * mn(p, 3, 0, 0, 0, 0, 0, 0));
    assert(pp0 * q == (1) * mn(p, 3, 0, 0, 0, 0, 0, 0));
}

#[verifier::rlimit(100)]
proof fn dt2_prod29(p: Pt)
    ensures
        ((1) * mn(p, 1, 0, 1, 0, 0, 0, 0)) * ((1) * mn(p, 0, 0, 1, 0, 0, 0, 0)) == (1) * mn(p, 1, 0, 2, 0, 0, 0, 0),
{
    let t0 = (1) * mn(p, 1, 0, 1, 0, 0, 0, 0);
    let s0 = (1) * mn(p, 0, 0, 1, 0, 0, 0, 0);
    let pp0 = t0;
    let qq0 = s0;
    let q = qq0;
    lemma_tm(p, 1, 1, 0, 1, 0, 0, 0, 0, 1, 0, 0, 1, 0, 0, 0, 0);
    assert(t0 * s0 == (1) * mn(p, 1, 0, 2, 0, 0, 0, 0));
    assert(t0 * q == (1) * mn(p, 1, 0, 2, 0, 0, 0, 0));
    assert(pp0 * q == (1) * mn(p, 1, 0, 2, 0, 0, 0, 0));
}

#[verifier::rlimit(100)]
proof fn dt2_prod30(p: Pt)
    ensures
        ((1) * mn(p, 0, 0, 0, 1, 0, 0, 0)) * ((1) * mn(p, 0, 0, 3, 0, 0, 0, 0)) == (1) * mn(p, 0, 0, 3, 1, 0, 0, 0),
{
    let t0 = (1) * mn(p, 0, 0, 0, 1, 0, 0, 0);
    let s0 = (1) * mn(p, 0, 0, 3, 0, 0, 0, 0);
    let pp0 = t0;
    let qq0 = s0;
    let q = qq0;
    lemma_tm(p, 1, 0, 0, 0, 1, 0, 0, 0, 1, 0, 0, 3, 0, 0, 0, 0);
    assert(t0 * s0 == (1) * mn(p, 0, 0, 3, 1, 0, 0, 0));
    assert(t0 * q == (1) * mn(p, 0, 0, 3, 1, 0, 0, 0));
    assert(pp0 * q == (1) * mn(p, 0, 0, 3, 1, 0, 0, 0));
}

#[verifier::rlimit(100)]
pub(crate) proof fn lemma_double_tangent2_identity(x: int, y: int, z: int, b: int)
    ensures
        ({
            let p = Pt { v0: x, v1: y, v2: z, v3: b, v4: 0, v5: 0, v6: 0 };
            tangent_double(x, y, z).2 - z * z * z * rcb_double(x, y, z, b).2 == dt2_cof0(p) * curve_poly(x, y, z, b)
        }),
{
    let p = Pt { v0: x, v1: y, v2: z, v3: b, v4: 0, v5: 0, v6: 0 };
    lemma_vars(p);
    assert(x == (1) * mn(p, 1, 0, 0, 0, 0, 0, 0));
    assert(y == (1) * mn(p, 0, 1, 0, 0, 0, 0, 0));
    assert(z == (1) * mn(p, 0, 0, 1, 0, 0, 0, 0));
    assert(b == (1) * mn(p, 0, 0, 0, 1, 0, 0, 0));
    dt2_prod0(p);
    let n0 = x * x;
    assert(n0 == (1) * mn(p, 2, 0, 0, 0, 0, 0, 0));
    dt2_prod1(p);
    let n1 = y * y;
    assert(n1 == (1) * mn(p, 0, 2, 0, 0, 0, 0, 0));
    dt2_prod2(p);
    let n2 = z * z;
    assert(n2 == (1) * mn(p, 0, 0, 2, 0, 0, 0, 0));
    dt2_prod3(p);
    let n3 = x * y;
    assert(n3 == (1) * mn(p, 1, 1, 0, 0, 0, 0, 0));
    let n4 = 2 * n3;
    assert(n4 == (2) * mn(p, 1, 1, 0, 0, 0, 0, 0));
    dt2_prod4(p);
    let n5 = y * z;
    assert(n5 == (1) * mn(p, 0, 1, 1, 0, 0, 0, 0));
    let n6 = 2 * n5;
    assert(n6 == (2) * mn(p, 0, 1, 1, 0, 0, 0, 0));
    dt2_prod5(p);
    let n7 = x * z;
    assert(n7 == (1) * mn(p, 1, 0, 1, 0, 0, 0, 0));
    let n8 = 2 * n7;
    assert(n8 == (2) * mn(p, 1, 0, 1, 0, 0, 0, 0));
    dt2_prod6(p);
    let n9 = b * n2;
    assert(n9 == (1) * mn(p, 0, 0, 2, 1, 0, 0, 0));
    let n10 = n9 - n8;
    assert(n10 == (-2) * mn(p, 1, 0, 1, 0, 0, 0, 0) + (1) * mn(p, 0, 0, 2, 1, 0, 0, 0));
    let n11 = 3 * n10;
    assert(n11 == (-6) * mn(p, 1, 0, 1, 0, 0, 0, 0) + (3) * mn(p, 0, 0, 2, 1, 0, 0, 0));
    let n12 = n1 - n11;
    assert(n12 == (6) * mn(p, 1, 0, 1, 0, 0, 0, 0) + (1) * mn(p, 0, 2, 0, 0, 0, 0, 0) + (-3) * mn(p, 0, 0, 2, 1, 0, 0, 0));
    let n13 = n1 + n11;
    assert(n13 == (-6) * mn(p, 1, 0, 1, 0, 0, 0, 0) + (1) * mn(p, 0, 2, 0, 0, 0, 0, 0) + (3) * mn(p, 0, 0, 2, 1, 0, 0, 0));
    dt2_prod7(p);
    let n14 = b * n8;
    assert(n14 == (2) * mn(p, 1, 0, 1, 1, 0, 0, 0));
    let n15 = 3 * n2;
    assert(n15 == (3) * mn(p, 0, 0, 2, 0, 0, 0, 0));
    let n16 = n14 - n15;
    assert(n16 == (2) * mn(p, 1, 0, 1, 1, 0, 0, 0) + (-3) * mn(p, 0, 0, 2, 0, 0, 0, 0));
    let n17 = n16 - n0;
    assert(n17 == (-1) * mn(p, 2, 0, 0, 0, 0, 0, 0) + (2) * mn(p, 1, 0, 1, 1, 0, 0, 0) + (-3) * mn(p, 0, 0, 2, 0, 0, 0, 0));
    let n18 = 3 * n17;
    assert(n18 == (-3) * mn(p, 2, 0, 0, 0, 0, 0, 0) + (6) * mn(p, 1, 0, 1, 1, 0, 0, 0) + (-9) * mn(p, 0, 0, 2, 0, 0, 0, 0));
    let n19 = 3 * n0;
    assert(n19 == (3) * mn(p, 2, 0, 0, 0, 0, 0, 0));
    let n20 = n19 - n15;
    assert(n20 == (3) * mn(p, 2, 0, 0, 0, 0, 0, 0) + (-3) * mn(p, 0, 0, 2, 0, 0, 0, 0));
    dt2_prod8(p);
    let n21 = n12 * n4;
    assert(n21 == (12) * mn(p, 2, 1, 1, 0, 0, 0, 0) + (2) * mn(p, 1, 3, 0, 0, 0, 0, 0) + (-6) * mn(p, 1, 1, 2, 1, 0, 0, 0));
    dt2_prod9(p);
    let n22 = n18 * n6;
    assert(n22 == (-6) * mn(p, 2, 1, 1, 0, 0, 0, 0) + (12) * mn(p, 1, 1, 2, 1, 0, 0, 0) + (-18) * mn(p, 0, 1, 3, 0, 0, 0, 0));
    let n23 = n21 - n22;
    assert(n23 == (18) * mn(p, 2, 1, 1, 0, 0, 0, 0) + (2) * mn(p, 1, 3, 0, 0, 0, 0, 0) + (-18) * mn(p, 1, 1, 2, 1, 0, 0, 0) + (18) * mn(p, 0, 1, 3, 0, 0, 0, 0));
    dt2_prod10(p);
    let n24 = n13 * n12;
    assert(n24 == (-36) * mn(p, 2, 0, 2, 0, 0, 0, 0) + (36) * mn(p, 1, 0, 3, 1, 0, 0, 0) + (1) * mn(p, 0, 4, 0, 0, 0, 0, 0) + (-9) * mn(p, 0, 0, 4, 2, 0, 0, 0));
    dt2_prod11(p);
    let n25 = n20 * n18;
    assert(n25 == (-9) * mn(p, 4, 0, 0, 0, 0, 0, 0) + (18) * mn(p, 3, 0, 1, 1, 0, 0, 0) + (-18) * mn(p, 2, 0, 2, 0, 0, 0, 0) + (-18) * mn(p, 1, 0, 3, 1, 0, 0, 0) + (27) * mn(p, 0, 0, 4, 0, 0, 0, 0));
    let n26 = n24 + n25;
    assert(n26 == (-9) * mn(p, 4, 0, 0, 0, 0, 0, 0) + (18) * mn(p, 3, 0, 1, 1, 0, 0, 0) + (-54) * mn(p, 2, 0, 2, 0, 0, 0, 0) + (18) * mn(p, 1, 0, 3, 1, 0, 0, 0) + (1) * mn(p, 0, 4, 0, 0, 0, 0, 0) + (-9) * mn(p, 0, 0, 4, 2, 0, 0, 0) + (27) * mn(p, 0, 0, 4, 0, 0, 0, 0));
    dt2_prod12(p);
    let n27 = n6 * n1;
    assert(n27 == (2) * mn(p, 0, 3, 1, 0, 0, 0, 0));
    let n28 = 4 * n27;
    assert(n28 == (8) * mn(p, 0, 3, 1, 0, 0, 0, 0));
    dt2_prod13(p);
    let n29 = n20 * n20;
    assert(n29 == (9) * mn(p, 4, 0, 0, 0, 0, 0, 0) + (-18) * mn(p, 2, 0, 2, 0, 0, 0, 0) + (9) * mn(p, 0, 0, 4, 0, 0, 0, 0));
    dt2_prod14(p);
    let n30 = n29 * z;
    assert(n30 == (9) * mn(p, 4, 0, 1, 0, 0, 0, 0) + (-18) * mn(p, 2, 0, 3, 0, 0, 0, 0) + (9) * mn(p, 0, 0, 5, 0, 0, 0, 0));
    dt2_prod15(p);
    let n31 = n6 * n6;
    assert(n31 == (4) * mn(p, 0, 2, 2, 0, 0, 0, 0));
    dt2_prod16(p);
    let n32 = x * n31;
    assert(n32 == (4) * mn(p, 1, 2, 2, 0, 0, 0, 0));
    let n33 = 2 * n32;
    assert(n33 == (8) * mn(p, 1, 2, 2, 0, 0, 0, 0));
    let n34 = n30 - n33;
    assert(n34 == (9) * mn(p, 4, 0, 1, 0, 0, 0, 0) + (-18) * mn(p, 2, 0, 3, 0, 0, 0, 0) + (-8) * mn(p, 1, 2, 2, 0, 0, 0, 0) + (9) * mn(p, 0, 0, 5, 0, 0, 0, 0));
    dt2_prod17(p);
    let n35 = n6 * n34;
    assert(n35 == (18) * mn(p, 4, 1, 2, 0, 0, 0, 0) + (-36) * mn(p, 2, 1, 4, 0, 0, 0, 0) + (-16) * mn(p, 1, 3, 3, 0, 0, 0, 0) + (18) * mn(p, 0, 1, 6, 0, 0, 0, 0));
    dt2_prod18(p);
    let n36 = n31 * x;
    assert(n36 == (4) * mn(p, 1, 2, 2, 0, 0, 0, 0));
    let n37 = n36 - n34;
    assert(n37 == (-9) * mn(p, 4, 0, 1, 0, 0, 0, 0) + (18) * mn(p, 2, 0, 3, 0, 0, 0, 0) + (12) * mn(p, 1, 2, 2, 0, 0, 0, 0) + (-9) * mn(p, 0, 0, 5, 0, 0, 0, 0));
    dt2_prod19(p);
    let n38 = n20 * n37;
    assert(n38 == (-27) * mn(p, 6, 0, 1, 0, 0, 0, 0) + (81) * mn(p, 4, 0, 3, 0, 0, 0, 0) + (36) * mn(p, 3, 2, 2, 0, 0, 0, 0) + (-81) * mn(p, 2, 0, 5, 0, 0, 0, 0) + (-36) * mn(p, 1, 2, 4, 0, 0, 0, 0) + (27) * mn(p, 0, 0, 7, 0, 0, 0, 0));
    dt2_prod20(p);
    let n39 = y * n6;
    assert(n39 == (2) * mn(p, 0, 2, 1, 0, 0, 0, 0));
    dt2_prod21(p);
    let n40 = n39 * n6;
    assert(n40 == (4) * mn(p, 0, 3, 2, 0, 0, 0, 0));
    dt2_prod22(p);
    let n41 = n40 * n6;
    assert(n41 == (8) * mn(p, 0, 4, 3, 0, 0, 0, 0));
    let n42 = n38 - n41;
    assert(n42 == (-27) * mn(p, 6, 0, 1, 0, 0, 0, 0) + (81) * mn(p, 4, 0, 3, 0, 0, 0, 0) + (36) * mn(p, 3, 2, 2, 0, 0, 0, 0) + (-81) * mn(p, 2, 0, 5, 0, 0, 0, 0) + (-36) * mn(p, 1, 2, 4, 0, 0, 0, 0) + (-8) * mn(p, 0, 4, 3, 0, 0, 0, 0) + (27) * mn(p, 0, 0, 7, 0, 0, 0, 0));
    dt2_prod23(p);
    let n43 = n31 * n6;
    assert(n43 == (8) * mn(p, 0, 3, 3, 0, 0, 0, 0));
    dt2_prod24(p);
    let n44 = n43 * z;
    assert(n44 == (8) * mn(p, 0, 3, 4, 0, 0, 0, 0));
    dt2_prod25(p);
    let n45 = n2 * z;
    assert(n45 == (1) * mn(p, 0, 0, 3, 0, 0, 0, 0));
    dt2_prod26(p);
    let n46 = n45 * n28;
    assert(n46 == (8) * mn(p, 0, 3, 4, 0, 0, 0, 0));
    let n47 = n44 - n46;
    assert(n47 == 0);
    dt2_prod27(p);
    let n48 = n1 * z;
    assert(n48 == (1) * mn(p, 0, 2, 1, 0, 0, 0, 0));
    dt2_prod28(p);
    let n49 = n0 * x;
    assert(n49 == (1) * mn(p, 3, 0, 0, 0, 0, 0, 0));
    dt2_prod29(p);
    let n50 = n7 * z;
    assert(n50 == (1) * mn(p, 1, 0, 2, 0, 0, 0, 0));
    let n51 = 3 * n50;
    assert(n51 == (3) * mn(p, 1, 0, 2, 0, 0, 0, 0));
    let n52 = n49 - n51;
    assert(n52 == (1) * mn(p, 3, 0, 0, 0, 0, 0, 0) + (-3) * mn(p, 1, 0, 2, 0, 0, 0, 0));
    dt2_prod30(p);
    let n53 = b * n45;
    assert(n53 == (1) * mn(p, 0, 0, 3, 1, 0, 0, 0));
    let n54 = n52 + n53;
    assert(n54 == (1) * mn(p, 3, 0, 0, 0, 0, 0, 0) + (-3) * mn(p, 1, 0, 2, 0, 0, 0, 0) + (1) * mn(p, 0, 0, 3, 1, 0, 0, 0));
    let n55 = n48 - n54;
    assert(n55 == (-1) * mn(p, 3, 0, 0, 0, 0, 0, 0) + (3) * mn(p, 1, 0, 2, 0, 0, 0, 0) + (1) * mn(p, 0, 2, 1, 0, 0, 0, 0) + (-1) * mn(p, 0, 0, 3, 1, 0, 0, 0));
    assert(n47 == dt2_cof0(p) * n55);
}

} // verus!
