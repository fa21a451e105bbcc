//! The group law of the curve `y^2 z = x^3 - 3 x z^2 + b z^3` in standard
//! projective coordinates: the chord-and-tangent rule, against which the
//! complete formulas of `Projective384::add` and `Projective384::double` are
//! proved.
use vstd::prelude::*;
use vstd::arithmetic::div_mod::{lemma_mul_mod_noop, lemma_add_mod_noop, lemma_fundamental_div_mod,
    lemma_mod_bound, lemma_mod_multiples_vanish, lemma_small_mod};
use vstd::arithmetic::mul::lemma_mul_is_distributive_sub;
use crate::modular::{congruent, lemma_congruent_mul, lemma_congruent_add, lemma_congruent_sub};
use crate::projective::{rcb_add, rcb_double, on_curve, congruent3, Projective384, wv};
use crate::cert_add_curve::lemma_add_curve_identity;
use crate::cert_add0::lemma_add_minor0_identity;
use crate::cert_add1::lemma_add_minor1_identity;
use crate::cert_add2::lemma_add_minor2_identity;
use crate::cert_double::{lemma_double_curve_identity, lemma_double_tangent0_identity,
    lemma_double_tangent1_identity, lemma_double_tangent2_identity};

verus! {

/// The curve equation `y^2 z - (x^3 - 3 x z^2 + b z^3)`: zero modulo `m`
/// exactly on the curve.
pub open spec fn curve_poly(x: int, y: int, z: int, b: int) -> int {
    y * y * z - (x * x * x - 3 * (x * z * z) + b * (z * z * z))
}

/// The chord rule: the sum of `(x1 : y1 : z1)` and `(x2 : y2 : z2)` through
/// the line of slope `l = u / v`, with `u = y2 z1 - y1 z2` and
/// `v = x2 z1 - x1 z2`, that is `x3 = l^2 - x1/z1 - x2/z2` and
/// `y3 = l (x1/z1 - x3) - y1/z1`, written over the common denominator
/// `v^3 z1 z2`.
pub open spec fn chord_add(x1: int, y1: int, z1: int, x2: int, y2: int, z2: int) -> (int, int, int) {
    let u = y2 * z1 - y1 * z2;
    let v = x2 * z1 - x1 * z2;
    let a = u * u * z1 * z2 - v * v * (x1 * z2 + x2 * z1);
    (v * a, u * (v * v * x1 * z2 - a) - y1 * v * v * v * z2, v * v * v * z1 * z2)
}

/// The tangent rule: twice `(x : y : z)` through the tangent of slope
/// `l = n / d`, with `n = 3 x^2 - 3 z^2` (`a = -3`) and `d = 2 y z`, that is
/// `x2 = l^2 - 2 x/z` and `y2 = l (x/z - x2) - y/z`, written over the common
/// denominator `d^3 z`.
pub open spec fn tangent_double(x: int, y: int, z: int) -> (int, int, int) {
    let n = 3 * (x * x) - 3 * (z * z);
    let d = 2 * (y * z);
    let c = n * n * z - 2 * (x * (d * d));
    (d * c, n * (d * d * x - c) - y * d * d * d, d * d * d * z)
}

/// `p` and `q` are the same projective point modulo `m`: their coordinates are
/// proportional (every 2x2 cross product agrees).
pub open spec fn proj_eq(p: (int, int, int), q: (int, int, int), m: int) -> bool {
    &&& congruent(p.0 * q.2, q.0 * p.2, m)
    &&& congruent(p.1 * q.2, q.1 * p.2, m)
    &&& congruent(p.0 * q.1, q.0 * p.1, m)
}

/// Two values are congruent exactly when their difference is a multiple of `m`.
pub proof fn lemma_congruent_diff(a: int, b: int, m: int)
    requires
        m > 0,
    ensures
        congruent(a, b, m) <==> (a - b) % m == 0,
{
    lemma_fundamental_div_mod(a, m);
    lemma_fundamental_div_mod(b, m);
    lemma_mod_bound(a, m);
    lemma_mod_bound(b, m);
    let ra = a % m;
    let rb = b % m;
    let k = a / m - b / m;
    lemma_mul_is_distributive_sub(m, a / m, b / m);
    assert(a - b == m * k + (ra - rb));
    lemma_mod_multiples_vanish(k, ra - rb, m);
    if ra >= rb {
        lemma_small_mod((ra - rb) as nat, m as nat);
    } else {
        lemma_mod_multiples_vanish(-1, ra - rb + m, m);
        lemma_small_mod((ra - rb + m) as nat, m as nat);
    }
}

/// A combination of multiples of `m` is a multiple of `m`.
proof fn lemma_combination(t: int, a: int, e1: int, c: int, e2: int, m: int)
    requires
        m > 0,
        e1 % m == 0,
        e2 % m == 0,
        t == a * e1 + c * e2,
    ensures
        t % m == 0,
{
    lemma_mul_mod_noop(a, e1, m);
    lemma_mul_mod_noop(c, e2, m);
    lemma_add_mod_noop(a * e1, c * e2, m);
    assert((a % m) * 0 == 0);
    assert((c % m) * 0 == 0);
    lemma_small_mod(0, m as nat);
}

/// A point is on the curve modulo `m` exactly when the curve equation is a
/// multiple of `m`.
pub proof fn lemma_on_curve_poly(x: int, y: int, z: int, b: int, m: int)
    requires
        m > 0,
    ensures
        on_curve(x, y, z, b, m) <==> curve_poly(x, y, z, b) % m == 0,
{
    lemma_congruent_diff(y * y * z, x * x * x - 3 * (x * z * z) + b * (z * z * z), m);
}

/// The group law for addition: for two points on the curve (modulo `m`),
/// the complete addition formula gives a point on the curve that is the same
/// projective point as their sum by the chord rule.
pub proof fn lemma_add_group_law(x1: int, y1: int, z1: int, x2: int, y2: int, z2: int, b: int, m: int)
    requires
        m > 0,
        on_curve(x1, y1, z1, b, m),
        on_curve(x2, y2, z2, b, m),
    ensures
        ({
            let r = rcb_add(x1, y1, z1, x2, y2, z2, b);
            &&& on_curve(r.0, r.1, r.2, b, m)
            &&& proj_eq(r, chord_add(x1, y1, z1, x2, y2, z2), m)
        }),
{
    let r = rcb_add(x1, y1, z1, x2, y2, z2, b);
    let q = chord_add(x1, y1, z1, x2, y2, z2);
    let e1 = curve_poly(x1, y1, z1, b);
    let e2 = curve_poly(x2, y2, z2, b);
    lemma_on_curve_poly(x1, y1, z1, b, m);
    lemma_on_curve_poly(x2, y2, z2, b, m);
    lemma_on_curve_poly(r.0, r.1, r.2, b, m);
    lemma_add_curve_identity(x1, y1, z1, x2, y2, z2, b);
    let p = crate::polynomial::Pt { v0: x1, v1: y1, v2: z1, v3: x2, v4: y2, v5: z2, v6: b };
    lemma_combination(curve_poly(r.0, r.1, r.2, b), crate::cert_add_curve::acc_cof0(p), e1,
        crate::cert_add_curve::acc_cof1(p), e2, m);
    lemma_add_minor0_identity(x1, y1, z1, x2, y2, z2, b);
    lemma_combination(r.0 * q.2 - q.0 * r.2, crate::cert_add0::am0_cof0(p), e1,
        crate::cert_add0::am0_cof1(p), e2, m);
    lemma_congruent_diff(r.0 * q.2, q.0 * r.2, m);
    lemma_add_minor1_identity(x1, y1, z1, x2, y2, z2, b);
    lemma_combination(r.1 * q.2 - q.1 * r.2, crate::cert_add1::am1_cof0(p), e1,
        crate::cert_add1::am1_cof1(p), e2, m);
    lemma_congruent_diff(r.1 * q.2, q.1 * r.2, m);
    lemma_add_minor2_identity(x1, y1, z1, x2, y2, z2, b);
    lemma_combination(r.0 * q.1 - q.0 * r.1, crate::cert_add2::am2_cof0(p), e1,
        crate::cert_add2::am2_cof1(p), e2, m);
    lemma_congruent_diff(r.0 * q.1, q.0 * r.1, m);
}

/// The group law for doubling: for a point `(x : y : z)` on the curve
/// (modulo `m`), the complete doubling formula gives a point on the curve,
/// and `z^3` times it is, coordinate by coordinate, the double by the tangent
/// rule.
pub proof fn lemma_double_group_law(x: int, y: int, z: int, b: int, m: int)
    requires
        m > 0,
        on_curve(x, y, z, b, m),
    ensures
        ({
            let r = rcb_double(x, y, z, b);
            let t = tangent_double(x, y, z);
            &&& on_curve(r.0, r.1, r.2, b, m)
            &&& congruent(t.0, z * z * z * r.0, m)
            &&& congruent(t.1, z * z * z * r.1, m)
            &&& congruent(t.2, z * z * z * r.2, m)
        }),
{
    let r = rcb_double(x, y, z, b);
    let t = tangent_double(x, y, z);
    let e = curve_poly(x, y, z, b);
    let p = crate::polynomial::Pt { v0: x, v1: y, v2: z, v3: b, v4: 0, v5: 0, v6: 0 };
    lemma_on_curve_poly(x, y, z, b, m);
    lemma_on_curve_poly(r.0, r.1, r.2, b, m);
    lemma_double_curve_identity(x, y, z, b);
    lemma_combination(curve_poly(r.0, r.1, r.2, b), crate::cert_double::dc_cof0(p), e, 0, 0, m);
    lemma_double_tangent0_identity(x, y, z, b);
    lemma_combination(t.0 - z * z * z * r.0, crate::cert_double::dt0_cof0(p), e, 0, 0, m);
    lemma_congruent_diff(t.0, z * z * z * r.0, m);
    lemma_double_tangent1_identity(x, y, z, b);
    lemma_combination(t.1 - z * z * z * r.1, crate::cert_double::dt1_cof0(p), e, 0, 0, m);
    lemma_congruent_diff(t.1, z * z * z * r.1, m);
    lemma_double_tangent2_identity(x, y, z, b);
    lemma_combination(t.2 - z * z * z * r.2, crate::cert_double::dt2_cof0(p), e, 0, 0, m);
    lemma_congruent_diff(t.2, z * z * z * r.2, m);
}

/// Replacing coordinates by congruent ones keeps a point on the curve.
pub proof fn lemma_on_curve_congruent(r: (int, int, int), s: (int, int, int), b: int, m: int)
    requires
        m > 0,
        congruent3(r, s, m),
        on_curve(s.0, s.1, s.2, b, m),
    ensures
        on_curve(r.0, r.1, r.2, b, m),
{
    lemma_congruent_mul(r.1, s.1, r.1, s.1, m);
    lemma_congruent_mul(r.1 * r.1, s.1 * s.1, r.2, s.2, m);
    lemma_congruent_mul(r.0, s.0, r.0, s.0, m);
    lemma_congruent_mul(r.0 * r.0, s.0 * s.0, r.0, s.0, m);
    lemma_congruent_mul(r.0, s.0, r.2, s.2, m);
    lemma_congruent_mul(r.0 * r.2, s.0 * s.2, r.2, s.2, m);
    lemma_congruent_mul(3, 3, r.0 * r.2 * r.2, s.0 * s.2 * s.2, m);
    lemma_congruent_mul(r.2, s.2, r.2, s.2, m);
    lemma_congruent_mul(r.2 * r.2, s.2 * s.2, r.2, s.2, m);
    lemma_congruent_mul(b, b, r.2 * r.2 * r.2, s.2 * s.2 * s.2, m);
    lemma_congruent_sub(r.0 * r.0 * r.0, s.0 * s.0 * s.0, 3 * (r.0 * r.2 * r.2), 3 * (s.0 * s.2 * s.2), m);
    lemma_congruent_add(r.0 * r.0 * r.0 - 3 * (r.0 * r.2 * r.2), s.0 * s.0 * s.0 - 3 * (s.0 * s.2 * s.2),
        b * (r.2 * r.2 * r.2), b * (s.2 * s.2 * s.2), m);
}

/// Replacing coordinates by congruent ones keeps the same projective point.
pub proof fn lemma_proj_eq_congruent(r: (int, int, int), s: (int, int, int), q: (int, int, int), m: int)
    requires
        m > 0,
        congruent3(r, s, m),
        proj_eq(s, q, m),
    ensures
        proj_eq(r, q, m),
{
    lemma_congruent_mul(r.0, s.0, q.2, q.2, m);
    lemma_congruent_mul(q.0, q.0, r.2, s.2, m);
    lemma_congruent_mul(r.1, s.1, q.2, q.2, m);
    lemma_congruent_mul(q.1, q.1, r.2, s.2, m);
    lemma_congruent_mul(r.0, s.0, q.1, q.1, m);
    lemma_congruent_mul(q.0, q.0, r.1, s.1, m);
}

/// The group law for the results of `Projective384::add`: for two points
/// other than the identity, on the curve modulo `m`, any result congruent to
/// the complete formula is on the curve and is their chord-rule sum.
pub proof fn lemma_add_result(p: Projective384, q: Projective384, b: int, m: int, r: Projective384)
    requires
        m > 0,
        !p.is_identity_spec(),
        !q.is_identity_spec(),
        on_curve(wv(p.x), wv(p.y), wv(p.z), b, m),
        on_curve(wv(q.x), wv(q.y), wv(q.z), b, m),
        congruent3(r.coords(), p.add_spec(q, b), m),
    ensures
        on_curve(wv(r.x), wv(r.y), wv(r.z), b, m),
        proj_eq(r.coords(), chord_add(wv(p.x), wv(p.y), wv(p.z), wv(q.x), wv(q.y), wv(q.z)), m),
{
    lemma_add_group_law(wv(p.x), wv(p.y), wv(p.z), wv(q.x), wv(q.y), wv(q.z), b, m);
    let s = rcb_add(wv(p.x), wv(p.y), wv(p.z), wv(q.x), wv(q.y), wv(q.z), b);
    lemma_on_curve_congruent(r.coords(), s, b, m);
    lemma_proj_eq_congruent(r.coords(), s, chord_add(wv(p.x), wv(p.y), wv(p.z), wv(q.x), wv(q.y), wv(q.z)), m);
}

/// The group law for the results of `Projective384::double`: for a point
/// `(x : y : z)` other than the identity, on the curve modulo `m`, any result
/// congruent to the complete formula is on the curve, and `z^3` times it is
/// the tangent-rule double.
pub proof fn lemma_double_result(p: Projective384, b: int, m: int, r: Projective384)
    requires
        m > 0,
        !p.is_identity_spec(),
        on_curve(wv(p.x), wv(p.y), wv(p.z), b, m),
        congruent3(r.coords(), p.double_spec(b), m),
    ensures
        on_curve(wv(r.x), wv(r.y), wv(r.z), b, m),
        ({
            let (x, y, z) = (wv(p.x), wv(p.y), wv(p.z));
            let t = tangent_double(x, y, z);
            &&& congruent(t.0, z * z * z * wv(r.x), m)
            &&& congruent(t.1, z * z * z * wv(r.y), m)
            &&& congruent(t.2, z * z * z * wv(r.z), m)
        }),
{
    let (x, y, z) = (wv(p.x), wv(p.y), wv(p.z));
    lemma_double_group_law(x, y, z, b, m);
    let s = rcb_double(x, y, z, b);
    lemma_on_curve_congruent(r.coords(), s, b, m);
    lemma_congruent_mul(z * z * z, z * z * z, wv(r.x), s.0, m);
    lemma_congruent_mul(z * z * z, z * z * z, wv(r.y), s.1, m);
    lemma_congruent_mul(z * z * z, z * z * z, wv(r.z), s.2, m);
}

} // verus!
