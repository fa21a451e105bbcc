//! Laws that relate the point operations of `Projective384`, the
//! conversions between point representations and the byte encodings of
//! field elements.
use vstd::prelude::*;
use vstd::arithmetic::mul::{lemma_mul_is_commutative};
use vstd::arithmetic::div_mod::{lemma_mul_mod_noop, lemma_add_mod_noop, lemma_mod_twice};
use crate::modular::congruent;
use vstd::endian::{endianness, Endian};
use crate::words::{words_value, lemma_words_value_zero, lemma_words_value_injective, words_of_be_bytes,
    reversed_memory_bytes, lemma_reversed_memory_bytes, lemma_words_bytes_roundtrip,
    lemma_bytes_words_roundtrip};
use crate::field::{PrimeCurveParams, PrimeCurveParams384};
use crate::points::ProjectivePoint;
use crate::projective::{Projective384, rcb_add, rcb_double, on_curve, congruent3, wv};

verus! {

/// Point addition is commutative: exchanging the operands gives the same
/// coordinates, unless both are the identity (then each call hands back its
/// second operand).
pub proof fn lemma_add_commutes(p: Projective384, q: Projective384, b: int)
    requires
        !(p.is_identity_spec() && q.is_identity_spec()),
    ensures
        p.add_spec(q, b) == q.add_spec(p, b),
{
    let (x1, y1, z1) = p.coords();
    let (x2, y2, z2) = q.coords();
    lemma_mul_is_commutative(x1, x2);
    lemma_mul_is_commutative(y1, y2);
    lemma_mul_is_commutative(z1, z2);
    lemma_mul_is_commutative(x1 + y1, x2 + y2);
    lemma_mul_is_commutative(y1 + z1, y2 + z2);
    lemma_mul_is_commutative(x1 + z1, x2 + z2);
    assert(rcb_add(x1, y1, z1, x2, y2, z2, b) == rcb_add(x2, y2, z2, x1, y1, z1, b));
}

proof fn lemma_square_of_sum(a: int, c: int)
    ensures
        (a + c) * (a + c) - a * a - c * c == 2 * (a * c),
{
    assert((a + c) * (a + c) == a * a + 2 * (a * c) + c * c) by (nonlinear_arith);
}

proof fn lemma_distrib_3(a: int, c: int, e: int, d: int)
    ensures
        (a - 6 * c + 3 * e) * (2 * d) == 2 * (a * d) - 12 * (c * d) + 6 * (e * d),
{
    assert((a - 6 * c + 3 * e) * (2 * d) == 2 * (a * d) - 12 * (c * d) + 6 * (e * d))
        by (nonlinear_arith);
}

proof fn lemma_distrib_2(a: int, c: int, d: int)
    ensures
        (2 * d) * (3 * a - 3 * c) == 6 * (d * a) - 6 * (d * c),
{
    assert((2 * d) * (3 * a - 3 * c) == 6 * (d * a) - 6 * (d * c)) by (nonlinear_arith);
}

proof fn lemma_distrib_4(y: int, a: int, c: int, e: int, f: int)
    ensures
        (6 * y) * (a - 3 * c + e - f) == 6 * (y * a) - 18 * (y * c) + 6 * (y * e) - 6 * (y * f),
{
    assert((6 * y) * (a - 3 * c + e - f) == 6 * (y * a) - 18 * (y * c) + 6 * (y * e) - 6 * (y * f))
        by (nonlinear_arith);
}

proof fn lemma_tangent_z(x: int, y: int, z: int, b: int)
    ensures
        ({
            let t1 = y * y;
            let t2 = z * z;
            let t0 = x * x;
            let t3 = 2 * (x * y);
            let t4 = 2 * (y * z);
            let t5 = 2 * (x * z);
            let u = t1 - 3 * (t5 - b * t2);
            let q = 3 * t0 - 3 * t2;
            u * t4 + t3 * q == 4 * (t4 * t1)
                + (6 * y) * (x * x * x - 3 * (x * z * z) + b * (z * z * z) - y * y * z)
        }),
{
    let yy = y * y;
    let xz = x * z;
    let bzz = b * (z * z);
    let yz = y * z;
    let t3 = 2 * (x * y);
    let t4 = 2 * yz;
    let u = yy - 3 * (2 * xz - bzz);
    let q = 3 * (x * x) - 3 * (z * z);
    assert(u == yy - 6 * xz + 3 * bzz);
    lemma_distrib_3(yy, xz, bzz, yz);
    assert(u * t4 == 2 * (yy * yz) - 12 * (xz * yz) + 6 * (bzz * yz));
    lemma_distrib_2(x * x, z * z, x * y);
    assert(t3 * q == 6 * ((x * y) * (x * x)) - 6 * ((x * y) * (z * z)));
    lemma_distrib_4(y, x * x * x, x * z * z, b * (z * z * z), y * y * z);
    // monomials
    assert((y * y) * (y * z) == y * ((y * y) * z)) by (nonlinear_arith);
    assert((x * z) * (y * z) == y * (x * z * z)) by (nonlinear_arith);
    assert((b * (z * z)) * (y * z) == y * (b * (z * z * z))) by (nonlinear_arith);
    assert((x * y) * (x * x) == y * (x * x * x)) by (nonlinear_arith);
    assert((x * y) * (z * z) == y * (x * z * z)) by (nonlinear_arith);
    assert((y * z) * (y * y) == (y * y) * (y * z)) by (nonlinear_arith);
    assert((2 * (y * z)) * (y * y) == 2 * ((y * z) * (y * y))) by (nonlinear_arith);
    assert(4 * (t4 * yy) == 8 * (yy * yz));
}

/// Doubling agrees with adding a point to itself: for a point that is not the
/// identity and lies on `y^2 z = x^3 - 3 x z^2 + b z^3` modulo `m`, the two
/// formulas give congruent coordinates.
pub proof fn lemma_double_is_add_self(p: Projective384, b: int, m: int)
    requires
        m > 0,
        !p.is_identity_spec(),
        on_curve(p.coords().0, p.coords().1, p.coords().2, b, m),
    ensures
        congruent3(p.double_spec(b), p.add_spec(p, b), m),
{
    let (x, y, z) = p.coords();
    lemma_square_of_sum(x, y);
    lemma_square_of_sum(y, z);
    lemma_square_of_sum(x, z);
    let a = rcb_add(x, y, z, x, y, z, b);
    let d = rcb_double(x, y, z, b);
    let t1 = y * y;
    let t2 = z * z;
    let t0 = x * x;
    let t3 = 2 * (x * y);
    let t4 = 2 * (y * z);
    let t5 = 2 * (x * z);
    let s = 3 * (t5 - b * t2);
    let u = t1 - s;
    let v = t1 + s;
    let w = 3 * (b * t5 - 3 * t2 - t0);
    let q = 3 * t0 - 3 * t2;
    assert(a == (v * t3 - t4 * w, v * u + q * w, u * t4 + t3 * q));
    assert(d == (v * t3 - w * t4, u * v + q * w, 4 * (t4 * t1)));
    lemma_mul_is_commutative(t4, w);
    lemma_mul_is_commutative(u, v);
    assert(a.0 == d.0);
    assert(a.1 == d.1);
    // the z coordinates differ by 6 y times the curve equation
    let e = x * x * x - 3 * (x * z * z) + b * (z * z * z) - y * y * z;
    lemma_tangent_z(x, y, z, b);
    assert(a.2 == d.2 + (6 * y) * e);
    assert(e % m == 0) by {
        vstd::arithmetic::div_mod::lemma_sub_mod_noop(
            x * x * x - 3 * (x * z * z) + b * (z * z * z), y * y * z, m);
    }
    lemma_mul_mod_noop(6 * y, e, m);
    assert(((6 * y) * e) % m == 0);
    lemma_add_mod_noop(d.2, (6 * y) * e, m);
    lemma_mod_twice(d.2, m);
}


/// Converting a curve point to raw words (`projective_to_proj384`) and back
/// (`proj384_to_projective`) gives back the point's field values; a point
/// with `Z = 0` comes back as the identity `(0 : 1 : 0)`.
pub proof fn lemma_proj384_round_trip<C: PrimeCurveParams384>(
    p: ProjectivePoint<C>,
    q: Projective384,
    r: ProjectivePoint<C>,
)
    requires
        // q is what projective_to_proj384 returns for p
        q.coords() == (C::field_value(p.x) as int, C::field_value(p.y) as int, C::field_value(p.z) as int),
        // r is what proj384_to_projective returns for q
        q.is_identity_spec() ==> C::field_value(r.x) == 0 && C::field_value(r.y) == 1
            && C::field_value(r.z) == 0,
        !q.is_identity_spec() ==> (C::field_value(r.x) as int, C::field_value(r.y) as int,
            C::field_value(r.z) as int) == q.coords(),
    ensures
        C::field_value(p.z) == 0 ==> C::field_value(r.x) == 0 && C::field_value(r.y) == 1
            && C::field_value(r.z) == 0,
        C::field_value(p.z) != 0 ==> C::field_value(r.x) == C::field_value(p.x)
            && C::field_value(r.y) == C::field_value(p.y) && C::field_value(r.z) == C::field_value(p.z),
{
    lemma_words_value_zero(q.z@);
    assert(q.is_identity_spec() <==> forall|i: int| 0 <= i < 12 ==> #[trigger] q.z@[i] == 0);
}

/// Converting raw words that encode a point other than the identity, each
/// coordinate below the prime, to a curve point (`proj384_to_projective`) and
/// back (`projective_to_proj384`) gives the same words.
pub proof fn lemma_proj384_words_round_trip<C: PrimeCurveParams384>(
    q: Projective384,
    p: ProjectivePoint<C>,
    r: Projective384,
)
    requires
        !q.is_identity_spec(),
        wv(q.x) < words_value(C::PRIME_LE_WORDS@),
        wv(q.y) < words_value(C::PRIME_LE_WORDS@),
        wv(q.z) < words_value(C::PRIME_LE_WORDS@),
        // p is what proj384_to_projective returns for q
        (C::field_value(p.x) as int, C::field_value(p.y) as int, C::field_value(p.z) as int) == q.coords(),
        // r is what projective_to_proj384 returns for p
        r.coords() == (C::field_value(p.x) as int, C::field_value(p.y) as int, C::field_value(p.z) as int),
    ensures
        r.x@ == q.x@,
        r.y@ == q.y@,
        r.z@ == q.z@,
{
    lemma_words_value_injective(r.x@, q.x@);
    lemma_words_value_injective(r.y@, q.y@);
    lemma_words_value_injective(r.z@, q.z@);
}

/// Adding two points in either order gives congruent coordinates, unless
/// both are the identity: stated over the results of two calls of `add`.
pub proof fn lemma_add_results_commute(p: Projective384, q: Projective384, b: int, m: int,
    r1: Projective384, r2: Projective384)
    requires
        !(p.is_identity_spec() && q.is_identity_spec()),
        // r1 is what p.add(q) returns, r2 what q.add(p) returns
        congruent3(r1.coords(), p.add_spec(q, b), m),
        congruent3(r2.coords(), q.add_spec(p, b), m),
    ensures
        congruent3(r1.coords(), r2.coords(), m),
{
    lemma_add_commutes(p, q, b);
}

/// Converting a curve point to the accelerator's affine form
/// (`projective_to_r0_affine_direct`) and back
/// (`r0_affine_to_projective_direct`) gives the same point: the identity for
/// `Z = 0`, the same field values for `Z = 1`, and otherwise a point `(x : y : 1)`
/// projectively equal to `(X : Y : Z)`. The accelerator's unchecked results
/// must be below the prime for the way back.
pub proof fn lemma_r0_affine_round_trip<C: PrimeCurveParams384>(
    p: ProjectivePoint<C>,
    a: Option<([u32; 12], [u32; 12])>,
    r: ProjectivePoint<C>,
)
    requires
        // a is what projective_to_r0_affine_direct returns for p
        (C::field_value(p.z) == 0) <==> a is None,
        C::field_value(p.z) == 1 ==> (a matches Some((x, y)) && words_value(x@) == C::field_value(p.x)
            && words_value(y@) == C::field_value(p.y)),
        a matches Some((x, y)) ==> {
            let m = words_value(C::PRIME_LE_WORDS@) as int;
            &&& congruent(words_value(x@) as int * C::field_value(p.z), C::field_value(p.x) as int, m)
            &&& congruent(words_value(y@) as int * C::field_value(p.z), C::field_value(p.y) as int, m)
        },
        // the way back accepts a
        a matches Some((x, y)) ==> words_value(x@) < words_value(C::PRIME_LE_WORDS@)
            && words_value(y@) < words_value(C::PRIME_LE_WORDS@),
        // r is what r0_affine_to_projective_direct returns for a
        a is None ==> C::field_value(r.x) == 0 && C::field_value(r.y) == 1 && C::field_value(r.z) == 0,
        a matches Some((x, y)) ==> {
            &&& C::field_value(r.x) == words_value(x@)
            &&& C::field_value(r.y) == words_value(y@)
            &&& C::field_value(r.z) == 1
        },
    ensures
        C::field_value(p.z) == 0 ==> C::field_value(r.x) == 0 && C::field_value(r.y) == 1
            && C::field_value(r.z) == 0,
        C::field_value(p.z) == 1 ==> C::field_value(r.x) == C::field_value(p.x)
            && C::field_value(r.y) == C::field_value(p.y) && C::field_value(r.z) == C::field_value(p.z),
        C::field_value(p.z) != 0 ==> {
            let m = words_value(C::PRIME_LE_WORDS@) as int;
            &&& congruent(C::field_value(r.x) as int * C::field_value(p.z),
                C::field_value(p.x) as int * C::field_value(r.z), m)
            &&& congruent(C::field_value(r.y) as int * C::field_value(p.z),
                C::field_value(p.y) as int * C::field_value(r.z), m)
        },
{
}

/// On a little-endian machine, writing a field element's words as bytes
/// (`to_field_bytes`) and reading the bytes back (`from_field_bytes`) gives
/// the same words.
pub proof fn lemma_field_bytes_round_trip(w: Seq<u32>)
    requires
        endianness() == Endian::Little,
    ensures
        words_of_be_bytes(reversed_memory_bytes(w)) == w,
{
    lemma_reversed_memory_bytes(w);
    lemma_words_bytes_roundtrip(w);
}

/// On a little-endian machine, reading big-endian bytes as a field element
/// (`from_field_bytes`) and writing it back (`to_field_bytes`) gives the same
/// bytes.
pub proof fn lemma_bytes_field_round_trip(b: Seq<u8>)
    requires
        endianness() == Endian::Little,
        b.len() % 4 == 0,
    ensures
        reversed_memory_bytes(words_of_be_bytes(b)) == b,
{
    lemma_reversed_memory_bytes(words_of_be_bytes(b));
    lemma_bytes_words_roundtrip(b);
}

} // verus!
