//! Curve points over a curve's own field elements, and their conversions to
//! and from the raw-word representations the accelerator works on.
use vstd::prelude::*;
use crate::words::{words_value, be_bytes_value, words_of_be_bytes, bytes_to_u32_words_le_8,
    bytes_to_u32_words_le_12, lemma_words_of_be_bytes_value};
use crate::field::{PrimeCurveParams, PrimeCurveParams256, PrimeCurveParams384};
use crate::projective::{Projective384, wv, lemma_quotient};
use crate::modular::{congruent, invertible_mod};
use crate::words::{words_are_zero_12, words_are_one_12, words_are_zero_8, lemma_words_value_zero};
use crate::bigint::{modinv_384_unchecked, modmul_384_unchecked, modinv_256_checked, modmul_256_checked};

verus! {

/// A point in projective coordinates over the curve's field.
pub struct ProjectivePoint<C: PrimeCurveParams> {
    pub x: C::FieldElement,
    pub y: C::FieldElement,
    pub z: C::FieldElement,
}

/// A point in affine coordinates over the curve's field; `infinity` is 1 for
/// the identity and 0 otherwise.
pub struct AffinePoint<C: PrimeCurveParams> {
    pub x: C::FieldElement,
    pub y: C::FieldElement,
    pub infinity: u8,
}

impl<C: PrimeCurveParams> ProjectivePoint<C> {
    /// The identity `(0 : 1 : 0)`.
    pub fn identity() -> (r: Self)
        ensures
            C::field_value(r.x) == 0,
            C::field_value(r.y) == 1,
            C::field_value(r.z) == 0,
    {
        ProjectivePoint { x: C::field_zero(), y: C::field_one(), z: C::field_zero() }
    }
}

impl<C: PrimeCurveParams> AffinePoint<C> {
    /// The identity point.
    pub fn identity() -> (r: Self)
        ensures
            C::field_value(r.x) == 0,
            C::field_value(r.y) == 0,
            r.infinity == 1,
    {
        AffinePoint { x: C::field_zero(), y: C::field_zero(), infinity: 1 }
    }

    /// Whether this is the identity point.
    pub fn is_identity(&self) -> (r: bool)
        ensures
            r == (self.infinity == 1),
    {
        self.infinity == 1
    }
}

/// The little-endian words of a 256-bit field element: they encode the
/// element's value.
pub fn felt_to_u32_words_le_8<C: PrimeCurveParams256>(data: &C::FieldElement) -> (r: [u32; 8])
    ensures
        words_value(r@) == C::field_value(*data),
        words_value(r@) < words_value(C::PRIME_LE_WORDS@),
{
    proof {
        C::lemma_field_value_canonical(*data);
    }
    let repr = C::to_repr(data);
    let r = bytes_to_u32_words_le_8(&repr);
    proof {
        lemma_words_of_be_bytes_value(repr@);
    }
    r
}

/// The little-endian words of a 384-bit field element: they encode the
/// element's value.
pub fn felt_to_u32_words_le_12<C: PrimeCurveParams384>(data: &C::FieldElement) -> (r: [u32; 12])
    ensures
        words_value(r@) == C::field_value(*data),
        words_value(r@) < words_value(C::PRIME_LE_WORDS@),
{
    proof {
        C::lemma_field_value_canonical(*data);
    }
    let repr = C::to_repr(data);
    let r = bytes_to_u32_words_le_12(&repr);
    proof {
        lemma_words_of_be_bytes_value(repr@);
    }
    r
}

/// Convert from `ProjectivePoint` to `Projective384`: each coordinate becomes
/// the words of its value.
pub fn projective_to_proj384<C: PrimeCurveParams384>(p: &ProjectivePoint<C>) -> (r: Projective384)
    ensures
        r.coords() == (C::field_value(p.x) as int, C::field_value(p.y) as int, C::field_value(p.z) as int),
        wv(r.x) < words_value(C::PRIME_LE_WORDS@),
        wv(r.y) < words_value(C::PRIME_LE_WORDS@),
        wv(r.z) < words_value(C::PRIME_LE_WORDS@),
        r.is_identity_spec() <==> C::field_value(p.z) == 0,
{
    let r = Projective384 {
        x: felt_to_u32_words_le_12::<C>(&p.x),
        y: felt_to_u32_words_le_12::<C>(&p.y),
        z: felt_to_u32_words_le_12::<C>(&p.z),
    };
    proof {
        lemma_words_value_zero(r.z@);
    }
    r
}

/// Convert from `Projective384` back to `ProjectivePoint`: the identity
/// becomes `(0 : 1 : 0)`, any other point the field elements its words stand
/// for, which must be below the prime.
pub fn proj384_to_projective<C: PrimeCurveParams384>(p: &Projective384) -> (r: ProjectivePoint<C>)
    requires
        !p.is_identity_spec() ==> wv(p.x) < words_value(C::PRIME_LE_WORDS@)
            && wv(p.y) < words_value(C::PRIME_LE_WORDS@) && wv(p.z) < words_value(C::PRIME_LE_WORDS@),
    ensures
        p.is_identity_spec() ==> C::field_value(r.x) == 0 && C::field_value(r.y) == 1
            && C::field_value(r.z) == 0,
        !p.is_identity_spec() ==> (C::field_value(r.x) as int, C::field_value(r.y) as int,
            C::field_value(r.z) as int) == p.coords(),
{
    if p.is_identity() {
        return ProjectivePoint::identity();
    }
    ProjectivePoint {
        x: C::from_u32_words_le(p.x),
        y: C::from_u32_words_le(p.y),
        z: C::from_u32_words_le(p.z),
    }
}


/// The words of a scalar's big-endian 32-byte encoding.
pub fn scalar_to_words_8(repr: &[u8; 32]) -> (r: [u32; 8])
    ensures
        r@ == words_of_be_bytes(repr@),
        words_value(r@) == be_bytes_value(repr@),
{
    let r = bytes_to_u32_words_le_8(repr);
    proof {
        lemma_words_of_be_bytes_value(repr@);
    }
    r
}

/// The words of a scalar's big-endian 48-byte encoding.
pub fn scalar_to_words_12(repr: &[u8; 48]) -> (r: [u32; 12])
    ensures
        r@ == words_of_be_bytes(repr@),
        words_value(r@) == be_bytes_value(repr@),
{
    let r = bytes_to_u32_words_le_12(repr);
    proof {
        lemma_words_of_be_bytes_value(repr@);
    }
    r
}

/// An affine point as the accelerator takes it: `None` for the identity,
/// otherwise the coordinates' words.
pub fn affine_to_r0_affine_256<C: PrimeCurveParams256>(affine: &AffinePoint<C>) -> (r: Option<([u32; 8], [u32; 8])>)
    ensures
        affine.infinity == 1 <==> r is None,
        r matches Some((x, y)) ==> words_value(x@) == C::field_value(affine.x)
            && words_value(y@) == C::field_value(affine.y)
            && words_value(x@) < words_value(C::PRIME_LE_WORDS@)
            && words_value(y@) < words_value(C::PRIME_LE_WORDS@),
{
    if affine.is_identity() {
        return None;
    }
    let x = felt_to_u32_words_le_8::<C>(&affine.x);
    let y = felt_to_u32_words_le_8::<C>(&affine.y);
    Some((x, y))
}

/// An affine point as the accelerator takes it: `None` for the identity,
/// otherwise the coordinates' words.
pub fn affine_to_r0_affine_384<C: PrimeCurveParams384>(affine: &AffinePoint<C>) -> (r: Option<([u32; 12], [u32; 12])>)
    ensures
        affine.infinity == 1 <==> r is None,
        r matches Some((x, y)) ==> words_value(x@) == C::field_value(affine.x)
            && words_value(y@) == C::field_value(affine.y)
            && words_value(x@) < words_value(C::PRIME_LE_WORDS@)
            && words_value(y@) < words_value(C::PRIME_LE_WORDS@),
{
    if affine.is_identity() {
        return None;
    }
    let x = felt_to_u32_words_le_12::<C>(&affine.x);
    let y = felt_to_u32_words_le_12::<C>(&affine.y);
    Some((x, y))
}

/// A point from the accelerator back in projective form: the identity
/// becomes `(0 : 1 : 0)`, an affine point `(x, y)` becomes `(x : y : 1)`.
pub fn affine_to_projective_256<C: PrimeCurveParams256>(affine: &Option<([u32; 8], [u32; 8])>) -> (r: ProjectivePoint<C>)
    requires
        affine matches Some((x, y)) ==> words_value(x@) < words_value(C::PRIME_LE_WORDS@)
            && words_value(y@) < words_value(C::PRIME_LE_WORDS@),
    ensures
        affine is None ==> C::field_value(r.x) == 0 && C::field_value(r.y) == 1 && C::field_value(r.z) == 0,
        affine matches Some((x, y)) ==> {
            &&& C::field_value(r.x) == words_value(x@)
            &&& C::field_value(r.y) == words_value(y@)
            &&& C::field_value(r.z) == 1
        },
{
    match affine {
        Some((x, y)) => ProjectivePoint {
            x: C::from_u32_words_le(*x),
            y: C::from_u32_words_le(*y),
            z: C::field_one(),
        },
        None => ProjectivePoint::identity(),
    }
}

/// A point from the accelerator back in projective form: the identity
/// becomes `(0 : 1 : 0)`, an affine point `(x, y)` becomes `(x : y : 1)`.
pub fn r0_affine_to_projective_direct<C: PrimeCurveParams384>(affine: &Option<([u32; 12], [u32; 12])>) -> (r: ProjectivePoint<C>)
    requires
        affine matches Some((x, y)) ==> words_value(x@) < words_value(C::PRIME_LE_WORDS@)
            && words_value(y@) < words_value(C::PRIME_LE_WORDS@),
    ensures
        affine is None ==> C::field_value(r.x) == 0 && C::field_value(r.y) == 1 && C::field_value(r.z) == 0,
        affine matches Some((x, y)) ==> {
            &&& C::field_value(r.x) == words_value(x@)
            &&& C::field_value(r.y) == words_value(y@)
            &&& C::field_value(r.z) == 1
        },
{
    match affine {
        Some((x, y)) => ProjectivePoint {
            x: C::from_u32_words_le(*x),
            y: C::from_u32_words_le(*y),
            z: C::field_one(),
        },
        None => ProjectivePoint::identity(),
    }
}


/// Convert a projective point directly to the accelerator's affine form
/// `(X / Z, Y / Z)`, skipping the division when `Z = 1`; `Z = 0` gives the
/// identity (`None`).
pub fn projective_to_r0_affine_direct<C: PrimeCurveParams384>(p: &ProjectivePoint<C>) -> (r: Option<([u32; 12], [u32; 12])>)
    requires
        C::field_value(p.z) != 0 ==> invertible_mod(C::field_value(p.z) as int,
            words_value(C::PRIME_LE_WORDS@) as int),
    ensures
        (C::field_value(p.z) == 0) <==> r is None,
        C::field_value(p.z) == 1 ==> (r matches Some((x, y)) && words_value(x@) == C::field_value(p.x)
            && words_value(y@) == C::field_value(p.y)),
        r matches Some((x, y)) ==> {
            let m = words_value(C::PRIME_LE_WORDS@) as int;
            &&& congruent(words_value(x@) as int * C::field_value(p.z), C::field_value(p.x) as int, m)
            &&& congruent(words_value(y@) as int * C::field_value(p.z), C::field_value(p.y) as int, m)
        },
{
    proof {
        C::lemma_prime_positive();
    }
    let ghost m = words_value(C::PRIME_LE_WORDS@) as int;
    // Convert projective coordinates to standard form
    let x_std = felt_to_u32_words_le_12::<C>(&p.x);
    let y_std = felt_to_u32_words_le_12::<C>(&p.y);
    let z_std = felt_to_u32_words_le_12::<C>(&p.z);

    // Check if this is the identity (z == 0)
    if words_are_zero_12(&z_std) {
        return None;
    }
    // Fast path: if z == 1, no division needed
    if words_are_one_12(&z_std) {
        proof {
            assert(congruent(words_value(x_std@) as int * 1, C::field_value(p.x) as int, m));
        }
        return Some((x_std, y_std));
    }
    // Compute affine coordinates: x = X/Z, y = Y/Z
    let prime = C::PRIME_LE_WORDS;
    let z_inv = modinv_384_unchecked(&z_std, &prime);
    let x_aff = modmul_384_unchecked(&x_std, &z_inv, &prime);
    let y_aff = modmul_384_unchecked(&y_std, &z_inv, &prime);
    proof {
        lemma_quotient(wv(x_aff), wv(x_std), wv(z_std), wv(z_inv), m);
        lemma_quotient(wv(y_aff), wv(y_std), wv(z_std), wv(z_inv), m);
    }
    Some((x_aff, y_aff))
}

/// The accelerator's affine form of a projective point over a 256-bit field:
/// `None` for `Z = 0`, otherwise `(X / Z, Y / Z)` reduced below the prime.
pub fn projective_to_affine_256<C: PrimeCurveParams256>(p: &ProjectivePoint<C>) -> (r: Option<([u32; 8], [u32; 8])>)
    requires
        C::field_value(p.z) != 0 ==> invertible_mod(C::field_value(p.z) as int,
            words_value(C::PRIME_LE_WORDS@) as int),
    ensures
        (C::field_value(p.z) == 0) <==> r is None,
        r matches Some((x, y)) ==> {
            let m = words_value(C::PRIME_LE_WORDS@) as int;
            &&& words_value(x@) < m
            &&& words_value(y@) < m
            &&& congruent(words_value(x@) as int * C::field_value(p.z), C::field_value(p.x) as int, m)
            &&& congruent(words_value(y@) as int * C::field_value(p.z), C::field_value(p.y) as int, m)
        },
{
    proof {
        C::lemma_prime_positive();
    }
    let ghost m = words_value(C::PRIME_LE_WORDS@) as int;
    let z = felt_to_u32_words_le_8::<C>(&p.z);
    if words_are_zero_8(&z) {
        return None;
    }
    let x = felt_to_u32_words_le_8::<C>(&p.x);
    let y = felt_to_u32_words_le_8::<C>(&p.y);
    let prime = C::PRIME_LE_WORDS;
    let z_inv = modinv_256_checked(&z, &prime);
    let x_aff = modmul_256_checked(&x, &z_inv, &prime);
    let y_aff = modmul_256_checked(&y, &z_inv, &prime);
    proof {
        lemma_quotient(words_value(x_aff@) as int, words_value(x@) as int, words_value(z@) as int,
            words_value(z_inv@) as int, m);
        lemma_quotient(words_value(y_aff@) as int, words_value(y@) as int, words_value(z@) as int,
            words_value(z_inv@) as int, m);
    }
    Some((x_aff, y_aff))
}

} // verus!
