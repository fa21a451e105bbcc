//! Points of a short Weierstrass curve with `a = -3` in standard projective
//! coordinates, held as raw little-endian words, with the complete addition
//! and doubling formulas of Renes, Costello and Batina (2015), Algorithms 4
//! and 6.
use vstd::prelude::*;
use vstd::arithmetic::mul::*;
use crate::words::words_value;
use crate::modular::{congruent, invertible_mod, lemma_congruent_mul, lemma_congruent_add, lemma_congruent_sub};
use crate::group_law::{chord_add, tangent_double, proj_eq, lemma_add_result, lemma_double_result};
use crate::bigint::{modmul_384_unchecked, modadd_384_unchecked, modsub_384_unchecked, modinv_384_unchecked};

verus! {

/// The integer that a 384-bit word array encodes.
pub open spec fn wv(a: [u32; 12]) -> int {
    words_value(a@) as int
}

/// Every word of `a` is zero.
pub open spec fn is_zero_words(a: [u32; 12]) -> bool {
    forall|i: int| 0 <= i < 12 ==> #[trigger] a[i] == 0
}

/// Two coordinate triples agree modulo `m`.
pub open spec fn congruent3(a: (int, int, int), b: (int, int, int), m: int) -> bool {
    congruent(a.0, b.0, m) && congruent(a.1, b.1, m) && congruent(a.2, b.2, m)
}

/// RCB 2015, Algorithm 4: the sum of `(x1 : y1 : z1)` and `(x2 : y2 : z2)` on
/// `y^2 z = x^3 - 3 x z^2 + b z^3`, over the integers (to be read modulo the
/// field prime).
pub open spec fn rcb_add(x1: int, y1: int, z1: int, x2: int, y2: int, z2: int, b: int) -> (int, int, int) {
    let t0 = x1 * x2;
    let t1 = y1 * y2;
    let t2 = z1 * z2;
    let t3 = (x1 + y1) * (x2 + y2) - t0 - t1;
    let t4 = (y1 + z1) * (y2 + z2) - t1 - t2;
    let t5 = (x1 + z1) * (x2 + z2) - t0 - t2;
    let s = 3 * (t5 - b * t2);
    let u = t1 - s;
    let v = t1 + s;
    let w = 3 * (b * t5 - 3 * t2 - t0);
    let q = 3 * t0 - 3 * t2;
    (v * t3 - t4 * w, v * u + q * w, u * t4 + t3 * q)
}

/// RCB 2015, Algorithm 6: twice `(x : y : z)` on `y^2 z = x^3 - 3 x z^2 + b z^3`,
/// over the integers (to be read modulo the field prime).
pub open spec fn rcb_double(x: int, y: int, z: int, b: int) -> (int, int, int) {
    let t0 = x * x;
    let t1 = y * y;
    let t2 = z * z;
    let t3 = 2 * (x * y);
    let t4 = 2 * (y * z);
    let t5 = 2 * (x * z);
    let s = 3 * (b * t2 - t5);
    let u = t1 - s;
    let v = t1 + s;
    let w = 3 * (b * t5 - 3 * t2 - t0);
    let q = 3 * t0 - 3 * t2;
    (u * t3 - w * t4, v * u + q * w, 4 * (t4 * t1))
}

/// `(x : y : z)` satisfies `y^2 z = x^3 - 3 x z^2 + b z^3` modulo `m`.
pub open spec fn on_curve(x: int, y: int, z: int, b: int, m: int) -> bool {
    congruent(y * y * z, x * x * x - 3 * (x * z * z) + b * (z * z * z), m)
}

/// If `x = X * w` and `Z * w = 1` modulo `m`, then `x * Z = X` modulo `m`.
pub proof fn lemma_quotient(x: int, xx: int, zz: int, w: int, m: int)
    requires
        m > 0,
        congruent(x, xx * w, m),
        congruent(zz * w, 1, m),
    ensures
        congruent(x * zz, xx, m),
{
    lemma_congruent_mul(x, xx * w, zz, zz, m);
    lemma_mul_is_associative(xx, w, zz);
    lemma_mul_is_commutative(w, zz);
    lemma_congruent_mul(xx, xx, zz * w, 1, m);
}

fn mulm(a: &[u32; 12], b: &[u32; 12], m: &[u32; 12], Ghost(ea): Ghost<int>, Ghost(eb): Ghost<int>) -> (r: [u32; 12])
    requires
        wv(*m) > 0,
        congruent(wv(*a), ea, wv(*m)),
        congruent(wv(*b), eb, wv(*m)),
    ensures
        congruent(wv(r), ea * eb, wv(*m)),
{
    let r = modmul_384_unchecked(a, b, m);
    proof {
        lemma_congruent_mul(wv(*a), ea, wv(*b), eb, wv(*m));
    }
    r
}

fn addm(a: &[u32; 12], b: &[u32; 12], m: &[u32; 12], Ghost(ea): Ghost<int>, Ghost(eb): Ghost<int>) -> (r: [u32; 12])
    requires
        wv(*m) > 0,
        congruent(wv(*a), ea, wv(*m)),
        congruent(wv(*b), eb, wv(*m)),
    ensures
        congruent(wv(r), ea + eb, wv(*m)),
{
    let r = modadd_384_unchecked(a, b, m);
    proof {
        lemma_congruent_add(wv(*a), ea, wv(*b), eb, wv(*m));
    }
    r
}

fn subm(a: &[u32; 12], b: &[u32; 12], m: &[u32; 12], Ghost(ea): Ghost<int>, Ghost(eb): Ghost<int>) -> (r: [u32; 12])
    requires
        wv(*m) > 0,
        congruent(wv(*a), ea, wv(*m)),
        congruent(wv(*b), eb, wv(*m)),
    ensures
        congruent(wv(r), ea - eb, wv(*m)),
{
    let r = modsub_384_unchecked(a, b, m);
    proof {
        lemma_congruent_sub(wv(*a), ea, wv(*b), eb, wv(*m));
    }
    r
}

/// Projective point in standard coordinates stored as raw words (standard
/// form, not Montgomery form).
#[derive(Clone, Copy)]
pub struct Projective384 {
    pub x: [u32; 12],
    pub y: [u32; 12],
    pub z: [u32; 12],
}

impl Projective384 {
    /// The coordinates as integers.
    pub open spec fn coords(self) -> (int, int, int) {
        (wv(self.x), wv(self.y), wv(self.z))
    }

    /// The point at infinity is the one whose `z` words are all zero.
    pub open spec fn is_identity_spec(self) -> bool {
        is_zero_words(self.z)
    }

    /// What `add` computes, modulo the prime.
    pub open spec fn add_spec(self, other: Self, b: int) -> (int, int, int) {
        if self.is_identity_spec() {
            other.coords()
        } else if other.is_identity_spec() {
            self.coords()
        } else {
            rcb_add(wv(self.x), wv(self.y), wv(self.z), wv(other.x), wv(other.y), wv(other.z), b)
        }
    }

    /// What `double` computes, modulo the prime.
    pub open spec fn double_spec(self, b: int) -> (int, int, int) {
        if self.is_identity_spec() {
            (0, 1, 0)
        } else {
            rcb_double(wv(self.x), wv(self.y), wv(self.z), b)
        }
    }

    /// The identity point `(0 : 1 : 0)` as words.
    pub open spec fn identity_spec() -> Self {
        Projective384 { x: [0, 0, 0, 0, 0, 0, 0, 0, 0, 0, 0, 0], y: [1, 0, 0, 0, 0, 0, 0, 0, 0, 0, 0, 0], z: [0, 0, 0, 0, 0, 0, 0, 0, 0, 0, 0, 0] }
    }

    pub proof fn lemma_identity_coords(r: Self)
        requires
            r == Self::identity_spec(),
        ensures
            r.coords() == (0int, 1int, 0int),
            r.is_identity_spec(),
    {
        reveal_with_fuel(words_value, 13);
    }

    /// The identity point `(0 : 1 : 0)`.
    pub fn identity() -> (r: Self)
        ensures
            r == Self::identity_spec(),
    {
        Projective384 { x: [0, 0, 0, 0, 0, 0, 0, 0, 0, 0, 0, 0], y: [1, 0, 0, 0, 0, 0, 0, 0, 0, 0, 0, 0], z: [0, 0, 0, 0, 0, 0, 0, 0, 0, 0, 0, 0] }
    }

    /// Whether this is the identity point, that is, whether every word of `z`
    /// is zero.
    pub fn is_identity(&self) -> (r: bool)
        ensures
            r == self.is_identity_spec(),
    {
        let mut i: usize = 0;
        while i < 12
            invariant
                i <= 12,
                forall|j: int| 0 <= j < i ==> self.z[j] == 0,
            decreases 12 - i,
        {
            if self.z[i] != 0 {
                return false;
            }
            i += 1;
        }
        true
    }

    /// Point addition using standard projective coordinates for `a = -3`
    /// (RCB 2015, Algorithm 4). The identity on either side returns the other
    /// point unchanged; otherwise each coordinate is congruent, modulo
    /// `prime`, to the formula's.
    pub fn add(&self, other: &Self, prime: &[u32; 12], b: &[u32; 12]) -> (r: Self)
        requires
            !self.is_identity_spec() && !other.is_identity_spec() ==> wv(*prime) > 0,
        ensures
            self.is_identity_spec() ==> r == *other,
            !self.is_identity_spec() && other.is_identity_spec() ==> r == *self,
            congruent3(r.coords(), self.add_spec(*other, wv(*b)), wv(*prime)),
            !self.is_identity_spec() && !other.is_identity_spec()
                && on_curve(wv(self.x), wv(self.y), wv(self.z), wv(*b), wv(*prime))
                && on_curve(wv(other.x), wv(other.y), wv(other.z), wv(*b), wv(*prime)) ==> {
                &&& on_curve(wv(r.x), wv(r.y), wv(r.z), wv(*b), wv(*prime))
                &&& proj_eq(r.coords(), chord_add(wv(self.x), wv(self.y), wv(self.z),
                    wv(other.x), wv(other.y), wv(other.z)), wv(*prime))
            },
    {
        if self.is_identity() {
            return *other;
        }
        if other.is_identity() {
            return *self;
        }
        let ghost m = wv(*prime);
        let ghost bb = wv(*b);
        let ghost (x1, y1, z1) = self.coords();
        let ghost (x2, y2, z2) = other.coords();

        // xx = X1 * X2, yy = Y1 * Y2, zz = Z1 * Z2
        let xx = mulm(&self.x, &other.x, prime, Ghost(x1), Ghost(x2));
        let ghost t0 = x1 * x2;
        let yy = mulm(&self.y, &other.y, prime, Ghost(y1), Ghost(y2));
        let ghost t1 = y1 * y2;
        let zz = mulm(&self.z, &other.z, prime, Ghost(z1), Ghost(z2));
        let ghost t2 = z1 * z2;

        // xy_pairs = (X1 + Y1) * (X2 + Y2) - xx - yy
        let x1_p_y1 = addm(&self.x, &self.y, prime, Ghost(x1), Ghost(y1));
        let x2_p_y2 = addm(&other.x, &other.y, prime, Ghost(x2), Ghost(y2));
        let prod = mulm(&x1_p_y1, &x2_p_y2, prime, Ghost(x1 + y1), Ghost(x2 + y2));
        let tmp = subm(&prod, &xx, prime, Ghost((x1 + y1) * (x2 + y2)), Ghost(t0));
        let xy_pairs = subm(&tmp, &yy, prime, Ghost((x1 + y1) * (x2 + y2) - t0), Ghost(t1));
        let ghost t3 = (x1 + y1) * (x2 + y2) - t0 - t1;

        // yz_pairs = (Y1 + Z1) * (Y2 + Z2) - yy - zz
        let y1_p_z1 = addm(&self.y, &self.z, prime, Ghost(y1), Ghost(z1));
        let y2_p_z2 = addm(&other.y, &other.z, prime, Ghost(y2), Ghost(z2));
        let prod = mulm(&y1_p_z1, &y2_p_z2, prime, Ghost(y1 + z1), Ghost(y2 + z2));
        let tmp = subm(&prod, &yy, prime, Ghost((y1 + z1) * (y2 + z2)), Ghost(t1));
        let yz_pairs = subm(&tmp, &zz, prime, Ghost((y1 + z1) * (y2 + z2) - t1), Ghost(t2));
        let ghost t4 = (y1 + z1) * (y2 + z2) - t1 - t2;

        // xz_pairs = (X1 + Z1) * (X2 + Z2) - xx - zz
        let x1_p_z1 = addm(&self.x, &self.z, prime, Ghost(x1), Ghost(z1));
        let x2_p_z2 = addm(&other.x, &other.z, prime, Ghost(x2), Ghost(z2));
        let prod = mulm(&x1_p_z1, &x2_p_z2, prime, Ghost(x1 + z1), Ghost(x2 + z2));
        let tmp = subm(&prod, &xx, prime, Ghost((x1 + z1) * (x2 + z2)), Ghost(t0));
        let xz_pairs = subm(&tmp, &zz, prime, Ghost((x1 + z1) * (x2 + z2) - t0), Ghost(t2));
        let ghost t5 = (x1 + z1) * (x2 + z2) - t0 - t2;

        // bzz_part = xz_pairs - b * zz; bzz3_part = 3 * bzz_part
        proof {
            assert(congruent(wv(*b), bb, m));
        }
        let bzz = mulm(b, &zz, prime, Ghost(bb), Ghost(t2));
        let bzz_part = subm(&xz_pairs, &bzz, prime, Ghost(t5), Ghost(bb * t2));
        let ghost e = t5 - bb * t2;
        let tmp = addm(&bzz_part, &bzz_part, prime, Ghost(e), Ghost(e));
        let bzz3_part = addm(&tmp, &bzz_part, prime, Ghost(e + e), Ghost(e));
        let ghost sv = 3 * (t5 - bb * t2);

        // yy_m_bzz3 = yy - bzz3_part; yy_p_bzz3 = yy + bzz3_part
        let yy_m_bzz3 = subm(&yy, &bzz3_part, prime, Ghost(t1), Ghost(sv));
        let yy_p_bzz3 = addm(&yy, &bzz3_part, prime, Ghost(t1), Ghost(sv));
        let ghost u = t1 - sv;
        let ghost v = t1 + sv;

        // zz3 = 3 * zz
        let tmp = addm(&zz, &zz, prime, Ghost(t2), Ghost(t2));
        let zz3 = addm(&tmp, &zz, prime, Ghost(t2 + t2), Ghost(t2));

        // bxz_part = b * xz_pairs - zz3 - xx; bxz3_part = 3 * bxz_part
        let bxz = mulm(b, &xz_pairs, prime, Ghost(bb), Ghost(t5));
        let tmp = subm(&bxz, &zz3, prime, Ghost(bb * t5), Ghost(3 * t2));
        let bxz_part = subm(&tmp, &xx, prime, Ghost(bb * t5 - 3 * t2), Ghost(t0));
        let ghost f = bb * t5 - 3 * t2 - t0;
        let tmp = addm(&bxz_part, &bxz_part, prime, Ghost(f), Ghost(f));
        let bxz3_part = addm(&tmp, &bxz_part, prime, Ghost(f + f), Ghost(f));
        let ghost w = 3 * (bb * t5 - 3 * t2 - t0);

        // xx3_m_zz3 = 3 * xx - zz3
        let tmp = addm(&xx, &xx, prime, Ghost(t0), Ghost(t0));
        let xx3 = addm(&tmp, &xx, prime, Ghost(t0 + t0), Ghost(t0));
        let xx3_m_zz3 = subm(&xx3, &zz3, prime, Ghost(3 * t0), Ghost(3 * t2));
        let ghost q = 3 * t0 - 3 * t2;

        // x3 = yy_p_bzz3 * xy_pairs - yz_pairs * bxz3_part
        let x3 = mulm(&yy_p_bzz3, &xy_pairs, prime, Ghost(v), Ghost(t3));
        let tmp = mulm(&yz_pairs, &bxz3_part, prime, Ghost(t4), Ghost(w));
        let x3 = subm(&x3, &tmp, prime, Ghost(v * t3), Ghost(t4 * w));

        // y3 = yy_p_bzz3 * yy_m_bzz3 + xx3_m_zz3 * bxz3_part
        let y3 = mulm(&yy_p_bzz3, &yy_m_bzz3, prime, Ghost(v), Ghost(u));
        let tmp = mulm(&xx3_m_zz3, &bxz3_part, prime, Ghost(q), Ghost(w));
        let y3 = addm(&y3, &tmp, prime, Ghost(v * u), Ghost(q * w));

        // z3 = yy_m_bzz3 * yz_pairs + xy_pairs * xx3_m_zz3
        let z3 = mulm(&yy_m_bzz3, &yz_pairs, prime, Ghost(u), Ghost(t4));
        let tmp = mulm(&xy_pairs, &xx3_m_zz3, prime, Ghost(t3), Ghost(q));
        let z3 = addm(&z3, &tmp, prime, Ghost(u * t4), Ghost(t3 * q));

        let r = Projective384 { x: x3, y: y3, z: z3 };
        proof {
            if on_curve(x1, y1, z1, wv(*b), m) && on_curve(x2, y2, z2, wv(*b), m) {
                lemma_add_result(*self, *other, wv(*b), m, r);
            }
        }
        r
    }

    /// Point doubling using standard projective coordinates for `a = -3`
    /// (RCB 2015, Algorithm 6). The identity doubles to the identity point;
    /// otherwise each coordinate is congruent, modulo `prime`, to the
    /// formula's.
    pub fn double(&self, prime: &[u32; 12], b: &[u32; 12]) -> (r: Self)
        requires
            !self.is_identity_spec() ==> wv(*prime) > 0,
        ensures
            self.is_identity_spec() ==> r == Self::identity_spec(),
            congruent3(r.coords(), self.double_spec(wv(*b)), wv(*prime)),
            !self.is_identity_spec() && on_curve(wv(self.x), wv(self.y), wv(self.z), wv(*b), wv(*prime)) ==> {
                let z = wv(self.z);
                let t = tangent_double(wv(self.x), wv(self.y), z);
                &&& on_curve(wv(r.x), wv(r.y), wv(r.z), wv(*b), wv(*prime))
                &&& congruent(t.0, z * z * z * wv(r.x), wv(*prime))
                &&& congruent(t.1, z * z * z * wv(r.y), wv(*prime))
                &&& congruent(t.2, z * z * z * wv(r.z), wv(*prime))
            },
    {
        if self.is_identity() {
            let r = Self::identity();
            proof {
                Self::lemma_identity_coords(r);
            }
            return r;
        }
        let ghost m = wv(*prime);
        let ghost bb = wv(*b);
        let ghost (x, y, z) = self.coords();

        // xx = X^2, yy = Y^2, zz = Z^2
        let xx = mulm(&self.x, &self.x, prime, Ghost(x), Ghost(x));
        let ghost t0 = x * x;
        let yy = mulm(&self.y, &self.y, prime, Ghost(y), Ghost(y));
        let ghost t1 = y * y;
        let zz = mulm(&self.z, &self.z, prime, Ghost(z), Ghost(z));
        let ghost t2 = z * z;

        // xy2 = 2 * X * Y
        let xy = mulm(&self.x, &self.y, prime, Ghost(x), Ghost(y));
        let xy2 = addm(&xy, &xy, prime, Ghost(x * y), Ghost(x * y));
        let ghost t3 = 2 * (x * y);

        // xz2 = 2 * X * Z
        let xz = mulm(&self.x, &self.z, prime, Ghost(x), Ghost(z));
        let xz2 = addm(&xz, &xz, prime, Ghost(x * z), Ghost(x * z));
        let ghost t5 = 2 * (x * z);

        // bzz_part = b * zz - xz2; bzz3_part = 3 * bzz_part
        proof {
            assert(congruent(wv(*b), bb, m));
        }
        let bzz = mulm(b, &zz, prime, Ghost(bb), Ghost(t2));
        let bzz_part = subm(&bzz, &xz2, prime, Ghost(bb * t2), Ghost(t5));
        let ghost e = bb * t2 - t5;
        let tmp = addm(&bzz_part, &bzz_part, prime, Ghost(e), Ghost(e));
        let bzz3_part = addm(&tmp, &bzz_part, prime, Ghost(e + e), Ghost(e));
        let ghost sv = 3 * (bb * t2 - t5);

        // yy_m_bzz3 = yy - bzz3_part; yy_p_bzz3 = yy + bzz3_part
        let yy_m_bzz3 = subm(&yy, &bzz3_part, prime, Ghost(t1), Ghost(sv));
        let yy_p_bzz3 = addm(&yy, &bzz3_part, prime, Ghost(t1), Ghost(sv));
        let ghost u = t1 - sv;
        let ghost v = t1 + sv;

        // y_frag = yy_p_bzz3 * yy_m_bzz3; x_frag = yy_m_bzz3 * xy2
        let y_frag = mulm(&yy_p_bzz3, &yy_m_bzz3, prime, Ghost(v), Ghost(u));
        let x_frag = mulm(&yy_m_bzz3, &xy2, prime, Ghost(u), Ghost(t3));

        // zz3 = 3 * zz
        let tmp = addm(&zz, &zz, prime, Ghost(t2), Ghost(t2));
        let zz3 = addm(&tmp, &zz, prime, Ghost(t2 + t2), Ghost(t2));

        // bxz2_part = b * xz2 - zz3 - xx; bxz6_part = 3 * bxz2_part
        let bxz2 = mulm(b, &xz2, prime, Ghost(bb), Ghost(t5));
        let tmp = subm(&bxz2, &zz3, prime, Ghost(bb * t5), Ghost(3 * t2));
        let bxz2_part = subm(&tmp, &xx, prime, Ghost(bb * t5 - 3 * t2), Ghost(t0));
        let ghost f = bb * t5 - 3 * t2 - t0;
        let tmp = addm(&bxz2_part, &bxz2_part, prime, Ghost(f), Ghost(f));
        let bxz6_part = addm(&tmp, &bxz2_part, prime, Ghost(f + f), Ghost(f));
        let ghost w = 3 * (bb * t5 - 3 * t2 - t0);

        // xx3_m_zz3 = 3 * xx - zz3
        let tmp = addm(&xx, &xx, prime, Ghost(t0), Ghost(t0));
        let xx3 = addm(&tmp, &xx, prime, Ghost(t0 + t0), Ghost(t0));
        let xx3_m_zz3 = subm(&xx3, &zz3, prime, Ghost(3 * t0), Ghost(3 * t2));
        let ghost q = 3 * t0 - 3 * t2;

        // y3 = y_frag + xx3_m_zz3 * bxz6_part
        let tmp = mulm(&xx3_m_zz3, &bxz6_part, prime, Ghost(q), Ghost(w));
        let y3 = addm(&y_frag, &tmp, prime, Ghost(v * u), Ghost(q * w));

        // yz2 = 2 * Y * Z
        let yz = mulm(&self.y, &self.z, prime, Ghost(y), Ghost(z));
        let yz2 = addm(&yz, &yz, prime, Ghost(y * z), Ghost(y * z));
        let ghost t4 = 2 * (y * z);

        // x3 = x_frag - bxz6_part * yz2
        let tmp = mulm(&bxz6_part, &yz2, prime, Ghost(w), Ghost(t4));
        let x3 = subm(&x_frag, &tmp, prime, Ghost(u * t3), Ghost(w * t4));

        // z3 = 4 * yz2 * yy
        let tmp = mulm(&yz2, &yy, prime, Ghost(t4), Ghost(t1));
        let tmp2 = addm(&tmp, &tmp, prime, Ghost(t4 * t1), Ghost(t4 * t1));
        let z3 = addm(&tmp2, &tmp2, prime, Ghost(t4 * t1 + t4 * t1), Ghost(t4 * t1 + t4 * t1));

        let r = Projective384 { x: x3, y: y3, z: z3 };
        proof {
            if on_curve(x, y, z, wv(*b), m) {
                lemma_double_result(*self, wv(*b), m, r);
            }
        }
        r
    }

    /// Converts to affine coordinates with one inversion: `x = X / Z`,
    /// `y = Y / Z`. The identity gives `(0, 0, true)`; any other point gives
    /// `(x, y, false)` with `x * Z = X` and `y * Z = Y` modulo `prime`.
    pub fn to_affine(&self, prime: &[u32; 12]) -> (r: ([u32; 12], [u32; 12], bool))
        requires
            !self.is_identity_spec() ==> wv(*prime) > 0 && invertible_mod(wv(self.z), wv(*prime)),
        ensures
            r.2 == self.is_identity_spec(),
            r.2 ==> is_zero_words(r.0) && is_zero_words(r.1),
            !r.2 ==> congruent(wv(r.0) * wv(self.z), wv(self.x), wv(*prime)),
            !r.2 ==> congruent(wv(r.1) * wv(self.z), wv(self.y), wv(*prime)),
    {
        if self.is_identity() {
            return ([0; 12], [0; 12], true);
        }
        let z_inv = modinv_384_unchecked(&self.z, prime);
        let x = modmul_384_unchecked(&self.x, &z_inv, prime);
        let y = modmul_384_unchecked(&self.y, &z_inv, prime);
        proof {
            lemma_quotient(wv(x), wv(self.x), wv(self.z), wv(z_inv), wv(*prime));
            lemma_quotient(wv(y), wv(self.y), wv(self.z), wv(z_inv), wv(*prime));
        }
        (x, y, false)
    }
}

} // verus!
