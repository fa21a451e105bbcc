//! The NIST P-384 (secp384r1) curve: its constants as little-endian words and
//! its curve parameters, with field elements held as raw words.
use vstd::prelude::*;
use crate::words::{words_value, words_to_be_bytes_12, lemma_words_bytes_roundtrip,
    lemma_words_of_be_bytes_value};
use crate::field::{PrimeCurveParams, PrimeCurveParams384, FieldElement384};
use crate::modular::{congruent, invertible_mod};
use crate::points::{ProjectivePoint, AffinePoint, felt_to_u32_words_le_12};
use crate::words::{words_are_zero_12, sub_with_borrow_12, lemma_words_value_bound};
use crate::bigint::{modinv_384_unchecked, modmul_384_checked};
use crate::projective::{wv, lemma_quotient};
use crate::projective::on_curve;

verus! {

/// The secp384r1 curve's prime field characteristic (little-endian)
/// p = 2^{384} − 2^{128} − 2^{96} + 2^{32} − 1
pub const SECP384R1_PRIME: [u32; 12] = [
    0xFFFFFFFF, 0x00000000, 0x00000000, 0xFFFFFFFF, 0xFFFFFFFE, 0xFFFFFFFF,
    0xFFFFFFFF, 0xFFFFFFFF, 0xFFFFFFFF, 0xFFFFFFFF, 0xFFFFFFFF, 0xFFFFFFFF,
];

/// The secp384r1 curve's order (little-endian)
/// n = ffffffff ffffffff ffffffff ffffffff ffffffff ffffffff c7634d81 f4372ddf 581a0db2 48b0a77a ecec196a ccc52973
pub const SECP384R1_ORDER: [u32; 12] = [
    0xCCC52973, 0xECEC196A, 0x48B0A77A, 0x581A0DB2, 0xF4372DDF, 0xC7634D81,
    0xFFFFFFFF, 0xFFFFFFFF, 0xFFFFFFFF, 0xFFFFFFFF, 0xFFFFFFFF, 0xFFFFFFFF,
];

/// Coefficient a = -3 (mod p) in little-endian
/// a = p - 3
pub const SECP384R1_EQUATION_A_LE: [u32; 12] = [
    0xFFFFFFFC, 0x00000000, 0x00000000, 0xFFFFFFFF, 0xFFFFFFFE, 0xFFFFFFFF,
    0xFFFFFFFF, 0xFFFFFFFF, 0xFFFFFFFF, 0xFFFFFFFF, 0xFFFFFFFF, 0xFFFFFFFF,
];

/// Coefficient b in little-endian
/// b = 0xb3312fa7e23ee7e4988e056be3f82d19181d9c6efe8141120314088f5013875ac656398d8a2ed19d2a85c8edd3ec2aef
pub const SECP384R1_EQUATION_B_LE: [u32; 12] = [
    0xD3EC2AEF, 0x2A85C8ED, 0x8A2ED19D, 0xC656398D, 0x5013875A, 0x0314088F,
    0xFE814112, 0x181D9C6E, 0xE3F82D19, 0x988E056B, 0xE23EE7E4, 0xB3312FA7,
];

/// Generator x coordinate in little-endian
/// x = 0xaa87ca22be8b05378eb1c71ef320ad746e1d3b628ba79b9859f741e082542a385502f25dbf55296c3a545e3872760ab7
pub const SECP384R1_GENERATOR_X_LE: [u32; 12] = [
    0x72760AB7, 0x3A545E38, 0xBF55296C, 0x5502F25D, 0x82542A38, 0x59F741E0,
    0x8BA79B98, 0x6E1D3B62, 0xF320AD74, 0x8EB1C71E, 0xBE8B0537, 0xAA87CA22,
];

/// Generator y coordinate in little-endian
/// y = 0x3617de4a96262c6f5d9e98bf9292dc29f8f41dbd289a147ce9da3113b5f0b8c00a60b1ce1d7e819d7a431d7c90ea0e5f
pub const SECP384R1_GENERATOR_Y_LE: [u32; 12] = [
    0x90EA0E5F, 0x7A431D7C, 0x1D7E819D, 0x0A60B1CE, 0xB5F0B8C0, 0xE9DA3113,
    0x289A147C, 0xF8F41DBD, 0x9292DC29, 0x5D9E98BF, 0x96262C6F, 0x3617DE4A,
];

/// p = 2^384 - 2^128 - 2^96 + 2^32 - 1
pub open spec fn p384_prime() -> nat {
    0xfffffffffffffffffffffffffffffffffffffffffffffffffffffffffffffffeffffffff0000000000000000ffffffffnat
}

/// The group order n.
pub open spec fn p384_order() -> nat {
    0xffffffffffffffffffffffffffffffffffffffffffffffffc7634d81f4372ddf581a0db248b0a77aecec196accc52973nat
}

/// The curve coefficient b.
pub open spec fn p384_b() -> nat {
    0xb3312fa7e23ee7e4988e056be3f82d19181d9c6efe8141120314088f5013875ac656398d8a2ed19d2a85c8edd3ec2aefnat
}

/// The word constants encode the documented values: the prime is
/// `2^384 - 2^128 - 2^96 + 2^32 - 1`, `a = p - 3`, and `b`, `n` and the
/// generator are the NIST values.
pub proof fn lemma_secp384r1_constants()
    ensures
        words_value(SECP384R1_PRIME@) == p384_prime(),
        p384_prime() == vstd::arithmetic::power2::pow2(384) - vstd::arithmetic::power2::pow2(128)
            - vstd::arithmetic::power2::pow2(96) + vstd::arithmetic::power2::pow2(32) - 1,
        words_value(SECP384R1_ORDER@) == p384_order(),
        words_value(SECP384R1_EQUATION_A_LE@) == p384_prime() - 3,
        words_value(SECP384R1_EQUATION_B_LE@) == p384_b(),
        words_value(SECP384R1_GENERATOR_X_LE@)
            == 0xaa87ca22be8b05378eb1c71ef320ad746e1d3b628ba79b9859f741e082542a385502f25dbf55296c3a545e3872760ab7nat,
        words_value(SECP384R1_GENERATOR_Y_LE@)
            == 0x3617de4a96262c6f5d9e98bf9292dc29f8f41dbd289a147ce9da3113b5f0b8c00a60b1ce1d7e819d7a431d7c90ea0e5fnat,
        vstd::arithmetic::power2::pow2(384) < 2 * p384_prime(),
{
    reveal_with_fuel(words_value, 13);
    vstd::arithmetic::power2::lemma2_to64();
    vstd::arithmetic::power2::lemma_pow2_adds(64, 32);
    vstd::arithmetic::power2::lemma_pow2_adds(64, 64);
    vstd::arithmetic::power2::lemma_pow2_adds(128, 128);
    vstd::arithmetic::power2::lemma_pow2_adds(256, 128);
    assert(vstd::arithmetic::power2::pow2(64) == 0x1_0000_0000_0000_0000);
    assert(vstd::arithmetic::power2::pow2(96) == 0x1_0000_0000_0000_0000_0000_0000);
    assert(vstd::arithmetic::power2::pow2(128) == 0x1_0000_0000_0000_0000_0000_0000_0000_0000);
    let p128 = vstd::arithmetic::power2::pow2(128);
    assert(vstd::arithmetic::power2::pow2(256) == p128 * p128);
    assert(p128 * p128
        == 0x1_0000_0000_0000_0000_0000_0000_0000_0000_0000_0000_0000_0000_0000_0000_0000_0000nat)
        by (nonlinear_arith)
        requires p128 == 0x1_0000_0000_0000_0000_0000_0000_0000_0000;
    let p256 = vstd::arithmetic::power2::pow2(256);
    assert(vstd::arithmetic::power2::pow2(384) == p256 * p128);
    assert(p256 * p128 == p384_prime() + p128 + vstd::arithmetic::power2::pow2(96) - 0x1_0000_0000 + 1)
        by (nonlinear_arith)
        requires
            p128 == 0x1_0000_0000_0000_0000_0000_0000_0000_0000,
            p256 == 0x1_0000_0000_0000_0000_0000_0000_0000_0000_0000_0000_0000_0000_0000_0000_0000_0000nat,
            vstd::arithmetic::power2::pow2(96) == 0x1_0000_0000_0000_0000_0000_0000;
}

/// The prime of `NistP384`'s parameters is the P-384 prime.
pub proof fn lemma_nist_p384_prime()
    ensures
        words_value(<NistP384 as PrimeCurveParams384>::PRIME_LE_WORDS@) == p384_prime(),
        <NistP384 as PrimeCurveParams384>::PRIME_LE_WORDS == SECP384R1_PRIME,
        words_value(<NistP384 as PrimeCurveParams384>::ORDER_LE_WORDS@) == p384_order(),
{
    lemma_secp384r1_constants();
}


/// The generator's coordinates satisfy `y^2 = x^3 - 3 x + b` modulo `p`, as
/// integers.
#[verifier::spinoff_prover]
#[verifier::rlimit(40)]
proof fn lemma_generator_equation(x: int, y: int, b: int, p: int)
    requires
        x == 0xaa87ca22be8b05378eb1c71ef320ad746e1d3b628ba79b9859f741e082542a385502f25dbf55296c3a545e3872760ab7int,
        y == 0x3617de4a96262c6f5d9e98bf9292dc29f8f41dbd289a147ce9da3113b5f0b8c00a60b1ce1d7e819d7a431d7c90ea0e5fint,
        b == 0xb3312fa7e23ee7e4988e056be3f82d19181d9c6efe8141120314088f5013875ac656398d8a2ed19d2a85c8edd3ec2aefint,
        p == 0xfffffffffffffffffffffffffffffffffffffffffffffffffffffffffffffffeffffffff0000000000000000ffffffffint,
    ensures
        (y * y * 1) % p == (x * x * x - 3 * (x * 1 * 1) + b * (1 * 1 * 1)) % p,
{
}

/// The generator lies on the curve `y^2 = x^3 - 3 x + b` modulo `p`
/// (as a projective point with `z = 1`).
pub proof fn lemma_generator_on_curve()
    ensures
        on_curve(words_value(SECP384R1_GENERATOR_X_LE@) as int, words_value(SECP384R1_GENERATOR_Y_LE@) as int,
            1, p384_b() as int, p384_prime() as int),
{
    lemma_secp384r1_constants();
    lemma_generator_equation(
        words_value(SECP384R1_GENERATOR_X_LE@) as int,
        words_value(SECP384R1_GENERATOR_Y_LE@) as int,
        p384_b() as int,
        p384_prime() as int,
    );
}

/// The NIST P-384 curve.
#[derive(Clone, Copy, Debug)]
pub struct NistP384;

impl PrimeCurveParams for NistP384 {
    /// Field elements are held as raw little-endian words.
    type FieldElement = FieldElement384<NistP384>;

    const WIDTH_WORDS: usize = 12;

    /// A field element stands for its words' value reduced modulo `p`.
    open spec fn field_value(fe: FieldElement384<NistP384>) -> nat {
        words_value(fe@) % p384_prime()
    }

    fn field_zero() -> (r: FieldElement384<NistP384>) {
        let r = FieldElement384::new_unchecked([0, 0, 0, 0, 0, 0, 0, 0, 0, 0, 0, 0]);
        proof {
            reveal_with_fuel(words_value, 13);
            lemma_secp384r1_constants();
        }
        r
    }

    fn field_one() -> (r: FieldElement384<NistP384>) {
        let r = FieldElement384::new_unchecked([1, 0, 0, 0, 0, 0, 0, 0, 0, 0, 0, 0]);
        proof {
            reveal_with_fuel(words_value, 13);
            lemma_secp384r1_constants();
        }
        r
    }

    /// `a = -3`, held as `p - 3`.
    fn equation_a() -> (r: FieldElement384<NistP384>)
        ensures
            words_value(r@) == p384_prime() - 3,
    {
        proof {
            lemma_secp384r1_constants();
        }
        FieldElement384::new_unchecked(SECP384R1_EQUATION_A_LE)
    }

    fn equation_b() -> (r: FieldElement384<NistP384>)
        ensures
            words_value(r@) == p384_b(),
    {
        proof {
            lemma_secp384r1_constants();
        }
        FieldElement384::new_unchecked(SECP384R1_EQUATION_B_LE)
    }

    fn generator() -> (r: (FieldElement384<NistP384>, FieldElement384<NistP384>))
        ensures
            r.0@ == SECP384R1_GENERATOR_X_LE@,
            r.1@ == SECP384R1_GENERATOR_Y_LE@,
    {
        (FieldElement384::new_unchecked(SECP384R1_GENERATOR_X_LE),
            FieldElement384::new_unchecked(SECP384R1_GENERATOR_Y_LE))
    }
}

impl PrimeCurveParams384 for NistP384 {
    const PRIME_LE_WORDS: [u32; 12] = SECP384R1_PRIME;
    const ORDER_LE_WORDS: [u32; 12] = SECP384R1_ORDER;

    proof fn lemma_prime_positive() {
        lemma_secp384r1_constants();
    }

    proof fn lemma_field_value_canonical(fe: FieldElement384<NistP384>) {
        lemma_secp384r1_constants();
    }

    fn equation_a_le() -> (r: FieldElement384<NistP384>)
        ensures
            r@ == SECP384R1_EQUATION_A_LE@,
    {
        FieldElement384::new_unchecked(SECP384R1_EQUATION_A_LE)
    }

    fn equation_b_le() -> (r: FieldElement384<NistP384>)
        ensures
            r@ == SECP384R1_EQUATION_B_LE@,
    {
        FieldElement384::new_unchecked(SECP384R1_EQUATION_B_LE)
    }

    /// The words become the field element unchanged.
    fn from_u32_words_le(words: [u32; 12]) -> (r: FieldElement384<NistP384>)
        ensures
            r@ == words@,
    {
        proof {
            lemma_secp384r1_constants();
            vstd::arithmetic::div_mod::lemma_small_mod(words_value(words@), p384_prime());
        }
        FieldElement384::new_unchecked(words)
    }

    /// The big-endian bytes of the words' value reduced below `p`.
    fn to_repr(fe: &FieldElement384<NistP384>) -> (r: [u8; 48]) {
        proof {
            lemma_secp384r1_constants();
            lemma_words_value_bound(fe@);
        }
        let (diff, borrow) = sub_with_borrow_12(&fe.data, &SECP384R1_PRIME);
        let canonical = if borrow { fe.data } else { diff };
        proof {
            let v = words_value(fe@);
            let p = p384_prime();
            if borrow {
                vstd::arithmetic::div_mod::lemma_small_mod(v, p);
            } else {
                vstd::arithmetic::div_mod::lemma_fundamental_div_mod_converse(v as int, p as int, 1, v - p);
            }
            assert(words_value(canonical@) == v % p);
        }
        let r = words_to_be_bytes_12(&canonical);
        proof {
            lemma_words_bytes_roundtrip(canonical@);
            crate::words::lemma_be_bytes_of_words_len(canonical@);
            lemma_words_of_be_bytes_value(r@);
        }
        r
    }
}


impl NistP384 {
    /// Convert a projective point to affine coordinates with the accelerator:
    /// `Z = 0` gives the identity, otherwise `(x, y)` with `x * Z = X` and
    /// `y * Z = Y` modulo `p`.
    pub fn to_affine_accelerated(p: &ProjectivePoint<NistP384>) -> (r: AffinePoint<NistP384>)
        requires
            NistP384::field_value(p.z) != 0 ==> invertible_mod(NistP384::field_value(p.z) as int,
                p384_prime() as int),
        ensures
            NistP384::field_value(p.z) == 0 ==> r.infinity == 1 && NistP384::field_value(r.x) == 0
                && NistP384::field_value(r.y) == 0,
            NistP384::field_value(p.z) != 0 ==> {
                &&& r.infinity == 0
                &&& congruent(NistP384::field_value(r.x) as int * NistP384::field_value(p.z),
                    NistP384::field_value(p.x) as int, p384_prime() as int)
                &&& congruent(NistP384::field_value(r.y) as int * NistP384::field_value(p.z),
                    NistP384::field_value(p.y) as int, p384_prime() as int)
            },
    {
        proof {
            lemma_secp384r1_constants();
        }
        let z = felt_to_u32_words_le_12::<NistP384>(&p.z);
        if words_are_zero_12(&z) {
            return AffinePoint::identity();
        }
        let prime = SECP384R1_PRIME;
        let z_inv = modinv_384_unchecked(&z, &prime);

        let x_buffer = felt_to_u32_words_le_12::<NistP384>(&p.x);
        let y_buffer = felt_to_u32_words_le_12::<NistP384>(&p.y);

        let buffer = modmul_384_checked(&x_buffer, &z_inv, &prime);
        let x = NistP384::from_u32_words_le(buffer);
        proof {
            lemma_quotient(wv(buffer), wv(x_buffer), wv(z), wv(z_inv), p384_prime() as int);
        }

        let buffer = modmul_384_checked(&y_buffer, &z_inv, &prime);
        let y = NistP384::from_u32_words_le(buffer);
        proof {
            lemma_quotient(wv(buffer), wv(y_buffer), wv(z), wv(z_inv), p384_prime() as int);
        }

        AffinePoint { x, y, infinity: 0 }
    }
}

} // verus!
