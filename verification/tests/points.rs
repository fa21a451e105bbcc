use primeorder::field::{FieldElement384, PrimeCurveParams, PrimeCurveParams384};
use primeorder::p384::{
    NistP384, SECP384R1_EQUATION_A_LE, SECP384R1_EQUATION_B_LE, SECP384R1_GENERATOR_X_LE,
    SECP384R1_GENERATOR_Y_LE, SECP384R1_ORDER, SECP384R1_PRIME,
};
use primeorder::points::{
    affine_to_r0_affine_384, felt_to_u32_words_le_12, proj384_to_projective,
    projective_to_proj384, r0_affine_to_projective_direct, scalar_to_words_12,
    scalar_to_words_8, AffinePoint, ProjectivePoint,
};
use primeorder::projective::Projective384;

fn fe(w: [u32; 12]) -> FieldElement384<NistP384> {
    FieldElement384::new_unchecked(w)
}

#[test]
fn identity_point_words() {
    let id = Projective384::identity();
    assert_eq!(id.x, [0; 12]);
    assert_eq!(id.y, [1, 0, 0, 0, 0, 0, 0, 0, 0, 0, 0, 0]);
    assert_eq!(id.z, [0; 12]);
    assert!(id.is_identity());
    let p = Projective384 { x: [0; 12], y: [0; 12], z: [0, 0, 0, 0, 0, 0, 0, 0, 0, 0, 0, 1] };
    assert!(!p.is_identity());
}

#[test]
fn field_element_words_of_nist_p384() {
    let w = [11u32, 22, 33, 44, 55, 66, 77, 88, 99, 111, 122, 133];
    assert_eq!(felt_to_u32_words_le_12::<NistP384>(&fe(w)), w);
    let repr = NistP384::to_repr(&fe(w));
    assert_eq!(&repr[..4], &[0, 0, 0, 133]);
    assert_eq!(&repr[44..], &[0, 0, 0, 11]);
}

#[test]
fn projective_round_trip_through_words() {
    let p = ProjectivePoint::<NistP384> {
        x: fe(SECP384R1_GENERATOR_X_LE),
        y: fe(SECP384R1_GENERATOR_Y_LE),
        z: fe([1, 0, 0, 0, 0, 0, 0, 0, 0, 0, 0, 0]),
    };
    let q = projective_to_proj384(&p);
    assert_eq!(q.x, SECP384R1_GENERATOR_X_LE);
    assert_eq!(q.y, SECP384R1_GENERATOR_Y_LE);
    assert!(!q.is_identity());
    let back: ProjectivePoint<NistP384> = proj384_to_projective(&q);
    assert_eq!(back.x.data, SECP384R1_GENERATOR_X_LE);
    assert_eq!(back.y.data, SECP384R1_GENERATOR_Y_LE);
    assert_eq!(back.z.data, [1, 0, 0, 0, 0, 0, 0, 0, 0, 0, 0, 0]);
}

#[test]
fn identity_converts_to_projective_identity() {
    let q = Projective384 { x: [7; 12], y: [8; 12], z: [0; 12] };
    let back: ProjectivePoint<NistP384> = proj384_to_projective(&q);
    assert_eq!(back.x.data, [0; 12]);
    assert_eq!(back.y.data, [1, 0, 0, 0, 0, 0, 0, 0, 0, 0, 0, 0]);
    assert_eq!(back.z.data, [0; 12]);
}

#[test]
fn affine_points_for_the_accelerator() {
    let a = AffinePoint::<NistP384> {
        x: fe(SECP384R1_GENERATOR_X_LE),
        y: fe(SECP384R1_GENERATOR_Y_LE),
        infinity: 0,
    };
    assert!(!a.is_identity());
    assert_eq!(
        affine_to_r0_affine_384(&a),
        Some((SECP384R1_GENERATOR_X_LE, SECP384R1_GENERATOR_Y_LE))
    );
    let id = AffinePoint::<NistP384>::identity();
    assert!(id.is_identity());
    assert_eq!(affine_to_r0_affine_384(&id), None);
}

#[test]
fn accelerator_points_back_to_projective() {
    let p: ProjectivePoint<NistP384> =
        r0_affine_to_projective_direct(&Some((SECP384R1_GENERATOR_X_LE, SECP384R1_GENERATOR_Y_LE)));
    assert_eq!(p.x.data, SECP384R1_GENERATOR_X_LE);
    assert_eq!(p.y.data, SECP384R1_GENERATOR_Y_LE);
    assert_eq!(p.z.data, [1, 0, 0, 0, 0, 0, 0, 0, 0, 0, 0, 0]);
    let id: ProjectivePoint<NistP384> = r0_affine_to_projective_direct(&None);
    assert_eq!(id.z.data, [0; 12]);
    assert_eq!(id.y.data[0], 1);
}

#[test]
fn scalar_words() {
    let mut k = [0u8; 48];
    k[47] = 5;
    k[0] = 0x10;
    let w = scalar_to_words_12(&k);
    assert_eq!(w[0], 5);
    assert_eq!(w[11], 0x1000_0000);
    let mut k8 = [0u8; 32];
    k8[31] = 9;
    assert_eq!(scalar_to_words_8(&k8), [9, 0, 0, 0, 0, 0, 0, 0]);
}

#[test]
fn nist_p384_parameters() {
    assert_eq!(<NistP384 as PrimeCurveParams384>::PRIME_LE_WORDS, SECP384R1_PRIME);
    assert_eq!(<NistP384 as PrimeCurveParams384>::ORDER_LE_WORDS, SECP384R1_ORDER);
    assert_eq!(NistP384::equation_a().data, SECP384R1_EQUATION_A_LE);
    assert_eq!(NistP384::equation_b().data, SECP384R1_EQUATION_B_LE);
    assert_eq!(NistP384::equation_a_le().data, SECP384R1_EQUATION_A_LE);
    assert_eq!(NistP384::equation_b_le().data, SECP384R1_EQUATION_B_LE);
    let (gx, gy) = NistP384::generator();
    assert_eq!(gx.data, SECP384R1_GENERATOR_X_LE);
    assert_eq!(gy.data, SECP384R1_GENERATOR_Y_LE);
    assert_eq!(NistP384::field_zero().data, [0; 12]);
    assert_eq!(NistP384::field_one().data[0], 1);
    assert_eq!(NistP384::from_u32_words_le([4; 12]).data, [4; 12]);
    // a = p - 3
    let mut a = SECP384R1_PRIME;
    a[0] -= 3;
    assert_eq!(a, SECP384R1_EQUATION_A_LE);
    // the prime's big-endian hex
    let p = primeorder::words::words_to_be_bytes_12(&SECP384R1_PRIME);
    let hex: String = p.iter().map(|b| format!("{:02x}", b)).collect();
    assert_eq!(
        hex,
        "fffffffffffffffffffffffffffffffffffffffffffffffffffffffffffffffeffffffff0000000000000000ffffffff"
    );
    let b = NistP384::to_repr(&NistP384::equation_b());
    let hex_b: String = b.iter().map(|x| format!("{:02x}", x)).collect();
    assert_eq!(
        hex_b,
        "b3312fa7e23ee7e4988e056be3f82d19181d9c6efe8141120314088f5013875ac656398d8a2ed19d2a85c8edd3ec2aef"
    );
}

#[test]
fn to_repr_reduces_below_the_prime() {
    // p itself stands for zero
    assert_eq!(NistP384::to_repr(&fe(SECP384R1_PRIME)), [0u8; 48]);
    // p + 5 stands for 5: word 0 of p is all ones, so adding 5 carries into word 1
    let mut w = SECP384R1_PRIME;
    w[0] = w[0].wrapping_add(5);
    w[1] += 1;
    let r = NistP384::to_repr(&fe(w));
    let back = primeorder::words::bytes_to_u32_words_le_12(&r);
    let mut five = [0u32; 12];
    five[0] = 5;
    assert_eq!(back, five);
    assert_eq!(felt_to_u32_words_le_12::<NistP384>(&fe(w)), five);
    // a value below p is unchanged
    let small = [5u32, 0, 0, 0, 0, 0, 0, 0, 0, 0, 0, 0];
    assert_eq!(felt_to_u32_words_le_12::<NistP384>(&fe(small)), small);
}

#[test]
fn words_round_trip_through_projective() {
    let q = Projective384 { x: [3; 12], y: [4; 12], z: [0, 0, 0, 0, 0, 0, 0, 0, 0, 0, 0, 9] };
    let p: ProjectivePoint<NistP384> = proj384_to_projective(&q);
    let r = projective_to_proj384(&p);
    assert_eq!(r.x, q.x);
    assert_eq!(r.y, q.y);
    assert_eq!(r.z, q.z);
}
