use primeorder::p384::{
    SECP384R1_EQUATION_A_LE, SECP384R1_EQUATION_B_LE, SECP384R1_GENERATOR_X_LE,
    SECP384R1_GENERATOR_Y_LE, SECP384R1_ORDER, SECP384R1_PRIME,
};

type W = [u32; 12];

fn geq(a: &W, b: &W) -> bool {
    for i in (0..12).rev() {
        if a[i] != b[i] {
            return a[i] > b[i];
        }
    }
    true
}

fn sub(a: &W, b: &W) -> W {
    let mut r = [0u32; 12];
    let mut borrow = 0i64;
    for i in 0..12 {
        let d = a[i] as i64 - b[i] as i64 - borrow;
        if d < 0 {
            r[i] = (d + (1i64 << 32)) as u32;
            borrow = 1;
        } else {
            r[i] = d as u32;
            borrow = 0;
        }
    }
    r
}

fn add_mod(a: &W, b: &W, p: &W) -> W {
    let mut r = [0u32; 12];
    let mut carry = 0u64;
    for i in 0..12 {
        let s = a[i] as u64 + b[i] as u64 + carry;
        r[i] = s as u32;
        carry = s >> 32;
    }
    if carry == 1 || geq(&r, p) {
        r = sub(&r, p);
    }
    r
}

fn mul_mod(a: &W, b: &W, p: &W) -> W {
    let mut acc = [0u32; 12];
    for i in (0..12).rev() {
        for bit in (0..32).rev() {
            acc = add_mod(&acc, &acc, p);
            if (b[i] >> bit) & 1 == 1 {
                acc = add_mod(&acc, a, p);
            }
        }
    }
    acc
}

fn add13(a: &[u32; 13], b: &[u32; 13]) -> [u32; 13] {
    let mut r = [0u32; 13];
    let mut carry = 0u64;
    for i in 0..13 {
        let s = a[i] as u64 + b[i] as u64 + carry;
        r[i] = s as u32;
        carry = s >> 32;
    }
    r
}

fn pow2_13(k: usize) -> [u32; 13] {
    let mut r = [0u32; 13];
    r[k / 32] = 1 << (k % 32);
    r
}

#[test]
fn prime_matches_its_formula() {
    // p = 2^384 - 2^128 - 2^96 + 2^32 - 1, that is p + 2^128 + 2^96 + 1 = 2^384 + 2^32
    let mut p13 = [0u32; 13];
    p13[..12].copy_from_slice(&SECP384R1_PRIME);
    let lhs = add13(&add13(&add13(&p13, &pow2_13(128)), &pow2_13(96)), &pow2_13(0));
    let rhs = add13(&pow2_13(384), &pow2_13(32));
    assert_eq!(lhs, rhs);
}

#[test]
fn equation_a_is_minus_three() {
    let three: W = [3, 0, 0, 0, 0, 0, 0, 0, 0, 0, 0, 0];
    assert_eq!(add_mod(&SECP384R1_EQUATION_A_LE, &three, &SECP384R1_PRIME), [0u32; 12]);
}

#[test]
fn order_is_below_prime() {
    assert!(geq(&SECP384R1_PRIME, &SECP384R1_ORDER));
    assert!(SECP384R1_ORDER != SECP384R1_PRIME);
}

#[test]
fn generator_lies_on_the_curve() {
    let p = &SECP384R1_PRIME;
    let x = &SECP384R1_GENERATOR_X_LE;
    let y = &SECP384R1_GENERATOR_Y_LE;
    let y2 = mul_mod(y, y, p);
    let x2 = mul_mod(x, x, p);
    let x3 = mul_mod(&x2, x, p);
    let ax = mul_mod(&SECP384R1_EQUATION_A_LE, x, p);
    let rhs = add_mod(&add_mod(&x3, &ax, p), &SECP384R1_EQUATION_B_LE, p);
    assert_eq!(y2, rhs);
    // and a point off the curve fails the check
    let mut y_off = *y;
    y_off[0] ^= 1;
    assert_ne!(mul_mod(&y_off, &y_off, p), rhs);
}
