use primeorder::field::{FieldElement256, FieldElement384};
use primeorder::p384::NistP384;

#[test]
fn new_unchecked_keeps_the_words() {
    let w = [1u32, 2, 3, 4, 5, 6, 7, 8];
    let fe = FieldElement256::<NistP384>::new_unchecked(w);
    assert_eq!(*fe, w);
    assert_eq!(fe.data, w);
    let w12 = [9u32; 12];
    let fe12 = FieldElement384::<NistP384>::new_unchecked(w12);
    assert_eq!(*fe12, w12);
}

#[test]
fn default_is_zero() {
    assert_eq!(FieldElement256::<NistP384>::default().data, [0u32; 8]);
    assert_eq!(FieldElement384::<NistP384>::default().data, [0u32; 12]);
}

#[test]
fn field_bytes_are_big_endian() {
    let mut bytes = [0u8; 32];
    bytes[31] = 0x2a;
    bytes[0] = 0x80;
    let fe = FieldElement256::<NistP384>::from_field_bytes(&bytes);
    assert_eq!(fe.data[0], 0x2a);
    assert_eq!(fe.data[7], 0x8000_0000);
    assert_eq!(fe.to_field_bytes(), bytes);
}

#[test]
fn field_bytes_round_trip_384() {
    let mut bytes = [0u8; 48];
    for (i, b) in bytes.iter_mut().enumerate() {
        *b = (i * 7 + 3) as u8;
    }
    let fe = FieldElement384::<NistP384>::from_field_bytes(&bytes);
    assert_eq!(fe.data[11], u32::from_be_bytes([3, 10, 17, 24]));
    assert_eq!(fe.to_field_bytes(), bytes);
    let fe2 = FieldElement384::<NistP384>::new_unchecked([0x0102_0304; 12]);
    let out = fe2.to_field_bytes();
    assert_eq!(&out[..4], &[1, 2, 3, 4]);
    assert_eq!(FieldElement384::<NistP384>::from_field_bytes(&out).data, fe2.data);
}

#[test]
fn conditional_select_picks_by_choice() {
    let a = FieldElement256::<NistP384>::new_unchecked([1; 8]);
    let b = FieldElement256::<NistP384>::new_unchecked([2; 8]);
    assert_eq!(FieldElement256::conditional_select(&a, &b, 0).data, [1; 8]);
    assert_eq!(FieldElement256::conditional_select(&a, &b, 1).data, [2; 8]);
    let c = FieldElement384::<NistP384>::new_unchecked([3; 12]);
    let d = FieldElement384::<NistP384>::new_unchecked([4; 12]);
    assert_eq!(FieldElement384::conditional_select(&c, &d, 1).data, [4; 12]);
    assert_eq!(FieldElement384::conditional_select(&c, &d, 0).data, [3; 12]);
}

#[test]
fn conditional_assign_changes_only_on_one() {
    let mut a = FieldElement384::<NistP384>::new_unchecked([5; 12]);
    let b = FieldElement384::<NistP384>::new_unchecked([6; 12]);
    a.conditional_assign(&b, 0);
    assert_eq!(a.data, [5; 12]);
    a.conditional_assign(&b, 1);
    assert_eq!(a.data, [6; 12]);
    let mut c = FieldElement256::<NistP384>::new_unchecked([7, 8, 9, 10, 11, 12, 13, 14]);
    c.conditional_assign(&FieldElement256::new_unchecked([0; 8]), 1);
    assert_eq!(c.data, [0; 8]);
}

#[test]
fn equality_compares_words() {
    let a = FieldElement256::<NistP384>::new_unchecked([1, 2, 3, 4, 5, 6, 7, 8]);
    let b = FieldElement256::<NistP384>::new_unchecked([1, 2, 3, 4, 5, 6, 7, 8]);
    let c = FieldElement256::<NistP384>::new_unchecked([1, 2, 3, 4, 5, 6, 7, 9]);
    assert!(a == b);
    assert!(a != c);
    let d = FieldElement384::<NistP384>::new_unchecked([2; 12]);
    let mut e = d;
    assert!(d == e);
    e.conditional_assign(&FieldElement384::new_unchecked([3; 12]), 1);
    assert!(d != e);
}
