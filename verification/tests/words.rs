use primeorder::words::{
    sub_with_borrow_12, words_lt_12, words_lt_8,
    bytes_to_u32_words_le_12, bytes_to_u32_words_le_8, word_from_be_bytes, words_are_one_12,
    words_are_zero_12, words_are_zero_8, words_to_be_bytes_12,
};

fn counting_bytes<const N: usize>() -> [u8; N] {
    let mut b = [0u8; N];
    for (i, x) in b.iter_mut().enumerate() {
        *x = i as u8 + 1;
    }
    b
}

#[test]
fn reads_big_endian_word() {
    assert_eq!(word_from_be_bytes(0x12, 0x34, 0x56, 0x78), 0x1234_5678);
    assert_eq!(word_from_be_bytes(0xff, 0, 0, 0x01), 0xff00_0001);
}

#[test]
fn full_32_bytes_become_8_words_last_chunk_first() {
    let bytes: [u8; 32] = counting_bytes();
    let words = bytes_to_u32_words_le_8(&bytes);
    assert_eq!(words[7], 0x0102_0304);
    assert_eq!(words[6], 0x0506_0708);
    assert_eq!(words[0], 0x1d1e_1f20);
}

#[test]
fn short_input_fills_the_top_words_only() {
    let bytes = [0xaa, 0xbb, 0xcc, 0xdd, 0x11, 0x22, 0x33, 0x44];
    let words = bytes_to_u32_words_le_8(&bytes);
    assert_eq!(words[7], 0xaabb_ccdd);
    assert_eq!(words[6], 0x1122_3344);
    assert_eq!(&words[..6], &[0u32; 6]);
    let words12 = bytes_to_u32_words_le_12(&bytes);
    assert_eq!(words12[11], 0xaabb_ccdd);
    assert_eq!(words12[10], 0x1122_3344);
    assert_eq!(&words12[..10], &[0u32; 10]);
}

#[test]
fn empty_input_gives_zero_words() {
    assert_eq!(bytes_to_u32_words_le_8(&[]), [0u32; 8]);
    assert_eq!(bytes_to_u32_words_le_12(&[]), [0u32; 12]);
}

#[test]
fn full_48_bytes_become_12_words() {
    let bytes: [u8; 48] = counting_bytes();
    let words = bytes_to_u32_words_le_12(&bytes);
    assert_eq!(words[11], 0x0102_0304);
    assert_eq!(words[0], 0x2d2e_2f30);
}

#[test]
fn words_and_big_endian_bytes_round_trip() {
    let bytes: [u8; 48] = counting_bytes();
    let words = bytes_to_u32_words_le_12(&bytes);
    assert_eq!(words_to_be_bytes_12(&words), bytes);
    let words2 = [0x0123_4567u32, 0x89ab_cdef, 0, 1, 2, 3, 4, 5, 6, 7, 8, 0xffff_ffff];
    assert_eq!(bytes_to_u32_words_le_12(&words_to_be_bytes_12(&words2)), words2);
    let out = words_to_be_bytes_12(&words2);
    assert_eq!(&out[..4], &[0xff, 0xff, 0xff, 0xff]);
    assert_eq!(&out[44..], &[0x01, 0x23, 0x45, 0x67]);
}

#[test]
fn zero_and_one_tests() {
    assert!(words_are_zero_12(&[0u32; 12]));
    let mut w = [0u32; 12];
    w[11] = 1;
    assert!(!words_are_zero_12(&w));
    assert!(!words_are_one_12(&w));
    let mut one = [0u32; 12];
    one[0] = 1;
    assert!(words_are_one_12(&one));
    assert!(!words_are_zero_12(&one));
    one[5] = 7;
    assert!(!words_are_one_12(&one));
    assert!(words_are_zero_8(&[0u32; 8]));
    assert!(!words_are_zero_8(&[0, 0, 0, 0, 0, 0, 0, 9]));
}

#[test]
fn subtraction_with_borrow() {
    let mut a = [0u32; 12];
    a[1] = 1; // 2^32
    let mut b = [0u32; 12];
    b[0] = 1;
    let (d, borrow) = sub_with_borrow_12(&a, &b);
    assert!(!borrow);
    assert_eq!(d[0], 0xffff_ffff);
    assert_eq!(d[1], 0);
    let (_, borrow2) = sub_with_borrow_12(&b, &a);
    assert!(borrow2);
    assert!(words_lt_12(&b, &a));
    assert!(!words_lt_12(&a, &b));
    assert!(!words_lt_12(&a, &a));
    assert!(words_lt_8(&[1, 0, 0, 0, 0, 0, 0, 0], &[0, 0, 0, 0, 0, 0, 0, 1]));
    assert!(!words_lt_8(&[0, 0, 0, 0, 0, 0, 0, 2], &[0xffff_ffff, 0, 0, 0, 0, 0, 0, 1]));
}
