//! Big integers as little-endian 32-bit words, and their big-endian byte
//! encodings.
use vstd::prelude::*;
use vstd::endian::{endianness, Endian};
use vstd::arithmetic::power2::{pow2, lemma2_to64, lemma_pow2_adds};

verus! {

/// The integer that a little-endian sequence of 32-bit words encodes.
pub open spec fn words_value(w: Seq<u32>) -> nat
    decreases w.len(),
{
    if w.len() == 0 {
        0
    } else {
        w[0] as nat + 0x1_0000_0000 * words_value(w.drop_first())
    }
}

/// The integer that a big-endian byte string encodes.
pub open spec fn be_bytes_value(b: Seq<u8>) -> nat
    decreases b.len(),
{
    if b.len() == 0 {
        0
    } else {
        be_bytes_value(b.drop_last()) * 0x100 + b.last() as nat
    }
}

/// The 32-bit word that bytes `4i .. 4i + 4` of `b` encode, most significant
/// byte first.
pub open spec fn be_word(b: Seq<u8>, i: int) -> nat {
    b[4 * i] as nat * 0x100_0000 + b[4 * i + 1] as nat * 0x1_0000 + b[4 * i + 2] as nat * 0x100
        + b[4 * i + 3] as nat
}

/// The words that a big-endian byte string of `4n` bytes encodes, least
/// significant word first.
pub open spec fn words_of_be_bytes(b: Seq<u8>) -> Seq<u32> {
    Seq::new(b.len() / 4, |j: int| be_word(b, b.len() / 4 - 1 - j) as u32)
}

/// The four bytes of a word, most significant first.
pub open spec fn word_be_bytes(w: u32) -> Seq<u8> {
    seq![(w / 0x100_0000) as u8, ((w / 0x1_0000) % 0x100) as u8, ((w / 0x100) % 0x100) as u8,
        (w % 0x100) as u8]
}

/// The big-endian bytes of a little-endian word sequence: most significant
/// word first, each word most significant byte first.
pub open spec fn be_bytes_of_words(w: Seq<u32>) -> Seq<u8>
    decreases w.len(),
{
    if w.len() == 0 {
        Seq::empty()
    } else {
        be_bytes_of_words(w.drop_first()) + word_be_bytes(w[0])
    }
}

/// Splitting off the last byte of a big-endian string.
proof fn lemma_be_drop_last(b: Seq<u8>)
    requires
        b.len() >= 1,
    ensures
        be_bytes_value(b) == be_bytes_value(b.drop_last()) * 0x100 + b[b.len() - 1] as nat,
{
}

/// The last four bytes of a big-endian string as one value.
proof fn lemma_be_four(v: nat, c0: nat, c1: nat, c2: nat, c3: nat, v1: nat, v2: nat, v3: nat, v0: nat)
    requires
        v0 == v1 * 0x100 + c3,
        v1 == v2 * 0x100 + c2,
        v2 == v3 * 0x100 + c1,
        v3 == v * 0x100 + c0,
    ensures
        v0 == v * 0x1_0000_0000 + (c0 * 0x100_0000 + c1 * 0x1_0000 + c2 * 0x100 + c3),
{
}

/// Splitting off the last four bytes of a big-endian string.
pub proof fn lemma_be_split(b: Seq<u8>)
    requires
        b.len() >= 4,
        b.len() % 4 == 0,
    ensures
        be_bytes_value(b) == be_bytes_value(b.subrange(0, b.len() - 4)) * 0x1_0000_0000
            + be_word(b, (b.len() - 4) / 4),
{
    let n = b.len();
    let b1 = b.drop_last();
    let b2 = b1.drop_last();
    let b3 = b2.drop_last();
    let b4 = b3.drop_last();
    assert(b4 =~= b.subrange(0, n - 4));
    lemma_be_drop_last(b);
    lemma_be_drop_last(b1);
    lemma_be_drop_last(b2);
    lemma_be_drop_last(b3);
    assert(b1[n - 2] == b[n - 2]);
    assert(b2[n - 3] == b[n - 3]);
    assert(b3[n - 4] == b[n - 4]);
    lemma_be_four(be_bytes_value(b4), b[n - 4] as nat, b[n - 3] as nat, b[n - 2] as nat,
        b[n - 1] as nat, be_bytes_value(b1), be_bytes_value(b2), be_bytes_value(b3),
        be_bytes_value(b));
    let i = (n - 4) / 4;
    assert(4 * i == n - 4);
    assert(4 * i + 1 == n - 3);
    assert(4 * i + 2 == n - 2);
    assert(4 * i + 3 == n - 1);
}

/// A word sequence whose words are the 4-byte big-endian chunks of `b`, the
/// last chunk first, encodes the same integer as `b`.
pub proof fn lemma_words_of_be_bytes_value(b: Seq<u8>)
    requires
        b.len() % 4 == 0,
    ensures
        words_value(words_of_be_bytes(b)) == be_bytes_value(b),
    decreases b.len(),
{
    let w = words_of_be_bytes(b);
    if b.len() == 0 {
        assert(w.len() == 0);
    } else {
        let n = b.len() / 4;
        let prefix = b.subrange(0, b.len() - 4);
        lemma_be_split(b);
        lemma_words_of_be_bytes_value(prefix);
        let wp = words_of_be_bytes(prefix);
        assert forall|j: int| 0 <= j < n - 1 implies #[trigger] w.drop_first()[j] == wp[j] by {
            assert(be_word(b, n - 1 - (j + 1)) == be_word(prefix, n - 2 - j));
        }
        assert(w.drop_first() =~= wp);
        assert(w[0] as nat == be_word(b, n - 1)) by {
            assert(be_word(b, n - 1) < 0x1_0000_0000);
        }
    }
}


/// A word sequence encodes zero exactly when every word is zero.
pub proof fn lemma_words_value_zero(w: Seq<u32>)
    ensures
        (words_value(w) == 0) <==> (forall|i: int| 0 <= i < w.len() ==> #[trigger] w[i] == 0),
    decreases w.len(),
{
    if w.len() > 0 {
        lemma_words_value_zero(w.drop_first());
        if words_value(w) == 0 {
            assert forall|i: int| 0 <= i < w.len() implies #[trigger] w[i] == 0 by {
                if i > 0 {
                    assert(w[i] == w.drop_first()[i - 1]);
                }
            }
        }
        if forall|i: int| 0 <= i < w.len() ==> #[trigger] w[i] == 0 {
            assert forall|i: int| 0 <= i < w.len() - 1 implies #[trigger] w.drop_first()[i] == 0 by {
                assert(w.drop_first()[i] == w[i + 1]);
            }
        }
    }
}

/// A word sequence encodes one exactly when its first word is one and the
/// rest are zero.
pub proof fn lemma_words_value_one(w: Seq<u32>)
    requires
        w.len() > 0,
    ensures
        (words_value(w) == 1) <==> (w[0] == 1 && words_value(w.drop_first()) == 0),
{
}

/// Whether every word is zero, that is, whether the words encode zero.
pub fn words_are_zero_12(a: &[u32; 12]) -> (r: bool)
    ensures
        r == (words_value(a@) == 0),
        r == (forall|i: int| 0 <= i < 12 ==> #[trigger] a[i] == 0),
{
    proof {
        lemma_words_value_zero(a@);
    }
    let mut i: usize = 0;
    while i < 12
        invariant
            i <= 12,
            forall|j: int| 0 <= j < i ==> a[j] == 0,
        decreases 12 - i,
    {
        if a[i] != 0 {
            proof {
                assert(a@[i as int] != 0);
                lemma_words_value_zero(a@);
            }
            return false;
        }
        i += 1;
    }
    true
}

/// Whether the words encode one.
pub fn words_are_one_12(a: &[u32; 12]) -> (r: bool)
    ensures
        r == (words_value(a@) == 1),
{
    proof {
        lemma_words_value_one(a@);
        lemma_words_value_zero(a@.drop_first());
    }
    if a[0] != 1 {
        return false;
    }
    let mut i: usize = 1;
    while i < 12
        invariant
            1 <= i <= 12,
            forall|j: int| 1 <= j < i ==> a[j] == 0,
        decreases 12 - i,
    {
        if a[i] != 0 {
            proof {
                assert(a@.drop_first()[i - 1] == a@[i as int]);
                assert(a@.drop_first()[i - 1] != 0);
                lemma_words_value_one(a@);
                lemma_words_value_zero(a@.drop_first());
            }
            return false;
        }
        i += 1;
    }
    proof {
        assert forall|j: int| 0 <= j < 11 implies #[trigger] a@.drop_first()[j] == 0 by {
            assert(a@.drop_first()[j] == a[j + 1]);
        }
    }
    true
}

/// Whether every word is zero, that is, whether the words encode zero.
pub fn words_are_zero_8(a: &[u32; 8]) -> (r: bool)
    ensures
        r == (words_value(a@) == 0),
        r == (forall|i: int| 0 <= i < 8 ==> #[trigger] a[i] == 0),
{
    proof {
        lemma_words_value_zero(a@);
    }
    let mut i: usize = 0;
    while i < 8
        invariant
            i <= 8,
            forall|j: int| 0 <= j < i ==> a[j] == 0,
        decreases 8 - i,
    {
        if a[i] != 0 {
            proof {
                assert(a@[i as int] != 0);
                lemma_words_value_zero(a@);
            }
            return false;
        }
        i += 1;
    }
    true
}


/// The bytes of little-endian words as laid out in memory: word `i` at bytes
/// `4i .. 4i + 4`, least significant byte first when `little` holds, most
/// significant first otherwise.
pub open spec fn words_memory_bytes(w: Seq<u32>, little: bool) -> Seq<u8> {
    Seq::new(4 * w.len(), |t: int| if little {
        word_be_bytes(w[t / 4])[3 - t % 4]
    } else {
        word_be_bytes(w[t / 4])[t % 4]
    })
}

/// Reversing the little-endian memory bytes of words gives their big-endian
/// encoding.
pub proof fn lemma_reversed_memory_bytes(w: Seq<u32>)
    ensures
        words_memory_bytes(w, true).reverse() == be_bytes_of_words(w),
{
    let n = w.len();
    let m = words_memory_bytes(w, true);
    lemma_be_bytes_of_words_len(w);
    assert forall|t: int| 0 <= t < 4 * n implies #[trigger] m.reverse()[t] == be_bytes_of_words(w)[t] by {
        let i = t / 4;
        let k = t % 4;
        lemma_be_bytes_of_words_index(w, i, k);
        let u = 4 * n - 1 - t;
        assert(u / 4 == n - 1 - i);
        assert(u % 4 == 3 - k);
    }
    assert(m.reverse() =~= be_bytes_of_words(w));
}

/// The words' memory bytes on this machine, reversed: the big-endian
/// encoding of the words on a little-endian machine.
pub open spec fn reversed_memory_bytes(w: Seq<u32>) -> Seq<u8> {
    words_memory_bytes(w, endianness() == Endian::Little).reverse()
}


/// A word sequence encodes a value below `2^(32 n)`.
pub proof fn lemma_words_value_bound(w: Seq<u32>)
    ensures
        words_value(w) < pow2(32 * w.len()),
    decreases w.len(),
{
    lemma2_to64();
    if w.len() > 0 {
        lemma_words_value_bound(w.drop_first());
        lemma_pow2_adds(32, (32 * (w.len() - 1)) as nat);
        assert(32 * (w.len() - 1) + 32 == 32 * w.len());
    }
}

/// Appending a word `x` at the most significant end adds `x * 2^(32 n)`.
pub proof fn lemma_words_value_push(w: Seq<u32>, x: u32)
    ensures
        words_value(w.push(x)) == words_value(w) + x as nat * pow2(32 * w.len()),
    decreases w.len(),
{
    lemma2_to64();
    if w.len() == 0 {
        assert(w.push(x).drop_first() =~= Seq::<u32>::empty());
        assert(words_value(w.push(x).drop_first()) == 0);
        assert(pow2(0) == 1);
        assert(x as nat * 1 == x as nat);
    } else {
        let rest = w.drop_first();
        lemma_words_value_push(rest, x);
        assert(w.push(x).drop_first() =~= rest.push(x));
        lemma_pow2_adds(32, (32 * (w.len() - 1)) as nat);
        assert(32 * (w.len() - 1) + 32 == 32 * w.len());
        let big = pow2((32 * (w.len() - 1)) as nat);
        let wr = words_value(rest);
        assert(0x1_0000_0000 * (wr + x as nat * big) == 0x1_0000_0000 * wr + x as nat * (0x1_0000_0000 * big))
            by (nonlinear_arith);
        assert(w.push(x)[0] == w[0]);
    }
}

/// Two word sequences of the same length that encode the same value are
/// equal.
pub proof fn lemma_words_value_injective(a: Seq<u32>, b: Seq<u32>)
    requires
        a.len() == b.len(),
        words_value(a) == words_value(b),
    ensures
        a == b,
    decreases a.len(),
{
    if a.len() > 0 {
        let ra = words_value(a.drop_first());
        let rb = words_value(b.drop_first());
        assert(a[0] == b[0] && ra == rb) by {
            vstd::arithmetic::div_mod::lemma_fundamental_div_mod_converse(
                words_value(a) as int, 0x1_0000_0000, ra as int, a[0] as int);
            vstd::arithmetic::div_mod::lemma_fundamental_div_mod_converse(
                words_value(b) as int, 0x1_0000_0000, rb as int, b[0] as int);
        }
        lemma_words_value_injective(a.drop_first(), b.drop_first());
        assert(a =~= b) by {
            assert forall|i: int| 0 <= i < a.len() implies a[i] == b[i] by {
                if i > 0 {
                    assert(a[i] == a.drop_first()[i - 1]);
                    assert(b[i] == b.drop_first()[i - 1]);
                }
            }
        }
    }
}

/// Subtracts `b` from `a` word by word with a borrow. With no final borrow,
/// `a >= b` and the words encode `a - b`; with a final borrow, `a < b`.
pub fn sub_with_borrow_12(a: &[u32; 12], b: &[u32; 12]) -> (r: ([u32; 12], bool))
    ensures
        !r.1 ==> words_value(a@) >= words_value(b@) && words_value(r.0@) == words_value(a@) - words_value(b@),
        r.1 <==> words_value(a@) < words_value(b@),
{
    let mut out = [0u32; 12];
    let mut borrow: u64 = 0;
    let mut i: usize = 0;
    while i < 12
        invariant
            i <= 12,
            borrow <= 1,
            words_value(a@.take(i as int)) + borrow * pow2(32 * i as nat)
                == words_value(b@.take(i as int)) + words_value(out@.take(i as int)),
        decreases 12 - i,
    {
        let ghost old_out = out@;
        let ghost old_borrow = borrow;
        let ai = a[i] as u64;
        let bi = b[i] as u64 + borrow;
        if ai >= bi {
            out[i] = (ai - bi) as u32;
            borrow = 0;
            proof {
                assert(out[i as int] as int == ai - bi);
            }
        } else {
            out[i] = (ai + 0x1_0000_0000 - bi) as u32;
            borrow = 1;
            proof {
                assert(out[i as int] as int == ai + 0x1_0000_0000 - bi);
            }
        }
        proof {
            assert(a@.take(i + 1) =~= a@.take(i as int).push(a[i as int]));
            assert(b@.take(i + 1) =~= b@.take(i as int).push(b[i as int]));
            assert(out@.take(i + 1) =~= out@.take(i as int).push(out[i as int]));
            assert(out@.take(i as int) =~= old_out.take(i as int));
            lemma_words_value_push(a@.take(i as int), a[i as int]);
            lemma_words_value_push(b@.take(i as int), b[i as int]);
            lemma_words_value_push(out@.take(i as int), out[i as int]);
            lemma_pow2_adds(32 * i as nat, 32);
            lemma2_to64();
            let pw = pow2(32 * i as nat);
            let oi = out[i as int] as int;
            let ai_ = a[i as int] as int;
            let bi_ = b[i as int] as int;
            let ob = old_borrow as int;
            let nb = borrow as int;
            assert(oi == ai_ - bi_ - ob + 0x1_0000_0000 * nb);
            assert(pw * 0x1_0000_0000 == pow2(32 * (i + 1) as nat));
            assert(oi * pw == ai_ * pw - bi_ * pw - ob * pw + nb * (pw * 0x1_0000_0000)) by (nonlinear_arith)
                requires oi == ai_ - bi_ - ob + 0x1_0000_0000 * nb;
        }
        i += 1;
    }
    proof {
        assert(a@.take(12) =~= a@);
        assert(b@.take(12) =~= b@);
        assert(out@.take(12) =~= out@);
        lemma_words_value_bound(out@);
        lemma_words_value_bound(a@);
        lemma_words_value_bound(b@);
    }
    (out, borrow == 1)
}

/// Whether `a` encodes a smaller value than `b`.
pub fn words_lt_12(a: &[u32; 12], b: &[u32; 12]) -> (r: bool)
    ensures
        r == (words_value(a@) < words_value(b@)),
{
    let (_, borrow) = sub_with_borrow_12(a, b);
    borrow
}

/// Subtracts `b` from `a` word by word with a borrow. With no final borrow,
/// `a >= b` and the words encode `a - b`; with a final borrow, `a < b`.
pub fn sub_with_borrow_8(a: &[u32; 8], b: &[u32; 8]) -> (r: ([u32; 8], bool))
    ensures
        !r.1 ==> words_value(a@) >= words_value(b@) && words_value(r.0@) == words_value(a@) - words_value(b@),
        r.1 <==> words_value(a@) < words_value(b@),
{
    let mut out = [0u32; 8];
    let mut borrow: u64 = 0;
    let mut i: usize = 0;
    while i < 8
        invariant
            i <= 8,
            borrow <= 1,
            words_value(a@.take(i as int)) + borrow * pow2(32 * i as nat)
                == words_value(b@.take(i as int)) + words_value(out@.take(i as int)),
        decreases 8 - i,
    {
        let ghost old_out = out@;
        let ghost old_borrow = borrow;
        let ai = a[i] as u64;
        let bi = b[i] as u64 + borrow;
        if ai >= bi {
            out[i] = (ai - bi) as u32;
            borrow = 0;
            proof {
                assert(out[i as int] as int == ai - bi);
            }
        } else {
            out[i] = (ai + 0x1_0000_0000 - bi) as u32;
            borrow = 1;
            proof {
                assert(out[i as int] as int == ai + 0x1_0000_0000 - bi);
            }
        }
        proof {
            assert(a@.take(i + 1) =~= a@.take(i as int).push(a[i as int]));
            assert(b@.take(i + 1) =~= b@.take(i as int).push(b[i as int]));
            assert(out@.take(i + 1) =~= out@.take(i as int).push(out[i as int]));
            assert(out@.take(i as int) =~= old_out.take(i as int));
            lemma_words_value_push(a@.take(i as int), a[i as int]);
            lemma_words_value_push(b@.take(i as int), b[i as int]);
            lemma_words_value_push(out@.take(i as int), out[i as int]);
            lemma_pow2_adds(32 * i as nat, 32);
            lemma2_to64();
            let pw = pow2(32 * i as nat);
            let oi = out[i as int] as int;
            let ai_ = a[i as int] as int;
            let bi_ = b[i as int] as int;
            let ob = old_borrow as int;
            let nb = borrow as int;
            assert(oi == ai_ - bi_ - ob + 0x1_0000_0000 * nb);
            assert(pw * 0x1_0000_0000 == pow2(32 * (i + 1) as nat));
            assert(oi * pw == ai_ * pw - bi_ * pw - ob * pw + nb * (pw * 0x1_0000_0000)) by (nonlinear_arith)
                requires oi == ai_ - bi_ - ob + 0x1_0000_0000 * nb;
        }
        i += 1;
    }
    proof {
        assert(a@.take(8) =~= a@);
        assert(b@.take(8) =~= b@);
        assert(out@.take(8) =~= out@);
        lemma_words_value_bound(out@);
        lemma_words_value_bound(a@);
        lemma_words_value_bound(b@);
    }
    (out, borrow == 1)
}

/// Whether `a` encodes a smaller value than `b`.
pub fn words_lt_8(a: &[u32; 8], b: &[u32; 8]) -> (r: bool)
    ensures
        r == (words_value(a@) < words_value(b@)),
{
    let (_, borrow) = sub_with_borrow_8(a, b);
    borrow
}

/// Reads a 32-bit word from four bytes, most significant byte first.
pub fn word_from_be_bytes(b0: u8, b1: u8, b2: u8, b3: u8) -> (r: u32)
    ensures
        r == b0 as nat * 0x100_0000 + b1 as nat * 0x1_0000 + b2 as nat * 0x100 + b3 as nat,
{
    (b0 as u32) * 0x100_0000 + (b1 as u32) * 0x1_0000 + (b2 as u32) * 0x100 + (b3 as u32)
}


/// Reads big-endian bytes into little-endian words: each 4-byte chunk `i`
/// becomes word `7 - i`; words not reached stay zero.
pub fn bytes_to_u32_words_le_8(bytes: &[u8]) -> (r: [u32; 8])
    requires
        bytes@.len() % 4 == 0,
        bytes@.len() <= 32,
    ensures
        forall|j: int| 0 <= j < 8 ==> #[trigger] r[j] as nat == if j < 8 - bytes@.len() / 4 {
            0
        } else {
            be_word(bytes@, 7 - j)
        },
        bytes@.len() == 32 ==> r@ == words_of_be_bytes(bytes@),
{
    let mut words = [0u32; 8];
    let n = bytes.len() / 4;
    let mut i: usize = 0;
    while i < n
        invariant
            n == bytes@.len() / 4,
            bytes@.len() % 4 == 0,
            n <= 8,
            i <= n,
            forall|j: int| 0 <= j < 8 ==> #[trigger] words[j] as nat == if j < 8 - i {
                0
            } else {
                be_word(bytes@, 7 - j)
            },
        decreases n - i,
    {
        // Convert each big-endian chunk to a little-endian u32
        words[7 - i] = word_from_be_bytes(bytes[4 * i], bytes[4 * i + 1], bytes[4 * i + 2], bytes[4 * i + 3]);
        i += 1;
    }
    proof {
        if bytes@.len() == 32 {
            assert(words@ =~= words_of_be_bytes(bytes@));
        }
    }
    words
}

/// Reads big-endian bytes into little-endian words: each 4-byte chunk `i`
/// becomes word `11 - i`; words not reached stay zero.
pub fn bytes_to_u32_words_le_12(bytes: &[u8]) -> (r: [u32; 12])
    requires
        bytes@.len() % 4 == 0,
        bytes@.len() <= 48,
    ensures
        forall|j: int| 0 <= j < 12 ==> #[trigger] r[j] as nat == if j < 12 - bytes@.len() / 4 {
            0
        } else {
            be_word(bytes@, 11 - j)
        },
        bytes@.len() == 48 ==> r@ == words_of_be_bytes(bytes@),
{
    let mut words = [0u32; 12];
    let n = bytes.len() / 4;
    let mut i: usize = 0;
    while i < n
        invariant
            n == bytes@.len() / 4,
            bytes@.len() % 4 == 0,
            n <= 12,
            i <= n,
            forall|j: int| 0 <= j < 12 ==> #[trigger] words[j] as nat == if j < 12 - i {
                0
            } else {
                be_word(bytes@, 11 - j)
            },
        decreases n - i,
    {
        // Convert each big-endian chunk to a little-endian u32
        words[11 - i] = word_from_be_bytes(bytes[4 * i], bytes[4 * i + 1], bytes[4 * i + 2], bytes[4 * i + 3]);
        i += 1;
    }
    proof {
        if bytes@.len() == 48 {
            assert(words@ =~= words_of_be_bytes(bytes@));
        }
    }
    words
}


/// Byte `4i + k` of `be_bytes_of_words(w)` is byte `k` of word `n - 1 - i`.
pub proof fn lemma_be_bytes_of_words_index(w: Seq<u32>, i: int, k: int)
    requires
        0 <= i < w.len(),
        0 <= k < 4,
    ensures
        be_bytes_of_words(w).len() == 4 * w.len(),
        be_bytes_of_words(w)[4 * i + k] == word_be_bytes(w[w.len() - 1 - i])[k],
    decreases w.len(),
{
    lemma_be_bytes_of_words_len(w);
    let rest = w.drop_first();
    lemma_be_bytes_of_words_len(rest);
    if i < w.len() - 1 {
        lemma_be_bytes_of_words_index(rest, i, k);
    }
}

pub proof fn lemma_be_bytes_of_words_len(w: Seq<u32>)
    ensures
        be_bytes_of_words(w).len() == 4 * w.len(),
    decreases w.len(),
{
    if w.len() > 0 {
        lemma_be_bytes_of_words_len(w.drop_first());
    }
}

/// The four big-endian bytes of a word read back as the word.
pub proof fn lemma_word_be_bytes_roundtrip(w: u32)
    ensures
        be_word(word_be_bytes(w), 0) == w,
{
    let b = word_be_bytes(w);
    assert(w / 0x100_0000 < 0x100) by (bit_vector);
    assert((w / 0x100_0000) * 0x100_0000 + ((w / 0x1_0000) % 0x100) * 0x1_0000
        + ((w / 0x100) % 0x100) * 0x100 + w % 0x100 == w) by (bit_vector);
}

/// Four bytes read as a big-endian word and written back.
pub proof fn lemma_be_word_roundtrip(b0: u8, b1: u8, b2: u8, b3: u8)
    ensures
        ({
            let w = (b0 as nat * 0x100_0000 + b1 as nat * 0x1_0000 + b2 as nat * 0x100 + b3 as nat) as u32;
            word_be_bytes(w) == seq![b0, b1, b2, b3]
        }),
{
    let w = (b0 as nat * 0x100_0000 + b1 as nat * 0x1_0000 + b2 as nat * 0x100 + b3 as nat) as u32;
    assert(w == (b0 as u32) * 0x100_0000 + (b1 as u32) * 0x1_0000 + (b2 as u32) * 0x100 + (b3 as u32));
    assert(((b0 as u32) * 0x100_0000 + (b1 as u32) * 0x1_0000 + (b2 as u32) * 0x100 + (b3 as u32)) / 0x100_0000 == b0 as u32) by (bit_vector);
    assert((((b0 as u32) * 0x100_0000 + (b1 as u32) * 0x1_0000 + (b2 as u32) * 0x100 + (b3 as u32)) / 0x1_0000) % 0x100 == b1 as u32) by (bit_vector);
    assert((((b0 as u32) * 0x100_0000 + (b1 as u32) * 0x1_0000 + (b2 as u32) * 0x100 + (b3 as u32)) / 0x100) % 0x100 == b2 as u32) by (bit_vector);
    assert(((b0 as u32) * 0x100_0000 + (b1 as u32) * 0x1_0000 + (b2 as u32) * 0x100 + (b3 as u32)) % 0x100 == b3 as u32) by (bit_vector);
    assert(word_be_bytes(w) =~= seq![b0, b1, b2, b3]);
}

/// Writing words as big-endian bytes and reading them back gives the words.
pub proof fn lemma_words_bytes_roundtrip(w: Seq<u32>)
    ensures
        words_of_be_bytes(be_bytes_of_words(w)) == w,
{
    let b = be_bytes_of_words(w);
    lemma_be_bytes_of_words_len(w);
    let n = w.len();
    assert forall|j: int| 0 <= j < n implies #[trigger] words_of_be_bytes(b)[j] == w[j] by {
        let i = n - 1 - j;
        lemma_be_bytes_of_words_index(w, i, 0);
        lemma_be_bytes_of_words_index(w, i, 1);
        lemma_be_bytes_of_words_index(w, i, 2);
        lemma_be_bytes_of_words_index(w, i, 3);
        lemma_word_be_bytes_roundtrip(w[j]);
        assert(be_word(b, i) == be_word(word_be_bytes(w[j]), 0));
    }
    assert(words_of_be_bytes(b) =~= w);
}

/// Reading big-endian bytes as words and writing them back gives the bytes.
pub proof fn lemma_bytes_words_roundtrip(b: Seq<u8>)
    requires
        b.len() % 4 == 0,
    ensures
        be_bytes_of_words(words_of_be_bytes(b)) == b,
{
    let w = words_of_be_bytes(b);
    let n = w.len();
    lemma_be_bytes_of_words_len(w);
    assert forall|t: int| 0 <= t < b.len() implies #[trigger] be_bytes_of_words(w)[t] == b[t] by {
        let i = t / 4;
        let k = t % 4;
        assert(t == 4 * i + k);
        lemma_be_bytes_of_words_index(w, i, k);
        assert(w[n - 1 - i] as nat == be_word(b, i));
        lemma_be_word_roundtrip(b[4 * i], b[4 * i + 1], b[4 * i + 2], b[4 * i + 3]);
    }
    assert(be_bytes_of_words(w) =~= b);
}

/// Writes little-endian words as big-endian bytes.
pub fn words_to_be_bytes_12(words: &[u32; 12]) -> (r: [u8; 48])
    ensures
        r@ == be_bytes_of_words(words@),
{
    let mut bytes = [0u8; 48];
    let mut i: usize = 0;
    while i < 12
        invariant
            i <= 12,
            forall|t: int| 0 <= t < 4 * i ==> #[trigger] bytes[t] == word_be_bytes(words[11 - t / 4])[t % 4],
        decreases 12 - i,
    {
        let w = words[11 - i];
        bytes[4 * i] = (w / 0x100_0000) as u8;
        bytes[4 * i + 1] = ((w / 0x1_0000) % 0x100) as u8;
        bytes[4 * i + 2] = ((w / 0x100) % 0x100) as u8;
        bytes[4 * i + 3] = (w % 0x100) as u8;
        i += 1;
    }
    proof {
        lemma_be_bytes_of_words_len(words@);
        assert forall|t: int| 0 <= t < 48 implies #[trigger] be_bytes_of_words(words@)[t] == bytes[t] by {
            lemma_be_bytes_of_words_index(words@, t / 4, t % 4);
        }
        assert(bytes@ =~= be_bytes_of_words(words@));
    }
    bytes
}

} // verus!
