//! Raw-word field elements (standard form, not Montgomery form) whose
//! arithmetic is delegated to the accelerator, and the curve parameter traits
//! they are generic over.
use vstd::prelude::*;
use vstd::endian::{endianness, Endian};
use vstd::arithmetic::power::{pow, lemma_pow_adds, lemma_pow_multiplies, lemma_pow_mod_noop, lemma_pow1};
use vstd::arithmetic::power2::{pow2, lemma_pow2_unfold, lemma2_to64};
use vstd::arithmetic::div_mod::{lemma_mul_mod_noop, lemma_mod_twice};
use core::marker::PhantomData;
use crate::words::{words_value, be_bytes_value, words_of_be_bytes, be_bytes_of_words,
    words_memory_bytes, bytes_to_u32_words_le_8, bytes_to_u32_words_le_12,
    lemma_words_of_be_bytes_value, lemma_reversed_memory_bytes, reversed_memory_bytes};
use elliptic_curve::subtle::{Choice, ConditionallySelectable};
use crate::modular::{congruent, lemma_congruent_mul};
use crate::bigint::{modmul_256_unchecked, modmul_256_checked, modadd_256_unchecked,
    modmul_384_unchecked, modmul_384_checked, modadd_384_unchecked};

verus! {

/// Calls `bytemuck::cast_slice::<u32, u8>`: the words' bytes in memory order,
/// four per word, each word laid out in the machine's byte order (vstd's
/// `endianness()`).
#[verifier::external_body]
fn cast_words_to_bytes(words: &[u32]) -> (r: Vec<u8>)
    ensures
        r@ == words_memory_bytes(words@, endianness() == Endian::Little),
{
    bytemuck::cast_slice::<u32, u8>(words).to_vec()
}

/// Calls `subtle::ConditionallySelectable::conditional_assign` for `u32` with
/// `Choice::from(choice)`: `a` becomes `b` when `choice` is 1 and stays as it
/// is when `choice` is 0. `Choice::from` asserts that `choice` is 0 or 1.
#[verifier::external_body]
fn ct_assign_u32(a: &mut u32, b: &u32, choice: u8)
    requires
        choice <= 1,
    ensures
        *final(a) == if choice == 1 { *b } else { *old(a) },
{
    a.conditional_assign(b, Choice::from(choice))
}

/// Parameters for elliptic curves of prime order which can be described by
/// the short Weierstrass equation `y^2 = x^3 + a x + b`.
pub trait PrimeCurveParams: Sized {
    /// Base field element type.
    type FieldElement: Copy;

    /// Width of a field element in 32-bit words (8 for 256-bit, 12 for
    /// 384-bit fields).
    const WIDTH_WORDS: usize;

    /// The integer a field element stands for.
    spec fn field_value(fe: Self::FieldElement) -> nat;

    /// The field element zero.
    fn field_zero() -> (r: Self::FieldElement)
        ensures
            Self::field_value(r) == 0;

    /// The field element one.
    fn field_one() -> (r: Self::FieldElement)
        ensures
            Self::field_value(r) == 1;

    /// Coefficient `a` in the curve equation.
    fn equation_a() -> Self::FieldElement;

    /// Coefficient `b` in the curve equation.
    fn equation_b() -> Self::FieldElement;

    /// Generator point's affine coordinates: (x, y).
    fn generator() -> (Self::FieldElement, Self::FieldElement);
}

/// Alias trait for 256-bit `PrimeCurveParams`: the field prime and group
/// order as little-endian words, and the conversions between field elements
/// and words.
pub trait PrimeCurveParams256: PrimeCurveParams {
    /// The field prime, least significant word first.
    const PRIME_LE_WORDS: [u32; 8];
    /// The group order, least significant word first.
    const ORDER_LE_WORDS: [u32; 8];

    /// The field prime is positive.
    proof fn lemma_prime_positive()
        ensures
            words_value(Self::PRIME_LE_WORDS@) > 0;

    /// Coefficient `a` of the curve equation as words.
    fn equation_a_le() -> FieldElement256<Self>;

    /// Coefficient `b` of the curve equation as words.
    fn equation_b_le() -> FieldElement256<Self>;

    /// Every field element stands for a value below the prime.
    proof fn lemma_field_value_canonical(fe: Self::FieldElement)
        ensures
            Self::field_value(fe) < words_value(Self::PRIME_LE_WORDS@);

    /// The field element that little-endian words stand for; the words must
    /// encode a value below the prime.
    fn from_u32_words_le(words: [u32; 8]) -> (r: Self::FieldElement)
        requires
            words_value(words@) < words_value(Self::PRIME_LE_WORDS@),
        ensures
            Self::field_value(r) == words_value(words@);

    /// The big-endian byte encoding of a field element.
    fn to_repr(fe: &Self::FieldElement) -> (r: [u8; 32])
        ensures
            be_bytes_value(r@) == Self::field_value(*fe);
}

/// Alias trait for 384-bit `PrimeCurveParams`: the field prime and group
/// order as little-endian words, and the conversions between field elements
/// and words.
pub trait PrimeCurveParams384: PrimeCurveParams {
    /// The field prime, least significant word first.
    const PRIME_LE_WORDS: [u32; 12];
    /// The group order, least significant word first.
    const ORDER_LE_WORDS: [u32; 12];

    /// The field prime is positive.
    proof fn lemma_prime_positive()
        ensures
            words_value(Self::PRIME_LE_WORDS@) > 0;

    /// Coefficient `a` of the curve equation as words.
    fn equation_a_le() -> FieldElement384<Self>;

    /// Coefficient `b` of the curve equation as words.
    fn equation_b_le() -> FieldElement384<Self>;

    /// Every field element stands for a value below the prime.
    proof fn lemma_field_value_canonical(fe: Self::FieldElement)
        ensures
            Self::field_value(fe) < words_value(Self::PRIME_LE_WORDS@);

    /// The field element that little-endian words stand for; the words must
    /// encode a value below the prime.
    fn from_u32_words_le(words: [u32; 12]) -> (r: Self::FieldElement)
        requires
            words_value(words@) < words_value(Self::PRIME_LE_WORDS@),
        ensures
            Self::field_value(r) == words_value(words@);

    /// The big-endian byte encoding of a field element.
    fn to_repr(fe: &Self::FieldElement) -> (r: [u8; 48])
        ensures
            be_bytes_value(r@) == Self::field_value(*fe);
}

/// Representation of a 256-bit field element in raw words form. This is not
/// in Montgomery form.
#[derive(Debug)]
pub struct FieldElement256<C> {
    pub data: [u32; 8],
    pub _phantom: PhantomData<C>,
}

/// Representation of a 384-bit field element in raw words form. This is not
/// in Montgomery form.
#[derive(Debug)]
pub struct FieldElement384<C> {
    pub data: [u32; 12],
    pub _phantom: PhantomData<C>,
}

impl<C> View for FieldElement256<C> {
    type V = Seq<u32>;

    open spec fn view(&self) -> Seq<u32> {
        self.data@
    }
}

impl<C> View for FieldElement384<C> {
    type V = Seq<u32>;

    open spec fn view(&self) -> Seq<u32> {
        self.data@
    }
}

impl<C> Clone for FieldElement256<C> {
    fn clone(&self) -> (r: Self)
        ensures
            r@ == self@,
    {
        FieldElement256 { data: self.data, _phantom: PhantomData }
    }
}

impl<C> Copy for FieldElement256<C> {}

impl<C> Clone for FieldElement384<C> {
    fn clone(&self) -> (r: Self)
        ensures
            r@ == self@,
    {
        FieldElement384 { data: self.data, _phantom: PhantomData }
    }
}

impl<C> Copy for FieldElement384<C> {}

impl<C> PartialEq for FieldElement256<C> {
    fn eq(&self, other: &Self) -> (r: bool) {
        let mut i: usize = 0;
        while i < 8
            invariant
                i <= 8,
                forall|j: int| 0 <= j < i ==> self.data[j] == other.data[j],
            decreases 8 - i,
        {
            if self.data[i] != other.data[i] {
                return false;
            }
            i += 1;
        }
        proof {
            assert(self.data@ =~= other.data@);
        }
        true
    }
}

impl<C> vstd::std_specs::cmp::PartialEqSpecImpl for FieldElement256<C> {
    open spec fn obeys_eq_spec() -> bool {
        true
    }

    open spec fn eq_spec(&self, other: &Self) -> bool {
        self@ == other@
    }
}

impl<C> Eq for FieldElement256<C> {}

impl<C> PartialEq for FieldElement384<C> {
    fn eq(&self, other: &Self) -> (r: bool) {
        let mut i: usize = 0;
        while i < 12
            invariant
                i <= 12,
                forall|j: int| 0 <= j < i ==> self.data[j] == other.data[j],
            decreases 12 - i,
        {
            if self.data[i] != other.data[i] {
                return false;
            }
            i += 1;
        }
        proof {
            assert(self.data@ =~= other.data@);
        }
        true
    }
}

impl<C> vstd::std_specs::cmp::PartialEqSpecImpl for FieldElement384<C> {
    open spec fn obeys_eq_spec() -> bool {
        true
    }

    open spec fn eq_spec(&self, other: &Self) -> bool {
        self@ == other@
    }
}

impl<C> Eq for FieldElement384<C> {}



impl<C> core::ops::Deref for FieldElement256<C> {
    type Target = [u32; 8];

    fn deref(&self) -> (r: &[u32; 8])
        ensures
            r@ == self@,
    {
        &self.data
    }
}

impl<C> core::ops::Deref for FieldElement384<C> {
    type Target = [u32; 12];

    fn deref(&self) -> (r: &[u32; 12])
        ensures
            r@ == self@,
    {
        &self.data
    }
}

impl<C> Default for FieldElement256<C> {
    fn default() -> (r: Self)
        ensures
            r@ == seq![0u32, 0, 0, 0, 0, 0, 0, 0],
    {
        FieldElement256 { data: [0, 0, 0, 0, 0, 0, 0, 0], _phantom: PhantomData }
    }
}

impl<C> Default for FieldElement384<C> {
    fn default() -> (r: Self)
        ensures
            r@ == seq![0u32, 0, 0, 0, 0, 0, 0, 0, 0, 0, 0, 0],
    {
        FieldElement384 { data: [0, 0, 0, 0, 0, 0, 0, 0, 0, 0, 0, 0], _phantom: PhantomData }
    }
}

impl<C> FieldElement256<C> {
    /// The integer the words encode.
    pub open spec fn value(&self) -> int {
        words_value(self@) as int
    }

    /// Reads a field element from its big-endian byte encoding: each 4-byte
    /// chunk becomes a little-endian word.
    pub fn from_field_bytes(data: &[u8; 32]) -> (r: Self)
        ensures
            r@ == words_of_be_bytes(data@),
            words_value(r@) == be_bytes_value(data@),
    {
        let words = bytes_to_u32_words_le_8(data);
        proof {
            lemma_words_of_be_bytes_value(data@);
        }
        Self::new_unchecked(words)
    }

    /// The big-endian byte encoding: the words' memory bytes, reversed. On a
    /// little-endian machine this is the big-endian encoding of the value.
    pub fn to_field_bytes(&self) -> (r: [u8; 32])
        ensures
            r@ == reversed_memory_bytes(self@),
            endianness() == Endian::Little ==> r@ == be_bytes_of_words(self@),
    {
        let bytes = cast_words_to_bytes(&self.data);
        let mut out = [0u8; 32];
        let mut i: usize = 0;
        while i < 32
            invariant
                i <= 32,
                bytes@.len() == 32,
                forall|t: int| 0 <= t < i ==> #[trigger] out[t] == bytes@[32 - 1 - t],
            decreases 32 - i,
        {
            out[i] = bytes[32 - 1 - i];
            i += 1;
        }
        proof {
            assert(out@ =~= bytes@.reverse());
            lemma_reversed_memory_bytes(self@);
        }
        out
    }

    /// Selects `b` when `choice` is 1 and `a` when it is 0, word by word in
    /// constant time.
    pub fn conditional_select(a: &Self, b: &Self, choice: u8) -> (r: Self)
        requires
            choice <= 1,
        ensures
            r@ == if choice == 1 { b@ } else { a@ },
    {
        let mut output = *a;
        output.conditional_assign(b, choice);
        output
    }

    /// Becomes `other` when `choice` is 1 and stays as it is when it is 0,
    /// word by word in constant time.
    pub fn conditional_assign(&mut self, other: &Self, choice: u8)
        requires
            choice <= 1,
        ensures
            final(self)@ == if choice == 1 { other@ } else { old(self)@ },
    {
        let ghost orig = self.data;
        let mut i: usize = 0;
        while i < 8
            invariant
                i <= 8,
                choice <= 1,
                forall|j: int| 0 <= j < i ==> #[trigger] self.data[j] == if choice == 1 { other.data[j] } else { orig[j] },
                forall|j: int| i <= j < 8 ==> #[trigger] self.data[j] == orig[j],
            decreases 8 - i,
        {
            ct_assign_u32(&mut self.data[i], &other.data[i], choice);
            i += 1;
        }
        proof {
            assert(self.data@ =~= if choice == 1 { other.data@ } else { orig@ });
        }
    }

    pub fn new_unchecked(data: [u32; 8]) -> (r: Self)
        ensures
            r@ == data@,
    {
        FieldElement256 { data, _phantom: PhantomData }
    }
}

impl<C> FieldElement384<C> {
    /// The integer the words encode.
    pub open spec fn value(&self) -> int {
        words_value(self@) as int
    }

    /// Reads a field element from its big-endian byte encoding: each 4-byte
    /// chunk becomes a little-endian word.
    pub fn from_field_bytes(data: &[u8; 48]) -> (r: Self)
        ensures
            r@ == words_of_be_bytes(data@),
            words_value(r@) == be_bytes_value(data@),
    {
        let words = bytes_to_u32_words_le_12(data);
        proof {
            lemma_words_of_be_bytes_value(data@);
        }
        Self::new_unchecked(words)
    }

    /// The big-endian byte encoding: the words' memory bytes, reversed. On a
    /// little-endian machine this is the big-endian encoding of the value.
    pub fn to_field_bytes(&self) -> (r: [u8; 48])
        ensures
            r@ == reversed_memory_bytes(self@),
            endianness() == Endian::Little ==> r@ == be_bytes_of_words(self@),
    {
        let bytes = cast_words_to_bytes(&self.data);
        let mut out = [0u8; 48];
        let mut i: usize = 0;
        while i < 48
            invariant
                i <= 48,
                bytes@.len() == 48,
                forall|t: int| 0 <= t < i ==> #[trigger] out[t] == bytes@[48 - 1 - t],
            decreases 48 - i,
        {
            out[i] = bytes[48 - 1 - i];
            i += 1;
        }
        proof {
            assert(out@ =~= bytes@.reverse());
            lemma_reversed_memory_bytes(self@);
        }
        out
    }

    /// Selects `b` when `choice` is 1 and `a` when it is 0, word by word in
    /// constant time.
    pub fn conditional_select(a: &Self, b: &Self, choice: u8) -> (r: Self)
        requires
            choice <= 1,
        ensures
            r@ == if choice == 1 { b@ } else { a@ },
    {
        let mut output = *a;
        output.conditional_assign(b, choice);
        output
    }

    /// Becomes `other` when `choice` is 1 and stays as it is when it is 0,
    /// word by word in constant time.
    pub fn conditional_assign(&mut self, other: &Self, choice: u8)
        requires
            choice <= 1,
        ensures
            final(self)@ == if choice == 1 { other@ } else { old(self)@ },
    {
        let ghost orig = self.data;
        let mut i: usize = 0;
        while i < 12
            invariant
                i <= 12,
                choice <= 1,
                forall|j: int| 0 <= j < i ==> #[trigger] self.data[j] == if choice == 1 { other.data[j] } else { orig[j] },
                forall|j: int| i <= j < 12 ==> #[trigger] self.data[j] == orig[j],
            decreases 12 - i,
        {
            ct_assign_u32(&mut self.data[i], &other.data[i], choice);
            i += 1;
        }
        proof {
            assert(self.data@ =~= if choice == 1 { other.data@ } else { orig@ });
        }
    }

    pub fn new_unchecked(data: [u32; 12]) -> (r: Self)
        ensures
            r@ == data@,
    {
        FieldElement384 { data, _phantom: PhantomData }
    }
}


/// Squaring a value congruent to `v^(2^k)` gives one congruent to `v^(2^(k+1))`.
pub proof fn lemma_square_step(a: int, r: int, v: int, k: nat, m: int)
    requires
        m > 0,
        k == 0 ==> a == v,
        k > 0 ==> congruent(a, pow(v, pow2(k)), m),
        congruent(r, a * a, m),
    ensures
        congruent(r, pow(v, pow2(k + 1)), m),
{
    lemma2_to64();
    lemma_pow1(v);
    lemma_congruent_mul(a, pow(v, pow2(k)), a, pow(v, pow2(k)), m);
    lemma_pow_adds(v, pow2(k), pow2(k));
    lemma_pow2_unfold(k + 1);
}


/// The exponent `(p + 1) / 4` for the P-256 prime
/// `p = 2^256 - 2^224 + 2^192 + 2^96 - 1`, that is
/// `2^254 - 2^222 + 2^190 + 2^94`.
pub open spec fn sqrt_exponent() -> nat {
    0x3fffffffc0000000400000000000000000000000400000000000000000000000nat
}

/// The P-256 prime `2^256 - 2^224 + 2^192 + 2^96 - 1`.
pub open spec fn p256_prime() -> nat {
    0xffffffff00000001000000000000000000000000ffffffffffffffffffffffffnat
}

/// The square-root exponent is `(p + 1) / 4` for the P-256 prime, which is
/// `3` modulo `4`.
pub proof fn lemma_sqrt_exponent()
    ensures
        4 * sqrt_exponent() == p256_prime() + 1,
        p256_prime() % 4 == 3,
{
}

/// `x` passes Euler's criterion modulo `p`: it is zero modulo `p`, or its
/// `(p - 1) / 2`-th power is one modulo `p`. For a prime `p` these are
/// exactly the squares modulo `p`.
pub open spec fn euler_square(x: int, p: int) -> bool {
    x % p == 0 || pow(x, ((p - 1) / 2) as nat) % p == 1
}

/// Modulo the P-256 prime, a value congruent to `v^((p + 1) / 4)` squares to
/// `v` when `v` passes Euler's criterion.
pub proof fn lemma_sqrt_squares(r: int, v: int)
    requires
        congruent(r, pow(v, sqrt_exponent()), p256_prime() as int),
    ensures
        euler_square(v, p256_prime() as int) ==> congruent(r * r, v, p256_prime() as int),
{
    let m = p256_prime() as int;
    let e = sqrt_exponent();
    lemma_sqrt_exponent();
    lemma_mul_pows(r, r, r * r, v, e, e, m);
    let h: nat = ((m - 1) / 2) as nat;
    assert(e + e == 1 + h);
    lemma_pow_adds(v, 1, h);
    lemma_pow1(v);
    // v^(2e) = v * v^h
    lemma_mul_mod_noop(v, pow(v, h), m);
    if pow(v, h) % m == 1 {
        assert((v % m) * (pow(v, h) % m) == v % m);
        lemma_mod_twice(v, m);
    } else if v % m == 0 {
        assert((v % m) * (pow(v, h) % m) == 0);
    }
}

/// Multiplying values congruent to `v^e1` and `v^e2` gives one congruent to
/// `v^(e1 + e2)`.
pub proof fn lemma_mul_pows(a: int, b: int, r: int, v: int, e1: nat, e2: nat, m: int)
    requires
        m > 0,
        congruent(a, pow(v, e1), m),
        congruent(b, pow(v, e2), m),
        congruent(r, a * b, m),
    ensures
        congruent(r, pow(v, e1 + e2), m),
{
    lemma_congruent_mul(a, pow(v, e1), b, pow(v, e2), m);
    lemma_pow_adds(v, e1, e2);
}

/// Raising a value congruent to `v^e` to the power `2^k` gives one congruent
/// to `v^(e * 2^k)`.
pub proof fn lemma_sqn_pows(a: int, r: int, v: int, e: nat, k: nat, m: int)
    requires
        m > 0,
        congruent(a, pow(v, e), m),
        congruent(r, pow(a, pow2(k)), m),
    ensures
        congruent(r, pow(v, e * pow2(k)), m),
{
    lemma_pow_mod_noop(a, pow2(k), m);
    lemma_pow_mod_noop(pow(v, e), pow2(k), m);
    lemma_pow_multiplies(v, e, pow2(k));
}

impl<C: PrimeCurveParams256> FieldElement256<C> {
    /// The field prime of `C` as an integer.
    pub open spec fn modulus() -> int {
        words_value(C::PRIME_LE_WORDS@) as int
    }

    /// `result` becomes congruent to `self * rhs` modulo the prime, not
    /// necessarily below it.
    #[inline]
    pub fn mul_unchecked(&self, rhs: &Self, result: &mut Self)
        ensures
            congruent(final(result).value(), self.value() * rhs.value(), Self::modulus()),
    {
        proof {
            C::lemma_prime_positive();
        }
        let prime = C::PRIME_LE_WORDS;
        result.data = modmul_256_unchecked(&self.data, &rhs.data, &prime);
    }

    /// `result` becomes `self * rhs` reduced modulo the prime.
    #[inline]
    pub fn mul(&self, rhs: &Self, result: &mut Self)
        ensures
            0 <= final(result).value() < Self::modulus(),
            congruent(final(result).value(), self.value() * rhs.value(), Self::modulus()),
    {
        proof {
            C::lemma_prime_positive();
        }
        let prime = C::PRIME_LE_WORDS;
        result.data = modmul_256_checked(&self.data, &rhs.data, &prime);
    }

    /// `result` becomes congruent to `self + rhs` modulo the prime, not
    /// necessarily below it.
    #[inline]
    pub fn add_unchecked(&self, rhs: &Self, result: &mut Self)
        ensures
            congruent(final(result).value(), self.value() + rhs.value(), Self::modulus()),
    {
        proof {
            C::lemma_prime_positive();
        }
        let prime = C::PRIME_LE_WORDS;
        result.data = modadd_256_unchecked(&self.data, &rhs.data, &prime);
    }

    /// Returns self^2 mod p
    pub fn square(&self, result: &mut Self)
        ensures
            congruent(final(result).value(), self.value() * self.value(), Self::modulus()),
    {
        self.mul_unchecked(self, result);
    }


    /// Calculate the square root of the field element, using the provided
    /// buffer as scratch, and writing the result to the `result` parameter.
    /// The addition chain raises to the power `(p + 1) / 4` of the P-256
    /// prime, so the method is for that prime: `result` becomes congruent to
    /// `self^((p + 1) / 4)`, and its square is congruent to `self` whenever
    /// `self` passes Euler's criterion (for a prime, exactly the squares).
    pub fn sqrt_unchecked(&self, scratch: &mut Self, result: &mut Self)
        requires
            Self::modulus() == p256_prime(),
        ensures
            congruent(final(result).value(), pow(self.value(), sqrt_exponent()), Self::modulus()),
            euler_square(self.value(), Self::modulus()) ==> congruent(
                final(result).value() * final(result).value(),
                self.value(),
                Self::modulus(),
            ),
    {
        proof {
            C::lemma_prime_positive();
            lemma2_to64();
            lemma_pow1(self.value());
        }
        let ghost v = self.value();
        let ghost m = Self::modulus();
        // New buffers to keep temporary values.
        let mut scratch_1 = Self::default();
        let mut scratch_2 = Self::default();

        // let t11 = self.mul(&self.square());
        self.square(scratch);
        proof { lemma_mul_pows(v, v, (*scratch).value(), v, 1, 1, m); }
        self.mul_unchecked(scratch, result);
        proof { lemma_mul_pows(v, (*scratch).value(), (*result).value(), v, 1, 2, m); }

        // result = t11
        // let t1111 = t11.mul(&t11.sqn(2));
        result.sqn(2, (&mut scratch_1, &mut scratch_2), scratch);
        proof { lemma_sqn_pows((*result).value(), (*scratch).value(), v, 3, 2, m); }
        result.mul_unchecked(scratch, &mut scratch_1);
        proof { lemma_mul_pows((*result).value(), (*scratch).value(), scratch_1.value(), v, 3, 12, m); }

        // scratch_1 = t1111
        // let t11111111 = t1111.mul(&t1111.sqn(4));
        scratch_1.sqn(4, (&mut scratch_2, result), scratch);
        proof { lemma_sqn_pows(scratch_1.value(), (*scratch).value(), v, 15, 4, m); }
        scratch_1.mul_unchecked(scratch, result);
        proof { lemma_mul_pows(scratch_1.value(), (*scratch).value(), (*result).value(), v, 15, 240, m); }

        // result = t11111111
        // let x16 = t11111111.sqn(8).mul(&t11111111);
        result.sqn(8, (&mut scratch_1, &mut scratch_2), scratch);
        proof { lemma_sqn_pows((*result).value(), (*scratch).value(), v, 255, 8, m); }
        result.mul_unchecked(scratch, &mut scratch_1);
        proof { lemma_mul_pows((*result).value(), (*scratch).value(), scratch_1.value(), v, 255, 65280, m); }

        // scratch_1 = x16
        // let sqrt = x16
        //     .sqn(16)
        scratch_1.sqn(16, (&mut scratch_2, result), scratch);
        proof { lemma_sqn_pows(scratch_1.value(), (*scratch).value(), v, 65535, 16, m); }
        //     .mul(&x16)
        scratch.mul_unchecked(&scratch_1, result);
        proof {
            lemma_mul_pows((*scratch).value(), scratch_1.value(), (*result).value(), v,
                65535 * 65536, 65535, m);
        }
        //     .sqn(32)
        result.sqn(32, (&mut scratch_1, &mut scratch_2), scratch);
        proof {
            lemma_sqn_pows((*result).value(), (*scratch).value(), v, 0xffff_ffff, 32, m);
        }
        //     .mul(self)
        scratch.mul_unchecked(self, &mut scratch_1);
        proof {
            lemma_mul_pows((*scratch).value(), v, scratch_1.value(), v,
                0xffff_ffff * 0x1_0000_0000, 1, m);
        }
        let ghost e1: nat = 0xffff_ffff * 0x1_0000_0000 + 1;
        //     .sqn(96)
        scratch_1.sqn(96, (&mut scratch_2, result), scratch);
        proof {
            vstd::arithmetic::power2::lemma_pow2_adds(64, 32);
            lemma_sqn_pows(scratch_1.value(), (*scratch).value(), v, e1, 96, m);
        }
        //     .mul(self)
        scratch.mul_unchecked(self, &mut scratch_2);
        proof {
            lemma_mul_pows((*scratch).value(), v, scratch_2.value(), v, e1 * pow2(96), 1, m);
        }
        //     .sqn(94);
        // Last result is written to the result buffer.
        scratch_2.sqn(94, (&mut scratch_1, scratch), result);
        proof {
            vstd::arithmetic::power2::lemma_pow2_adds(64, 30);
            lemma_sqn_pows(scratch_2.value(), final(result).value(), v, e1 * pow2(96) + 1, 94, m);
            assert((e1 * pow2(96) + 1) * pow2(94) == sqrt_exponent());
            lemma_sqrt_squares(final(result).value(), v);
        }
    }

    /// Returns self^(2^n) mod p.
    ///
    /// This implementation is designed to avoid any memcpy of the buffers for
    /// intermediate ops.
    fn sqn(&self, n: usize, scratch: (&mut Self, &mut Self), result: &mut Self)
        ensures
            n == 0 ==> final(result)@ == self@,
            congruent(final(result).value(), pow(self.value(), pow2(n as nat)), Self::modulus()),
    {
        let mut x = scratch.0;
        let mut buffer = scratch.1;
        if n == 1 {
            self.square(result);
            proof {
                C::lemma_prime_positive();
                lemma_square_step(self.value(), final(result).value(), self.value(), 0, Self::modulus());
            }
            return;
        } else if n == 0 {
            *result = *self;
            proof {
                assert(final(result)@ == self@);
                lemma2_to64();
                lemma_pow1(self.value());
            }
            return;
        }
        self.square(x);
        proof {
            C::lemma_prime_positive();
            lemma_square_step(self.value(), (*x).value(), self.value(), 0, Self::modulus());
        }
        let mut i: usize = 2;
        while i < n
            invariant
                2 <= i <= n,
                congruent((*x).value(), pow(self.value(), pow2((i - 1) as nat)), Self::modulus()),
            decreases n - i,
        {
            let ghost xv = (*x).value();
            x.square(buffer);
            proof {
                C::lemma_prime_positive();
                lemma_square_step(xv, (*buffer).value(), self.value(), (i - 1) as nat, Self::modulus());
            }
            i += 1;
            core::mem::swap(&mut x, &mut buffer);
        }
        let ghost xv = (*x).value();
        x.square(result);
        proof {
            C::lemma_prime_positive();
            lemma_square_step(xv, final(result).value(), self.value(), (n - 1) as nat, Self::modulus());
        }
    }
}

impl<C: PrimeCurveParams384> FieldElement384<C> {
    /// The field prime of `C` as an integer.
    pub open spec fn modulus() -> int {
        words_value(C::PRIME_LE_WORDS@) as int
    }

    /// `result` becomes congruent to `self * rhs` modulo the prime, not
    /// necessarily below it.
    #[inline]
    pub fn mul_unchecked(&self, rhs: &Self, result: &mut Self)
        ensures
            congruent(final(result).value(), self.value() * rhs.value(), Self::modulus()),
    {
        proof {
            C::lemma_prime_positive();
        }
        let prime = C::PRIME_LE_WORDS;
        result.data = modmul_384_unchecked(&self.data, &rhs.data, &prime);
    }

    /// `result` becomes `self * rhs` reduced modulo the prime.
    #[inline]
    pub fn mul(&self, rhs: &Self, result: &mut Self)
        ensures
            0 <= final(result).value() < Self::modulus(),
            congruent(final(result).value(), self.value() * rhs.value(), Self::modulus()),
    {
        proof {
            C::lemma_prime_positive();
        }
        let prime = C::PRIME_LE_WORDS;
        result.data = modmul_384_checked(&self.data, &rhs.data, &prime);
    }

    /// `result` becomes congruent to `self + rhs` modulo the prime, not
    /// necessarily below it.
    #[inline]
    pub fn add_unchecked(&self, rhs: &Self, result: &mut Self)
        ensures
            congruent(final(result).value(), self.value() + rhs.value(), Self::modulus()),
    {
        proof {
            C::lemma_prime_positive();
        }
        let prime = C::PRIME_LE_WORDS;
        result.data = modadd_384_unchecked(&self.data, &rhs.data, &prime);
    }

    /// Returns self^2 mod p
    pub fn square(&self, result: &mut Self)
        ensures
            congruent(final(result).value(), self.value() * self.value(), Self::modulus()),
    {
        self.mul_unchecked(self, result);
    }
}

} // verus!
