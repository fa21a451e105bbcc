//! The calls into the `risc0-bigint2` accelerator. Each item states only what
//! the accelerator documents: the result is congruent to the requested
//! operation modulo the modulus; the checked variants also promise that it is
//! below the modulus.
use vstd::prelude::*;
use crate::words::words_value;
use crate::modular::invertible_mod;

verus! {

/// Calls `risc0_bigint2::field::unchecked::modmul_384`: the result is
/// congruent to `lhs * rhs` modulo `modulus`; nothing bounds it by the modulus.
#[verifier::external_body]
pub(crate) fn modmul_384_unchecked(lhs: &[u32; 12], rhs: &[u32; 12], modulus: &[u32; 12]) -> (r: [u32; 12])
    requires
        words_value(modulus@) > 0,
    ensures
        words_value(r@) as int % words_value(modulus@) as int
            == (words_value(lhs@) * words_value(rhs@)) as int % words_value(modulus@) as int,
{
    let mut r = [0u32; 12];
    risc0_bigint2::field::unchecked::modmul_384(lhs, rhs, modulus, &mut r);
    r
}

/// Calls `risc0_bigint2::field::unchecked::modadd_384`: the result is
/// congruent to `lhs + rhs` modulo `modulus`; nothing bounds it by the modulus.
#[verifier::external_body]
pub(crate) fn modadd_384_unchecked(lhs: &[u32; 12], rhs: &[u32; 12], modulus: &[u32; 12]) -> (r: [u32; 12])
    requires
        words_value(modulus@) > 0,
    ensures
        words_value(r@) as int % words_value(modulus@) as int
            == (words_value(lhs@) + words_value(rhs@)) as int % words_value(modulus@) as int,
{
    let mut r = [0u32; 12];
    risc0_bigint2::field::unchecked::modadd_384(lhs, rhs, modulus, &mut r);
    r
}

/// Calls `risc0_bigint2::field::unchecked::modsub_384`: the result is
/// congruent to `lhs - rhs` modulo `modulus`; nothing bounds it by the modulus.
#[verifier::external_body]
pub(crate) fn modsub_384_unchecked(lhs: &[u32; 12], rhs: &[u32; 12], modulus: &[u32; 12]) -> (r: [u32; 12])
    requires
        words_value(modulus@) > 0,
    ensures
        words_value(r@) as int % words_value(modulus@) as int
            == (words_value(lhs@) as int - words_value(rhs@) as int) % words_value(modulus@) as int,
{
    let mut r = [0u32; 12];
    risc0_bigint2::field::unchecked::modsub_384(lhs, rhs, modulus, &mut r);
    r
}

/// Calls `risc0_bigint2::field::unchecked::modinv_384`: the product of the
/// input and the result is congruent to 1 modulo `modulus`. The accelerator
/// documents that no result exists (the executor panics) when the input has no
/// inverse, so such inputs are excluded.
#[verifier::external_body]
pub(crate) fn modinv_384_unchecked(inp: &[u32; 12], modulus: &[u32; 12]) -> (r: [u32; 12])
    requires
        words_value(modulus@) > 0,
        invertible_mod(words_value(inp@) as int, words_value(modulus@) as int),
    ensures
        (words_value(inp@) * words_value(r@)) as int % words_value(modulus@) as int
            == 1int % words_value(modulus@) as int,
{
    let mut r = [0u32; 12];
    risc0_bigint2::field::unchecked::modinv_384(inp, modulus, &mut r);
    r
}

/// Calls `risc0_bigint2::field::modmul_384`: the result is congruent to
/// `lhs * rhs` modulo `modulus` and, as the function checks, below the modulus.
#[verifier::external_body]
pub(crate) fn modmul_384_checked(lhs: &[u32; 12], rhs: &[u32; 12], modulus: &[u32; 12]) -> (r: [u32; 12])
    requires
        words_value(modulus@) > 0,
    ensures
        words_value(r@) < words_value(modulus@),
        words_value(r@) as int % words_value(modulus@) as int
            == (words_value(lhs@) * words_value(rhs@)) as int % words_value(modulus@) as int,
{
    let mut r = [0u32; 12];
    risc0_bigint2::field::modmul_384(lhs, rhs, modulus, &mut r);
    r
}

/// Calls `risc0_bigint2::field::unchecked::modmul_256`: the result is
/// congruent to `lhs * rhs` modulo `modulus`; nothing bounds it by the modulus.
#[verifier::external_body]
pub(crate) fn modmul_256_unchecked(lhs: &[u32; 8], rhs: &[u32; 8], modulus: &[u32; 8]) -> (r: [u32; 8])
    requires
        words_value(modulus@) > 0,
    ensures
        words_value(r@) as int % words_value(modulus@) as int
            == (words_value(lhs@) * words_value(rhs@)) as int % words_value(modulus@) as int,
{
    let mut r = [0u32; 8];
    risc0_bigint2::field::unchecked::modmul_256(lhs, rhs, modulus, &mut r);
    r
}

/// Calls `risc0_bigint2::field::modmul_256`: the result is congruent to
/// `lhs * rhs` modulo `modulus` and, as the function checks, below the modulus.
#[verifier::external_body]
pub(crate) fn modmul_256_checked(lhs: &[u32; 8], rhs: &[u32; 8], modulus: &[u32; 8]) -> (r: [u32; 8])
    requires
        words_value(modulus@) > 0,
    ensures
        words_value(r@) < words_value(modulus@),
        words_value(r@) as int % words_value(modulus@) as int
            == (words_value(lhs@) * words_value(rhs@)) as int % words_value(modulus@) as int,
{
    let mut r = [0u32; 8];
    risc0_bigint2::field::modmul_256(lhs, rhs, modulus, &mut r);
    r
}

/// Calls `risc0_bigint2::field::unchecked::modadd_256`: the result is
/// congruent to `lhs + rhs` modulo `modulus`; nothing bounds it by the modulus.
#[verifier::external_body]
pub(crate) fn modadd_256_unchecked(lhs: &[u32; 8], rhs: &[u32; 8], modulus: &[u32; 8]) -> (r: [u32; 8])
    requires
        words_value(modulus@) > 0,
    ensures
        words_value(r@) as int % words_value(modulus@) as int
            == (words_value(lhs@) + words_value(rhs@)) as int % words_value(modulus@) as int,
{
    let mut r = [0u32; 8];
    risc0_bigint2::field::unchecked::modadd_256(lhs, rhs, modulus, &mut r);
    r
}


/// Calls `risc0_bigint2::field::modinv_256`: the product of the input and the
/// result is congruent to 1 modulo `modulus`, and, as the function checks, the
/// result is below the modulus. The accelerator documents that no result
/// exists (the executor panics) when the input has no inverse, so such inputs
/// are excluded.
#[verifier::external_body]
pub(crate) fn modinv_256_checked(inp: &[u32; 8], modulus: &[u32; 8]) -> (r: [u32; 8])
    requires
        words_value(modulus@) > 0,
        invertible_mod(words_value(inp@) as int, words_value(modulus@) as int),
    ensures
        words_value(r@) < words_value(modulus@),
        (words_value(inp@) * words_value(r@)) as int % words_value(modulus@) as int
            == 1int % words_value(modulus@) as int,
{
    let mut r = [0u32; 8];
    risc0_bigint2::field::modinv_256(inp, modulus, &mut r);
    r
}

} // verus!
