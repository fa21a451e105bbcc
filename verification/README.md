# primeorder

Word-level arithmetic for prime-order short Weierstrass curves on the RISC
Zero zkVM, verified with Verus. Modular multiplication, addition, subtraction
and inversion are delegated to the `risc0-bigint2` accelerator; everything
around those calls is proved against its contracts.

- `src/words.rs`: big integers as little-endian `u32` words, big-endian byte
  encodings, and the conversions between them (with their round-trip laws).
- `src/bigint.rs`: the calls into `risc0-bigint2`, each with the contract the
  accelerator documents (congruence modulo the modulus; below the modulus for
  the checked variants).
- `src/modular.rs`: congruence lemmas.
- `src/field.rs`: the curve parameter traits and `FieldElement256` /
  `FieldElement384` (multiplication, addition, squaring, repeated squaring,
  the P-256 square-root addition chain, constant-time selection, byte
  conversions).
- `src/projective.rs`: `Projective384` with the complete addition and
  doubling formulas for `a = -3` (Renes–Costello–Batina 2015) and conversion
  to affine coordinates.
- `src/points.rs`: curve points over a curve's own field elements and their
  conversions to and from the accelerator's word representations.
- `src/p384.rs`: the NIST P-384 constants and curve parameters.
- `src/laws.rs`: commutativity of addition, doubling as adding a point to
  itself, and the round trip through `Projective384`.
- `app/lib.rs`: the accelerator's elliptic-curve operations (whose curve is
  chosen by an impl of `risc0_bigint2::ec::Curve`) wired to the verified
  conversions, and conversions to `elliptic_curve`'s byte arrays.

Code that calls the accelerator only links inside the zkVM, which provides the
`sys_bigint2_*` entry points; the tests exercise the parts that do not.
