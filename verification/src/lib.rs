//! Word-level field and curve arithmetic for prime-order short Weierstrass
//! curves on the RISC Zero zkVM, with the modular operations delegated to the
//! `risc0-bigint2` accelerator.
pub mod words;
pub mod bigint;
pub mod field;
pub mod modular;
pub mod projective;
pub mod laws;
pub mod points;
pub mod p384;
pub mod polynomial;
pub mod group_law;
pub mod cert_double;
pub mod cert_add0;
pub mod cert_add1;
pub mod cert_add2;
pub mod cert_add_curve;
