//! A confidential balance ledger: a deterministic state machine that keeps
//! per-owner encrypted balances and applies value-preserving transfers
//! between them without revealing plaintext amounts to observers of the
//! shared log.
//!
//! The crate is organised leaves first: the Keccak digest primitive, the
//! 64-byte ciphertext algebra, the commitment and tag derivations, the two
//! account records, and the three state transitions that tie them together.

pub mod keccak;
pub mod errors;
pub mod events;
pub mod state;
pub mod helpers;
pub mod crypto;
pub mod transitions;
pub mod laws;
