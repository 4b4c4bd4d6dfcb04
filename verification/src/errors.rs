//! The closed set of failure kinds that a state transition can report.

use vstd::prelude::*;

verus! {

/// Why a state transition was rejected. Every rejection leaves the records
/// it was handed untouched.
#[derive(Clone, Copy, PartialEq, Eq, Structural, Debug)]
pub enum VeilPayError {
    /// The caller is not the expected signer for this operation. Reserved
    /// for policy layers above the transitions; not raised here.
    UnauthorizedSender,
    /// The ciphertext range check failed: the balance does not cover the
    /// amount.
    InsufficientBalance,
    /// The sender's balance record does not belong to the signer: its
    /// owner commitment is not the digest of the signer's identity.
    UnauthorizedAccess,
    /// Reserved for policy layers above the transitions; not raised here.
    TransactionLimitExceeded,
    /// A record the transition needs is missing. Raised by the substrate,
    /// not by the transitions themselves.
    AccountNotFound,
    /// Reserved for future gating on the event type; not raised here.
    InvalidTransactionType,
    /// Replay detected: the nonce the caller supplied is not the nonce
    /// stored in the sender's balance record.
    InvalidNonce,
    /// A ciphertext integrity self-check failed: a digest came out as the
    /// all-zero 32 bytes.
    InvalidEncryption,
}

} // verus!
