//! The two record shapes the transitions read and mutate.

use vstd::prelude::*;

verus! {

/// Program-wide parameters, created once and never mutated afterward.
pub struct VeilPayMint {
    /// 32-byte identity of the privileged party that created the mint.
    pub authority: Vec<u8>,
    /// Opaque 64-byte configuration blob for the ciphertext scheme.
    pub cspl_config: Vec<u8>,
    /// Address-derivation bump carried for external compatibility.
    pub bump: u8,
}

impl VeilPayMint {
    /// Payload size in bytes: authority, configuration blob, bump.
    pub const LEN: usize = 32 + 64 + 1;

    /// The record's fields have their fixed widths.
    pub open spec fn wf(self) -> bool {
        &&& self.authority@.len() == 32
        &&& self.cspl_config@.len() == 64
    }
}

/// Per-owner state: who may spend it, what it holds, and how many
/// transfers have touched it.
pub struct ConfidentialBalance {
    /// Digest of the owner's identity; acts as the authorization
    /// predicate without storing the identity itself.
    pub owner_commitment: Vec<u8>,
    /// 64-byte ciphertext encoding the current balance.
    pub encrypted_balance: Vec<u8>,
    /// Monotonic counter: starts at 0 and advances by exactly 1 on each
    /// successful transfer that touches this record.
    pub nonce: u64,
    /// Address-derivation bump carried for external compatibility.
    pub bump: u8,
}

impl ConfidentialBalance {
    /// Payload size in bytes: commitment, ciphertext, nonce, bump.
    pub const LEN: usize = 32 + 64 + 8 + 1;

    /// The record's fields have their fixed widths.
    pub open spec fn wf(self) -> bool {
        &&& self.owner_commitment@.len() == 32
        &&& self.encrypted_balance@.len() == 64
    }
}

/// Field-for-field equality of two balance records: not a byte of either
/// differs. The rejection contracts state atomicity with it.
pub open spec fn same_balance(a: ConfidentialBalance, b: ConfidentialBalance) -> bool {
    &&& a.owner_commitment@ == b.owner_commitment@
    &&& a.encrypted_balance@ == b.encrypted_balance@
    &&& a.nonce == b.nonce
    &&& a.bump == b.bump
}

} // verus!
