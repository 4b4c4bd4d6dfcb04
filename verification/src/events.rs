//! The audit records that successful transitions append to the shared log.
//!
//! Their schemas are part of the external contract: an indexer consumes
//! them, and a recipient scans them for transfers addressed to it. No
//! amount, identity or balance byte appears in either record.

use vstd::prelude::*;

verus! {

/// Appended for each accepted private transfer.
///
/// Only non-sensitive metadata is included: the commitment hash lets a
/// party verify a transfer it already knows about, and the encrypted tag
/// lets the intended recipient (alone) recognise it. No amounts, sender or
/// receiver identities, and no balance bytes are exposed.
pub struct PrivateTransferEvent {
    /// Caller-supplied commitment hash, echoed for audit trails.
    pub commitment_hash: Vec<u8>,
    /// Caller-supplied recipient-detection tag, echoed for local scanning.
    pub encrypted_tag: Vec<u8>,
    /// Slot in which the transfer was processed, from the substrate clock.
    pub slot: u64,
    /// Unix timestamp of the transfer, from the substrate clock.
    pub timestamp: i64,
    /// Kind of the event: 0 = transfer, 1 = mint, 2 = burn, 3 = deposit.
    /// The transfer transition emits 0 only.
    pub event_type: u8,
    /// Address-derivation bump of the sender's balance record.
    pub sender_bump: u8,
}

/// Appended when a confidential balance record is created.
pub struct BalanceInitializedEvent {
    /// Digest of the owner's identity; the identity itself is not exposed.
    pub owner_commitment: Vec<u8>,
    /// Slot in which the record was created, from the substrate clock.
    pub slot: u64,
    /// Unix timestamp of the creation, from the substrate clock.
    pub timestamp: i64,
}

} // verus!
