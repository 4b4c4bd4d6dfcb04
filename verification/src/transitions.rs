//! The three state transitions: create the mint, create a balance record,
//! and apply a private transfer.
//!
//! The caller (the hosting substrate) authenticates the signer, supplies
//! exclusive mutable handles to the records, and hands in the clock
//! readings; the transitions validate, mutate and report the event to
//! append. Every rejection is fail-closed and atomic: no record byte
//! changes and no event is produced.

use vstd::prelude::*;
use crate::crypto::{
    ct_add, ct_sub, ct_value, cspl_add, cspl_assert_ge, cspl_sub, zero_ciphertext, ErrorCode,
};
use crate::errors::VeilPayError;
use crate::events::{BalanceInitializedEvent, PrivateTransferEvent};
use crate::helpers::{bytes_eq, hash_owner, owner_commitment_spec, zero_digest};
use crate::keccak::keccak_of;
use crate::state::{same_balance, ConfidentialBalance, VeilPayMint};

verus! {

/// Map a failure of the ciphertext algebra to the transition taxonomy.
pub fn algebra_error(e: ErrorCode) -> (r: VeilPayError)
    ensures
        e == ErrorCode::InsufficientBalance ==> r == VeilPayError::InsufficientBalance,
        e == ErrorCode::InvalidEncryption ==> r == VeilPayError::InvalidEncryption,
{
    match e {
        ErrorCode::InsufficientBalance => VeilPayError::InsufficientBalance,
        ErrorCode::InvalidEncryption => VeilPayError::InvalidEncryption,
    }
}

/// The signer owns the sender record: its stored commitment is the digest
/// of the signer's identity.
pub open spec fn transfer_authorized(sender_balance: ConfidentialBalance, sender: Seq<u8>) -> bool {
    sender_balance.owner_commitment@ == owner_commitment_spec(sender)
}

/// Every precondition of a private transfer holds: authorization, the
/// replay guard, the range check, and the three integrity self-checks the
/// ciphertext algebra performs along the way.
pub open spec fn transfer_accepted(
    sender_balance: ConfidentialBalance,
    receiver_balance: ConfidentialBalance,
    sender: Seq<u8>,
    encrypted_amount: Seq<u8>,
    expected_nonce: u64,
) -> bool {
    &&& transfer_authorized(sender_balance, sender)
    &&& sender_balance.nonce == expected_nonce
    &&& ct_value(sender_balance.encrypted_balance@) >= ct_value(encrypted_amount)
    &&& keccak_of(sender_balance.encrypted_balance@) != zero_digest()
    &&& keccak_of(ct_sub(sender_balance.encrypted_balance@, encrypted_amount)) != zero_digest()
    &&& keccak_of(ct_add(receiver_balance.encrypted_balance@, encrypted_amount)) != zero_digest()
}

/// The event an accepted transfer reports carries exactly the audit
/// metadata: the caller-supplied commitment hash and tag, the clock
/// readings, the transfer kind, and the sender record's bump. No amount,
/// identity or balance byte has a way in.
pub open spec fn transfer_event_matches(
    e: PrivateTransferEvent,
    commitment_hash: Seq<u8>,
    encrypted_tag: Seq<u8>,
    slot: u64,
    timestamp: i64,
    sender_bump: u8,
) -> bool {
    &&& e.commitment_hash@ == commitment_hash
    &&& e.encrypted_tag@ == encrypted_tag
    &&& e.slot == slot
    &&& e.timestamp == timestamp
    &&& e.event_type == 0u8
    &&& e.sender_bump == sender_bump
}

/// Create the mint record. The substrate has authenticated the authority;
/// nothing is validated here and no event is produced.
pub fn initialize_mint(authority: Vec<u8>, cspl_config: Vec<u8>) -> (m: VeilPayMint)
    requires
        authority@.len() == 32,
        cspl_config@.len() == 64,
    ensures
        m.authority@ == authority@,
        m.cspl_config@ == cspl_config@,
        m.bump == 0u8,
        m.wf(),
{
    VeilPayMint { authority, cspl_config, bump: 0 }
}

/// Create a balance record for an owner: commitment set to the owner's
/// digest, balance set to the canonical zero ciphertext, nonce zero, and
/// the substrate-derived bump stored verbatim. Reports the creation event.
pub fn init_balance(owner: &Vec<u8>, bump: u8, slot: u64, timestamp: i64) -> (r: (
    ConfidentialBalance,
    BalanceInitializedEvent,
))
    requires
        owner@.len() == 32,
    ensures
        r.0.owner_commitment@ == owner_commitment_spec(owner@),
        r.0.encrypted_balance@ == zero_ciphertext(),
        r.0.nonce == 0u64,
        r.0.bump == bump,
        r.0.wf(),
        r.1.owner_commitment@ == owner_commitment_spec(owner@),
        r.1.slot == slot,
        r.1.timestamp == timestamp,
{
    let owner_commitment = hash_owner(owner);
    let event_commitment = hash_owner(owner);

    let mut encrypted_balance: Vec<u8> = Vec::new();
    let mut i: usize = 0;
    while i < 64
        invariant
            0 <= i <= 64,
            encrypted_balance@.len() == i,
            forall|j: int| 0 <= j < i ==> encrypted_balance@[j] == 0u8,
        decreases 64 - i,
    {
        encrypted_balance.push(0);
        i = i + 1;
    }
    proof {
        assert(encrypted_balance@ =~= zero_ciphertext());
    }

    let balance = ConfidentialBalance { owner_commitment, encrypted_balance, nonce: 0, bump };
    let event = BalanceInitializedEvent { owner_commitment: event_commitment, slot, timestamp };
    (balance, event)
}

/// Apply a private transfer between two distinct balance records.
///
/// The preconditions are checked in order — authorization, replay guard,
/// range check, integrity self-checks — and the first failure aborts with
/// its error, both records untouched. On acceptance the amount moves from
/// the sender's ciphertext to the receiver's, both nonces advance by
/// exactly 1, and the reported event carries only the audit metadata; the
/// commitment hash and tag are echoed unverified, for clients to check
/// against the derivations.
pub fn private_transfer(
    sender: &Vec<u8>,
    sender_balance: &mut ConfidentialBalance,
    receiver_balance: &mut ConfidentialBalance,
    encrypted_amount: &Vec<u8>,
    expected_nonce: u64,
    commitment_hash: Vec<u8>,
    encrypted_tag: Vec<u8>,
    slot: u64,
    timestamp: i64,
) -> (r: Result<PrivateTransferEvent, VeilPayError>)
    requires
        sender@.len() == 32,
        old(sender_balance).wf(),
        old(receiver_balance).wf(),
        encrypted_amount@.len() == 64,
        commitment_hash@.len() == 32,
        encrypted_tag@.len() == 32,
        old(sender_balance).nonce < u64::MAX,
        old(receiver_balance).nonce < u64::MAX,
    ensures
        r is Ok <==> transfer_accepted(
            *old(sender_balance),
            *old(receiver_balance),
            sender@,
            encrypted_amount@,
            expected_nonce,
        ),
        r is Err ==> same_balance(*final(sender_balance), *old(sender_balance)) && same_balance(
            *final(receiver_balance),
            *old(receiver_balance),
        ),
        r == Err::<PrivateTransferEvent, VeilPayError>(VeilPayError::UnauthorizedAccess)
            <==> !transfer_authorized(*old(sender_balance), sender@),
        r == Err::<PrivateTransferEvent, VeilPayError>(VeilPayError::InvalidNonce)
            <==> (transfer_authorized(*old(sender_balance), sender@) && old(
            sender_balance,
        ).nonce != expected_nonce),
        r == Err::<PrivateTransferEvent, VeilPayError>(VeilPayError::InsufficientBalance)
            <==> (transfer_authorized(*old(sender_balance), sender@) && old(
            sender_balance,
        ).nonce == expected_nonce && ct_value(old(sender_balance).encrypted_balance@) < ct_value(
            encrypted_amount@,
        )),
        r == Err::<PrivateTransferEvent, VeilPayError>(VeilPayError::InvalidEncryption)
            <==> (transfer_authorized(*old(sender_balance), sender@) && old(
            sender_balance,
        ).nonce == expected_nonce && ct_value(old(sender_balance).encrypted_balance@) >= ct_value(
            encrypted_amount@,
        ) && (keccak_of(old(sender_balance).encrypted_balance@) == zero_digest() || keccak_of(
            ct_sub(old(sender_balance).encrypted_balance@, encrypted_amount@),
        ) == zero_digest() || keccak_of(
            ct_add(old(receiver_balance).encrypted_balance@, encrypted_amount@),
        ) == zero_digest())),
        r matches Ok(e) ==> {
            &&& final(sender_balance).encrypted_balance@ == ct_sub(
                old(sender_balance).encrypted_balance@,
                encrypted_amount@,
            )
            &&& final(receiver_balance).encrypted_balance@ == ct_add(
                old(receiver_balance).encrypted_balance@,
                encrypted_amount@,
            )
            &&& final(sender_balance).nonce == old(sender_balance).nonce + 1
            &&& final(receiver_balance).nonce == old(receiver_balance).nonce + 1
            &&& final(sender_balance).owner_commitment@ == old(
                sender_balance,
            ).owner_commitment@
            &&& final(receiver_balance).owner_commitment@ == old(
                receiver_balance,
            ).owner_commitment@
            &&& final(sender_balance).bump == old(sender_balance).bump
            &&& final(receiver_balance).bump == old(receiver_balance).bump
            &&& final(sender_balance).wf()
            &&& final(receiver_balance).wf()
            &&& transfer_event_matches(
                e,
                commitment_hash@,
                encrypted_tag@,
                slot,
                timestamp,
                old(sender_balance).bump,
            )
        },
{
    let expected_commitment = hash_owner(sender);
    if !bytes_eq(&sender_balance.owner_commitment, &expected_commitment) {
        return Err(VeilPayError::UnauthorizedAccess);
    }

    if sender_balance.nonce != expected_nonce {
        return Err(VeilPayError::InvalidNonce);
    }

    match cspl_assert_ge(&sender_balance.encrypted_balance, encrypted_amount) {
        Ok(()) => (),
        Err(e) => {
            return Err(algebra_error(e));
        },
    }

    let new_sender_ciphertext = match cspl_sub(
        &sender_balance.encrypted_balance,
        encrypted_amount,
    ) {
        Ok(c) => c,
        Err(e) => {
            return Err(algebra_error(e));
        },
    };

    let new_receiver_ciphertext = match cspl_add(
        &receiver_balance.encrypted_balance,
        encrypted_amount,
    ) {
        Ok(c) => c,
        Err(e) => {
            return Err(algebra_error(e));
        },
    };

    sender_balance.encrypted_balance = new_sender_ciphertext;
    receiver_balance.encrypted_balance = new_receiver_ciphertext;
    sender_balance.nonce = sender_balance.nonce + 1;
    receiver_balance.nonce = receiver_balance.nonce + 1;

    Ok(
        PrivateTransferEvent {
            commitment_hash,
            encrypted_tag,
            slot,
            timestamp,
            event_type: 0,
            sender_bump: sender_balance.bump,
        },
    )
}

} // verus!
