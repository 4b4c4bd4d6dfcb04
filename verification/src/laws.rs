//! The laws the ledger promises, each stated over the spec functions that
//! the executable contracts use.
//!
//! Atomicity of rejection and the zero-digest sentinel are stated directly
//! in the `ensures` of `private_transfer` and of the ciphertext operations;
//! what relates several functions, or a whole history, stands here.

use vstd::prelude::*;
use crate::crypto::{
    byte_add, byte_sub, commitment_matches, commitment_spec, ct_add, ct_sub, tag_matches,
    tag_spec, zero_ciphertext,
};
use crate::events::PrivateTransferEvent;
use crate::helpers::owner_commitment_spec;
use crate::transitions::transfer_event_matches;

verus! {

/// The ciphertext sum does not depend on the order of its operands.
pub proof fn lemma_ct_add_commutative(a: Seq<u8>, b: Seq<u8>)
    requires
        a.len() == b.len(),
    ensures
        ct_add(a, b) == ct_add(b, a),
{
    assert(ct_add(a, b) =~= ct_add(b, a));
}

/// The ciphertext sum does not depend on the grouping of its operands.
pub proof fn lemma_ct_add_associative(a: Seq<u8>, b: Seq<u8>, c: Seq<u8>)
    requires
        a.len() == b.len(),
        b.len() == c.len(),
    ensures
        ct_add(ct_add(a, b), c) == ct_add(a, ct_add(b, c)),
{
    assert forall|i: int| 0 <= i < a.len() implies ct_add(ct_add(a, b), c)[i] == ct_add(
        a,
        ct_add(b, c),
    )[i] by {
        assert(byte_add(byte_add(a[i], b[i]), c[i]) == byte_add(a[i], byte_add(b[i], c[i])));
    }
    assert(ct_add(ct_add(a, b), c) =~= ct_add(a, ct_add(b, c)));
}

/// Subtracting an operand undoes adding it, byte for byte.
pub proof fn lemma_ct_sub_of_add(a: Seq<u8>, b: Seq<u8>)
    requires
        a.len() == b.len(),
    ensures
        ct_sub(ct_add(a, b), b) == a,
{
    assert forall|i: int| 0 <= i < a.len() implies ct_sub(ct_add(a, b), b)[i] == a[i] by {
        assert(byte_sub(byte_add(a[i], b[i]), b[i]) == a[i]);
    }
    assert(ct_sub(ct_add(a, b), b) =~= a);
}

/// The canonical zero ciphertext is the neutral element of the sum.
pub proof fn lemma_ct_add_zero(a: Seq<u8>)
    requires
        a.len() == 64,
    ensures
        ct_add(a, zero_ciphertext()) == a,
{
    assert(ct_add(a, zero_ciphertext()) =~= a);
}

/// Round trip of the per-transfer commitment: the hash generated from a
/// ciphertext, a nonce and a recipient verifies against those same inputs,
/// and no other claimed value does.
pub proof fn lemma_commitment_round_trip(
    claim: Seq<u8>,
    encrypted_amount: Seq<u8>,
    sender_nonce: u64,
    recipient: Seq<u8>,
)
    ensures
        commitment_matches(
            commitment_spec(encrypted_amount, sender_nonce, recipient),
            encrypted_amount,
            sender_nonce,
            recipient,
        ),
        claim != commitment_spec(encrypted_amount, sender_nonce, recipient)
            ==> !commitment_matches(claim, encrypted_amount, sender_nonce, recipient),
{
}

/// Round trip of the recipient-detection tag: the tag generated from a
/// recipient and a shared secret verifies against those same inputs, and
/// no other claimed value does.
pub proof fn lemma_tag_round_trip(claim: Seq<u8>, recipient: Seq<u8>, sender_secret: Seq<u8>)
    ensures
        tag_matches(tag_spec(recipient, sender_secret), recipient, sender_secret),
        claim != tag_spec(recipient, sender_secret) ==> !tag_matches(
            claim,
            recipient,
            sender_secret,
        ),
{
}

/// The owner commitment is a function of the identity bytes alone: equal
/// identities give the same 32 bytes, in every invocation.
pub proof fn lemma_owner_commitment_deterministic(a: Seq<u8>, b: Seq<u8>)
    requires
        a == b,
    ensures
        owner_commitment_spec(a) == owner_commitment_spec(b),
{
}

/// Nonce monotonicity over a record's whole history. `init_balance`
/// creates the record with nonce 0, and each accepted transfer that
/// touches it advances the nonce by exactly 1 (the `ensures` of
/// `private_transfer`, for the sender and the receiver side alike); so the
/// observed values are 0, 1, 2, ... — no gaps, no repeats, strictly
/// increasing.
pub proof fn lemma_nonce_monotonic(trace: Seq<u64>)
    requires
        trace.len() > 0,
        trace[0] == 0,
        forall|i: int| 0 <= i < trace.len() - 1 ==> #[trigger] trace[i + 1] == trace[i] + 1,
    ensures
        forall|i: int| 0 <= i < trace.len() ==> trace[i] == i,
        forall|i: int, j: int| 0 <= i < j < trace.len() ==> trace[i] < trace[j],
    decreases trace.len(),
{
    if trace.len() > 1 {
        let prefix = trace.subrange(0, trace.len() - 1);
        lemma_nonce_monotonic(prefix);
        assert forall|i: int| 0 <= i < trace.len() implies trace[i] == i by {
            if i < trace.len() - 1 {
                assert(prefix[i] == i);
            } else {
                assert(prefix[i - 1] == i - 1);
                assert(trace[(i - 1) + 1] == trace[i - 1] + 1);
            }
        }
    }
}

/// Privacy of the audit surface: two accepted transfers that share the
/// audit metadata report identical events, whatever their amounts,
/// identities and balances were — the event depends on nothing else.
pub proof fn lemma_event_privacy(
    e1: PrivateTransferEvent,
    e2: PrivateTransferEvent,
    commitment_hash: Seq<u8>,
    encrypted_tag: Seq<u8>,
    slot: u64,
    timestamp: i64,
    sender_bump: u8,
)
    requires
        transfer_event_matches(e1, commitment_hash, encrypted_tag, slot, timestamp, sender_bump),
        transfer_event_matches(e2, commitment_hash, encrypted_tag, slot, timestamp, sender_bump),
    ensures
        e1.commitment_hash@ == e2.commitment_hash@,
        e1.encrypted_tag@ == e2.encrypted_tag@,
        e1.slot == e2.slot,
        e1.timestamp == e2.timestamp,
        e1.event_type == e2.event_type,
        e1.sender_bump == e2.sender_bump,
{
}

} // verus!
