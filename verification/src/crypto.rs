//! The ciphertext algebra and the commitment, tag and stealth-address
//! derivations.
//!
//! A ciphertext is exactly 64 bytes, a pair of 32-byte group elements
//! `(C1, C2)` at bytes `0..32` and `32..64`. Addition and subtraction act
//! component-wise, byte-wise, with wrapping 8-bit arithmetic, and are total
//! on 64-byte inputs; after either, an integrity self-check rejects a
//! result whose digest is the all-zero 32 bytes. The range check compares
//! digest-derived pseudo-values: it is a stand-in, not a decryption, and a
//! production scheme must replace it while keeping these contracts.

use vstd::prelude::*;
use vstd::bytes::{spec_u64_from_le_bytes, spec_u64_to_le_bytes, u64_from_le_bytes, u64_to_le_bytes};
use vstd::slice::slice_subrange;
use crate::keccak::{keccak_of, keccak256};
use crate::helpers::{zero_digest, bytes_eq, is_zero_digest, append_bytes};

verus! {

/// Failure kinds internal to the ciphertext algebra.
#[derive(Clone, Copy, PartialEq, Eq, Structural, Debug)]
pub enum ErrorCode {
    /// The range check failed: the balance does not cover the amount.
    InsufficientBalance,
    /// An integrity self-check failed: a digest came out all zero.
    InvalidEncryption,
}

/// One byte of the additive group: sum modulo 256.
pub open spec fn byte_add(a: u8, b: u8) -> u8 {
    if a + b > 255 {
        (a + b - 256) as u8
    } else {
        (a + b) as u8
    }
}

/// One byte of the additive group: difference modulo 256.
pub open spec fn byte_sub(a: u8, b: u8) -> u8 {
    if a - b < 0 {
        (a - b + 256) as u8
    } else {
        (a - b) as u8
    }
}

/// Byte-wise wrapping sum of two equal-length byte strings.
pub open spec fn ct_add(a: Seq<u8>, b: Seq<u8>) -> Seq<u8> {
    Seq::new(a.len(), |i: int| byte_add(a[i], b[i]))
}

/// Byte-wise wrapping difference of two equal-length byte strings.
pub open spec fn ct_sub(a: Seq<u8>, b: Seq<u8>) -> Seq<u8> {
    Seq::new(a.len(), |i: int| byte_sub(a[i], b[i]))
}

/// The canonical zero ciphertext: 64 zero bytes.
pub open spec fn zero_ciphertext() -> Seq<u8> {
    Seq::new(64, |i: int| 0u8)
}

/// The opaque value extractor the range check compares by: the first 8
/// bytes of the ciphertext's digest, read little-endian.
pub open spec fn ct_value(ct: Seq<u8>) -> u64 {
    spec_u64_from_le_bytes(keccak_of(ct).subrange(0, 8))
}

/// Domain separator appended to the amount bytes for the first component.
pub open spec fn c1_domain() -> Seq<u8> {
    seq![0x63u8, 0x31u8]
}

/// Domain separator appended to the amount bytes for the second component.
pub open spec fn c2_domain() -> Seq<u8> {
    seq![0x63u8, 0x32u8]
}

/// The test-harness encryption of an amount: each component is the digest
/// of the amount's little-endian bytes under its own domain separator.
pub open spec fn encrypt_spec(amount: u64) -> Seq<u8> {
    keccak_of(spec_u64_to_le_bytes(amount) + c1_domain())
        + keccak_of(spec_u64_to_le_bytes(amount) + c2_domain())
}

/// The recipient-detection tag: digest of the recipient identity followed
/// by the sender's shared secret.
pub open spec fn tag_spec(recipient: Seq<u8>, sender_secret: Seq<u8>) -> Seq<u8> {
    keccak_of(recipient + sender_secret)
}

/// The per-transfer commitment: digest of the ciphertext, the sender nonce
/// in little-endian, and the recipient identity.
pub open spec fn commitment_spec(
    encrypted_amount: Seq<u8>,
    sender_nonce: u64,
    recipient: Seq<u8>,
) -> Seq<u8> {
    keccak_of(encrypted_amount + spec_u64_to_le_bytes(sender_nonce) + recipient)
}

/// The stealth address: digest of the recipient identity followed by the
/// recipient-detection tag.
pub open spec fn stealth_spec(recipient: Seq<u8>, sender_secret: Seq<u8>) -> Seq<u8> {
    keccak_of(recipient + tag_spec(recipient, sender_secret))
}

/// Does a claimed commitment hash equal the recomputed one?
pub open spec fn commitment_matches(
    claim: Seq<u8>,
    encrypted_amount: Seq<u8>,
    sender_nonce: u64,
    recipient: Seq<u8>,
) -> bool {
    claim == commitment_spec(encrypted_amount, sender_nonce, recipient)
}

/// Does a claimed recipient-detection tag equal the recomputed one?
pub open spec fn tag_matches(claim: Seq<u8>, recipient: Seq<u8>, sender_secret: Seq<u8>) -> bool {
    claim == tag_spec(recipient, sender_secret)
}

/// The digest-derived pseudo-value of a ciphertext.
fn extract_encrypted_value(encrypted: &Vec<u8>) -> (v: u64)
    requires
        encrypted@.len() == 64,
    ensures
        v == ct_value(encrypted@),
{
    let hash = keccak256(encrypted);
    let first8 = slice_subrange(hash.as_slice(), 0, 8);
    u64_from_le_bytes(first8)
}

/// The ciphertext range check: accepts exactly when the balance's
/// pseudo-value covers the amount's and the balance's digest is not the
/// all-zero sentinel. Checked in that order, so a balance that fails both
/// reports the insufficient funds.
pub fn cspl_assert_ge(balance: &Vec<u8>, amount: &Vec<u8>) -> (r: Result<(), ErrorCode>)
    requires
        balance@.len() == 64,
        amount@.len() == 64,
    ensures
        r is Ok <==> (ct_value(balance@) >= ct_value(amount@) && keccak_of(balance@)
            != zero_digest()),
        r == Err::<(), ErrorCode>(ErrorCode::InsufficientBalance) <==> ct_value(balance@)
            < ct_value(amount@),
        r == Err::<(), ErrorCode>(ErrorCode::InvalidEncryption) <==> (ct_value(balance@)
            >= ct_value(amount@) && keccak_of(balance@) == zero_digest()),
{
    let balance_commitment = keccak256(balance);
    let balance_value = extract_encrypted_value(balance);
    let amount_value = extract_encrypted_value(amount);

    if balance_value < amount_value {
        return Err(ErrorCode::InsufficientBalance);
    }
    if is_zero_digest(&balance_commitment) {
        return Err(ErrorCode::InvalidEncryption);
    }
    Ok(())
}

/// Byte-wise wrapping difference of two 64-byte ciphertexts, rejected only
/// when the result's digest is the all-zero sentinel.
pub fn cspl_sub(balance: &Vec<u8>, amount: &Vec<u8>) -> (r: Result<Vec<u8>, ErrorCode>)
    requires
        balance@.len() == 64,
        amount@.len() == 64,
    ensures
        r matches Ok(c) ==> c@ == ct_sub(balance@, amount@),
        r is Err <==> keccak_of(ct_sub(balance@, amount@)) == zero_digest(),
        r is Err ==> r == Err::<Vec<u8>, ErrorCode>(ErrorCode::InvalidEncryption),
{
    let mut result: Vec<u8> = Vec::new();
    let mut i: usize = 0;
    while i < 64
        invariant
            balance@.len() == 64,
            amount@.len() == 64,
            0 <= i <= 64,
            result@.len() == i,
            forall|j: int| 0 <= j < i ==> result@[j] == byte_sub(balance@[j], amount@[j]),
        decreases 64 - i,
    {
        result.push(balance[i].wrapping_sub(amount[i]));
        i = i + 1;
    }
    proof {
        assert(result@ =~= ct_sub(balance@, amount@));
    }
    let result_commitment = keccak256(&result);
    if is_zero_digest(&result_commitment) {
        return Err(ErrorCode::InvalidEncryption);
    }
    Ok(result)
}

/// Byte-wise wrapping sum of two 64-byte ciphertexts, rejected only when
/// the result's digest is the all-zero sentinel.
pub fn cspl_add(balance: &Vec<u8>, amount: &Vec<u8>) -> (r: Result<Vec<u8>, ErrorCode>)
    requires
        balance@.len() == 64,
        amount@.len() == 64,
    ensures
        r matches Ok(c) ==> c@ == ct_add(balance@, amount@),
        r is Err <==> keccak_of(ct_add(balance@, amount@)) == zero_digest(),
        r is Err ==> r == Err::<Vec<u8>, ErrorCode>(ErrorCode::InvalidEncryption),
{
    let mut result: Vec<u8> = Vec::new();
    let mut i: usize = 0;
    while i < 64
        invariant
            balance@.len() == 64,
            amount@.len() == 64,
            0 <= i <= 64,
            result@.len() == i,
            forall|j: int| 0 <= j < i ==> result@[j] == byte_add(balance@[j], amount@[j]),
        decreases 64 - i,
    {
        result.push(balance[i].wrapping_add(amount[i]));
        i = i + 1;
    }
    proof {
        assert(result@ =~= ct_add(balance@, amount@));
    }
    let result_commitment = keccak256(&result);
    if is_zero_digest(&result_commitment) {
        return Err(ErrorCode::InvalidEncryption);
    }
    Ok(result)
}

/// Encrypt an amount for test harnesses and clients: 64 bytes whose
/// components are domain-separated digests of the amount.
pub fn encrypt_amount(amount: u64) -> (r: Vec<u8>)
    ensures
        r@ == encrypt_spec(amount),
        r@.len() == 64,
{
    let amount_bytes = u64_to_le_bytes(amount);

    let mut m1: Vec<u8> = Vec::new();
    append_bytes(&mut m1, &amount_bytes);
    m1.push(0x63);
    m1.push(0x31);
    proof {
        assert(m1@ =~= spec_u64_to_le_bytes(amount) + c1_domain());
    }
    let c1_seed = keccak256(&m1);

    let mut m2: Vec<u8> = Vec::new();
    append_bytes(&mut m2, &amount_bytes);
    m2.push(0x63);
    m2.push(0x32);
    proof {
        assert(m2@ =~= spec_u64_to_le_bytes(amount) + c2_domain());
    }
    let c2_seed = keccak256(&m2);

    let mut encrypted = c1_seed;
    append_bytes(&mut encrypted, &c2_seed);
    encrypted
}

/// Derive the recipient-detection tag from the recipient identity and the
/// sender's shared secret.
pub fn generate_encrypted_tag(recipient_pubkey: &Vec<u8>, sender_secret: &Vec<u8>) -> (r: Vec<u8>)
    requires
        recipient_pubkey@.len() == 32,
        sender_secret@.len() == 32,
    ensures
        r@ == tag_spec(recipient_pubkey@, sender_secret@),
        r@.len() == 32,
{
    let mut shared_seed: Vec<u8> = Vec::new();
    append_bytes(&mut shared_seed, recipient_pubkey);
    append_bytes(&mut shared_seed, sender_secret);
    keccak256(&shared_seed)
}

/// Derive the per-transfer commitment hash binding a ciphertext, a sender
/// nonce and a recipient identity.
pub fn generate_commitment_hash(
    encrypted_amount: &Vec<u8>,
    sender_nonce: u64,
    recipient_pubkey: &Vec<u8>,
) -> (r: Vec<u8>)
    requires
        encrypted_amount@.len() == 64,
        recipient_pubkey@.len() == 32,
    ensures
        r@ == commitment_spec(encrypted_amount@, sender_nonce, recipient_pubkey@),
        r@.len() == 32,
{
    let nonce_bytes = u64_to_le_bytes(sender_nonce);
    let mut combined: Vec<u8> = Vec::new();
    append_bytes(&mut combined, encrypted_amount);
    append_bytes(&mut combined, &nonce_bytes);
    append_bytes(&mut combined, recipient_pubkey);
    keccak256(&combined)
}

/// Recompute the commitment hash and compare it to the claimed one.
pub fn verify_commitment_hash(
    commitment_hash: &Vec<u8>,
    encrypted_amount: &Vec<u8>,
    sender_nonce: u64,
    recipient_pubkey: &Vec<u8>,
) -> (r: bool)
    requires
        encrypted_amount@.len() == 64,
        recipient_pubkey@.len() == 32,
    ensures
        r == commitment_matches(
            commitment_hash@,
            encrypted_amount@,
            sender_nonce,
            recipient_pubkey@,
        ),
{
    let expected = generate_commitment_hash(encrypted_amount, sender_nonce, recipient_pubkey);
    bytes_eq(commitment_hash, &expected)
}

/// Recompute the recipient-detection tag and compare it to the claimed
/// one.
pub fn verify_encrypted_tag(
    encrypted_tag: &Vec<u8>,
    recipient_pubkey: &Vec<u8>,
    sender_secret: &Vec<u8>,
) -> (r: bool)
    requires
        recipient_pubkey@.len() == 32,
        sender_secret@.len() == 32,
    ensures
        r == tag_matches(encrypted_tag@, recipient_pubkey@, sender_secret@),
{
    let expected_tag = generate_encrypted_tag(recipient_pubkey, sender_secret);
    bytes_eq(encrypted_tag, &expected_tag)
}

/// Derive the per-transfer stealth address from the recipient identity and
/// the sender's shared secret.
pub fn derive_stealth_address(recipient_pubkey: &Vec<u8>, sender_secret: &Vec<u8>) -> (r: Vec<u8>)
    requires
        recipient_pubkey@.len() == 32,
        sender_secret@.len() == 32,
    ensures
        r@ == stealth_spec(recipient_pubkey@, sender_secret@),
        r@.len() == 32,
{
    let tag = generate_encrypted_tag(recipient_pubkey, sender_secret);
    let mut combined: Vec<u8> = Vec::new();
    append_bytes(&mut combined, recipient_pubkey);
    append_bytes(&mut combined, &tag);
    keccak256(&combined)
}

} // verus!
