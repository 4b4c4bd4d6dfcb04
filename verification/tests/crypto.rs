//! The ciphertext algebra and the derivations, checked on concrete values
//! against digests computed directly with the outside hasher.

use veilpay::crypto::{
    cspl_add, cspl_assert_ge, cspl_sub, derive_stealth_address, encrypt_amount,
    generate_commitment_hash, generate_encrypted_tag, verify_commitment_hash,
    verify_encrypted_tag, ErrorCode,
};
use veilpay::helpers::{bytes_eq, hash_owner, is_zero_digest};

fn keccak(parts: &[&[u8]]) -> Vec<u8> {
    solana_keccak_hasher::hashv(parts).to_bytes().to_vec()
}

/// The digest-derived pseudo-value the range check compares by.
fn pseudo_value(ct: &[u8]) -> u64 {
    let h = solana_keccak_hasher::hashv(&[ct]).to_bytes();
    let mut b = [0u8; 8];
    b.copy_from_slice(&h[0..8]);
    u64::from_le_bytes(b)
}

fn pattern(seed: u8) -> Vec<u8> {
    (0..64u32).map(|i| (i as u8).wrapping_mul(7).wrapping_add(seed)).collect()
}

#[test]
fn encrypt_amount_is_the_pair_of_domain_digests() {
    let e = encrypt_amount(5);
    assert_eq!(e.len(), 64);
    let mut m1 = 5u64.to_le_bytes().to_vec();
    m1.extend_from_slice(b"c1");
    let mut m2 = 5u64.to_le_bytes().to_vec();
    m2.extend_from_slice(b"c2");
    assert_eq!(&e[0..32], &keccak(&[&m1])[..]);
    assert_eq!(&e[32..64], &keccak(&[&m2])[..]);
}

#[test]
fn encrypt_amount_is_deterministic_and_injective_here() {
    assert_eq!(encrypt_amount(77), encrypt_amount(77));
    assert_ne!(encrypt_amount(77), encrypt_amount(78));
}

#[test]
fn cspl_add_is_commutative() {
    let a = pattern(3);
    let b = pattern(91);
    let ab = cspl_add(&a, &b).unwrap();
    let ba = cspl_add(&b, &a).unwrap();
    assert_eq!(ab, ba);
}

#[test]
fn cspl_add_is_associative() {
    let a = pattern(3);
    let b = pattern(91);
    let c = pattern(222);
    let ab = cspl_add(&a, &b).unwrap();
    let bc = cspl_add(&b, &c).unwrap();
    let ab_c = cspl_add(&ab, &c).unwrap();
    let a_bc = cspl_add(&a, &bc).unwrap();
    assert_eq!(ab_c, a_bc);
}

#[test]
fn cspl_sub_undoes_cspl_add() {
    let a = pattern(17);
    let b = pattern(140);
    let ab = cspl_add(&a, &b).unwrap();
    let back = cspl_sub(&ab, &b).unwrap();
    assert_eq!(back, a);
}

#[test]
fn cspl_add_zero_is_identity() {
    let a = pattern(29);
    let zero = vec![0u8; 64];
    assert_eq!(cspl_add(&a, &zero).unwrap(), a);
}

#[test]
fn cspl_add_wraps_each_byte() {
    let a = vec![200u8; 64];
    let b = vec![100u8; 64];
    assert_eq!(cspl_add(&a, &b).unwrap(), vec![44u8; 64]);
}

#[test]
fn cspl_sub_wraps_each_byte() {
    let a = vec![1u8; 64];
    let b = vec![2u8; 64];
    assert_eq!(cspl_sub(&a, &b).unwrap(), vec![255u8; 64]);
}

#[test]
fn cspl_assert_ge_compares_pseudo_values() {
    let zero = vec![0u8; 64];
    let v_zero = pseudo_value(&zero);

    // Some amount whose pseudo-value exceeds the zero ciphertext's.
    let mut richer: Option<Vec<u8>> = None;
    for u in 0..100_000u64 {
        let e = encrypt_amount(u);
        if pseudo_value(&e) > v_zero {
            richer = Some(e);
            break;
        }
    }
    let richer = richer.expect("an amount with a larger pseudo-value exists");
    assert_eq!(cspl_assert_ge(&zero, &richer), Err(ErrorCode::InsufficientBalance));

    // A balance covers itself, and covers anything of smaller pseudo-value.
    assert_eq!(cspl_assert_ge(&richer, &richer), Ok(()));
    assert_eq!(cspl_assert_ge(&richer, &zero), Ok(()));
}

#[test]
fn commitment_hash_round_trip_and_single_byte_flips() {
    let ct = encrypt_amount(100);
    let recipient = vec![0xBBu8; 32];
    let nonce = 42u64;
    let c = generate_commitment_hash(&ct, nonce, &recipient);
    assert_eq!(c.len(), 32);
    assert!(verify_commitment_hash(&c, &ct, nonce, &recipient));

    for i in 0..32 {
        let mut flipped = c.clone();
        flipped[i] ^= 1;
        assert!(!verify_commitment_hash(&flipped, &ct, nonce, &recipient));
    }
    for i in 0..64 {
        let mut ct2 = ct.clone();
        ct2[i] ^= 1;
        assert!(!verify_commitment_hash(&c, &ct2, nonce, &recipient));
    }
    for i in 0..32 {
        let mut r2 = recipient.clone();
        r2[i] ^= 1;
        assert!(!verify_commitment_hash(&c, &ct, nonce, &r2));
    }
    assert!(!verify_commitment_hash(&c, &ct, nonce + 1, &recipient));
}

#[test]
fn encrypted_tag_round_trip_and_single_byte_flips() {
    let recipient = vec![0xBBu8; 32];
    let secret = vec![0x5Au8; 32];
    let tag = generate_encrypted_tag(&recipient, &secret);
    assert_eq!(tag.len(), 32);
    assert!(verify_encrypted_tag(&tag, &recipient, &secret));

    for i in 0..32 {
        let mut flipped = tag.clone();
        flipped[i] ^= 1;
        assert!(!verify_encrypted_tag(&flipped, &recipient, &secret));
    }
    for i in 0..32 {
        let mut r2 = recipient.clone();
        r2[i] ^= 1;
        assert!(!verify_encrypted_tag(&tag, &r2, &secret));
    }
    for i in 0..32 {
        let mut s2 = secret.clone();
        s2[i] ^= 1;
        assert!(!verify_encrypted_tag(&tag, &recipient, &s2));
    }
}

#[test]
fn tag_matches_direct_digest() {
    let recipient = vec![0xBBu8; 32];
    let secret = vec![0x5Au8; 32];
    let tag = generate_encrypted_tag(&recipient, &secret);
    let mut seed = recipient.clone();
    seed.extend_from_slice(&secret);
    assert_eq!(tag, keccak(&[&seed]));
}

#[test]
fn stealth_address_is_digest_of_recipient_and_tag() {
    let recipient = vec![0xBBu8; 32];
    let secret = vec![0x5Au8; 32];
    let tag = generate_encrypted_tag(&recipient, &secret);
    let stealth = derive_stealth_address(&recipient, &secret);
    assert_eq!(stealth, keccak(&[&recipient, &tag]));
}

#[test]
fn hash_owner_is_the_keccak_digest_and_deterministic() {
    let a = vec![0xAAu8; 32];
    let h1 = hash_owner(&a);
    let h2 = hash_owner(&a);
    assert_eq!(h1, h2);
    assert_eq!(h1, keccak(&[&a]));
    assert_ne!(h1, a);
}

#[test]
fn byte_comparisons() {
    let a = vec![1u8, 2, 3];
    let b = vec![1u8, 2, 3];
    let c = vec![1u8, 2, 4];
    assert!(bytes_eq(&a, &b));
    assert!(!bytes_eq(&a, &c));
    assert!(!bytes_eq(&a, &vec![1u8, 2]));
    assert!(is_zero_digest(&vec![0u8; 32]));
    let mut nz = vec![0u8; 32];
    nz[31] = 1;
    assert!(!is_zero_digest(&nz));
}
