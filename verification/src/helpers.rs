//! Small byte-level helpers: the owner commitment and the comparisons the
//! other modules share.

use vstd::prelude::*;
use crate::keccak::{keccak_of, keccak256};

verus! {

/// What the owner commitment of an identity is: the digest of its bytes.
pub open spec fn owner_commitment_spec(owner: Seq<u8>) -> Seq<u8> {
    keccak_of(owner)
}

/// The all-zero 32-byte sequence: the sentinel digest value that the
/// ciphertext integrity checks reject.
pub open spec fn zero_digest() -> Seq<u8> {
    Seq::new(32, |i: int| 0u8)
}

/// Hash a 32-byte owner identity into its fixed 32-byte commitment.
pub fn hash_owner(owner: &Vec<u8>) -> (r: Vec<u8>)
    requires
        owner@.len() == 32,
    ensures
        r@ == owner_commitment_spec(owner@),
        r@.len() == 32,
{
    keccak256(owner)
}

/// Compare two byte strings without an early exit.
pub fn bytes_eq(a: &Vec<u8>, b: &Vec<u8>) -> (r: bool)
    ensures
        r == (a@ == b@),
{
    if a.len() != b.len() {
        return false;
    }
    let mut same = true;
    let mut i: usize = 0;
    while i < a.len()
        invariant
            0 <= i <= a@.len(),
            a@.len() == b@.len(),
            same == (forall|j: int| 0 <= j < i ==> a@[j] == b@[j]),
        decreases a@.len() - i,
    {
        same = same && a[i] == b[i];
        i = i + 1;
    }
    proof {
        if same {
            assert(a@ =~= b@);
        }
    }
    same
}

/// Is this the all-zero 32-byte digest?
pub fn is_zero_digest(d: &Vec<u8>) -> (r: bool)
    requires
        d@.len() == 32,
    ensures
        r == (d@ == zero_digest()),
{
    let mut all_zero = true;
    let mut i: usize = 0;
    while i < 32
        invariant
            0 <= i <= 32,
            d@.len() == 32,
            all_zero == (forall|j: int| 0 <= j < i ==> d@[j] == 0u8),
        decreases 32 - i,
    {
        all_zero = all_zero && d[i] == 0;
        i = i + 1;
    }
    proof {
        if all_zero {
            assert(d@ =~= zero_digest());
        } else {
            assert(d@ != zero_digest());
        }
    }
    all_zero
}

/// Append every byte of `src` to `dst`.
pub fn append_bytes(dst: &mut Vec<u8>, src: &Vec<u8>)
    ensures
        final(dst)@ == old(dst)@ + src@,
{
    let mut i: usize = 0;
    while i < src.len()
        invariant
            0 <= i <= src@.len(),
            dst@ == old(dst)@ + src@.subrange(0, i as int),
        decreases src@.len() - i,
    {
        let b = src[i];
        dst.push(b);
        proof {
            assert(old(dst)@ + src@.subrange(0, i as int) + seq![src@[i as int]]
                =~= old(dst)@ + src@.subrange(0, i + 1));
        }
        i = i + 1;
    }
    proof {
        assert(src@.subrange(0, src@.len() as int) =~= src@);
    }
}

} // verus!
