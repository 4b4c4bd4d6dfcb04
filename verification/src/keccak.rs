//! The 32-byte digest primitive that every derivation in this crate is
//! built from.
//!
//! The digest itself is computed by an outside crate; its value on given
//! bytes is not stated here, only named, so everything proved about the
//! ledger holds for any function in its place.

use vstd::prelude::*;

verus! {

/// The Keccak-256 digest of a byte sequence. The digest of given bytes is
/// a fixed 32-byte value, the same in every process and on every machine;
/// nothing else is assumed of it.
pub uninterp spec fn keccak_of(data: Seq<u8>) -> Seq<u8>;

/// Relies on solana_keccak_hasher::hashv: the Keccak-256 digest of the
/// concatenation of the given slices, 32 bytes, a function of those bytes
/// alone.
#[verifier::external_body]
pub(crate) fn keccak256(data: &Vec<u8>) -> (r: Vec<u8>)
    ensures
        r@ == keccak_of(data@),
        r@.len() == 32,
{
    solana_keccak_hasher::hashv(&[data.as_slice()]).to_bytes().to_vec()
}

} // verus!
