//! The content hash that names an attested message.

use vstd::prelude::*;

verus! {

/// The Keccak-256 digest of a byte sequence.
pub uninterp spec fn keccak256_of(data: Seq<u8>) -> Seq<u8>;

/// Relies on sha3::Keccak256 (through the Digest trait): the digest is a
/// function of the input bytes alone, and is always exactly 32 bytes long,
/// so it fills the returned array.
#[verifier::external_body]
pub(crate) fn keccak256(data: &[u8]) -> (r: [u8; 32])
    ensures
        r@ == keccak256_of(data@),
{
    let digest = <sha3::Keccak256 as sha3::Digest>::digest(data);
    let mut out = [0u8; 32];
    out.copy_from_slice(&digest);
    out
}

} // verus!
