//! The canonical serialization of an attested message and the deterministic
//! address that names its posted record.
//!
//! The core does not re-verify the bridge's signatures; it recomputes the
//! canonical byte serialization, hashes it, and requires the supplied
//! message account to sit at exactly the address the bridge would assign
//! to that hash.

use vstd::prelude::*;

use crate::bytes::{
    push_slice_range, push_u16_be, push_u32_be, push_u64_be, spec_u16_to_be_bytes,
    spec_u32_to_be_bytes, spec_u64_to_be_bytes,
};
use crate::derive::{derived_address_of, find_derived_address};
use crate::hash::{keccak256, keccak256_of};

verus! {

/// The seed prefix under which the external bridge posts attested messages:
/// the ASCII bytes of `PostedVAA`.
pub const POSTED_VAA_SEED: [u8; 9] = [80, 111, 115, 116, 101, 100, 86, 65, 65];

/// The fields of an attested message that enter its canonical
/// serialization, in serialization order.
#[derive(Clone, Debug, PartialEq, Eq)]
pub struct MessageRecord {
    pub vaa_time: u32,
    pub nonce: u32,
    pub emitter_chain: u16,
    pub emitter_address: [u8; 32],
    pub sequence: u64,
    pub consistency_level: u8,
    pub payload: Vec<u8>,
}

/// The canonical serialization: time, nonce, emitter chain and address,
/// sequence, consistency level, then the payload verbatim; every integer
/// big-endian.
pub open spec fn spec_serialize_vaa(vaa: MessageRecord) -> Seq<u8> {
    spec_u32_to_be_bytes(vaa.vaa_time) + spec_u32_to_be_bytes(vaa.nonce) + spec_u16_to_be_bytes(
        vaa.emitter_chain,
    ) + vaa.emitter_address@ + spec_u64_to_be_bytes(vaa.sequence) + seq![vaa.consistency_level]
        + vaa.payload@
}

/// Serializes the unique components of an attested message, the exact bytes
/// the bridge's guardians hash and sign.
pub fn serialize_vaa(vaa: &MessageRecord) -> (r: Vec<u8>)
    ensures
        r@ == spec_serialize_vaa(*vaa),
{
    let mut r: Vec<u8> = Vec::new();
    push_u32_be(&mut r, vaa.vaa_time);
    push_u32_be(&mut r, vaa.nonce);
    push_u16_be(&mut r, vaa.emitter_chain);
    push_slice_range(&mut r, vaa.emitter_address.as_slice(), 0, 32);
    push_u64_be(&mut r, vaa.sequence);
    r.push(vaa.consistency_level);
    let payload_len = vaa.payload.len();
    push_slice_range(&mut r, vaa.payload.as_slice(), 0, payload_len);
    proof {
        assert(vaa.emitter_address@.subrange(0, 32) =~= vaa.emitter_address@);
        assert(vaa.payload@.subrange(0, vaa.payload@.len() as int) =~= vaa.payload@);
        assert(r@ =~= spec_serialize_vaa(*vaa));
    }
    r
}

/// The deterministic address of the posted record of `vaa` under the
/// bridge's addressing scheme: derived from the seed prefix and the
/// Keccak-256 hash of the canonical serialization.
pub open spec fn spec_posted_vaa_address(vaa: MessageRecord, core_bridge: Seq<u8>) -> Option<
    ([u8; 32], u8),
> {
    derived_address_of(POSTED_VAA_SEED@, keccak256_of(spec_serialize_vaa(vaa)), core_bridge)
}

/// Computes the address the bridge would assign to the posted record of
/// `vaa`.
pub fn posted_vaa_address(vaa: &MessageRecord, core_bridge: &[u8; 32]) -> (r: Option<
    ([u8; 32], u8),
>)
    ensures
        r == spec_posted_vaa_address(*vaa, core_bridge@),
{
    let serialized = serialize_vaa(vaa);
    let digest = keccak256(serialized.as_slice());
    find_derived_address(POSTED_VAA_SEED.as_slice(), digest.as_slice(), core_bridge)
}

} // verus!
