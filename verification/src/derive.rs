//! Deterministic address derivation, the authorization primitive of the
//! relay: a party proves control of a cross-chain identity by presenting
//! the address derived from `(identity bytes, decimal chain-id bytes)`
//! under the deriving program.

use vstd::prelude::*;

use crate::decimal::{spec_decimal, u64_to_decimal};

verus! {

/// The derived address and bump seed for two seed slices under a program
/// identity, or `None` when no viable derivation exists.
pub uninterp spec fn derived_address_of(seed_a: Seq<u8>, seed_b: Seq<u8>, program_id: Seq<u8>) -> Option<
    ([u8; 32], u8),
>;

/// Relies on solana_program's Pubkey::try_find_program_address: the result
/// is a deterministic function of the seed slices and the deriving program
/// identity; `None` comes only when a seed is unusable (over the seed
/// length limit) or no bump seed yields a viable address.
#[verifier::external_body]
pub(crate) fn find_derived_address(seed_a: &[u8], seed_b: &[u8], program_id: &[u8; 32]) -> (r:
    Option<([u8; 32], u8)>)
    ensures
        r == derived_address_of(seed_a@, seed_b@, program_id@),
{
    solana_program::pubkey::Pubkey::try_find_program_address(
        &[seed_a, seed_b],
        &solana_program::pubkey::Pubkey::new_from_array(*program_id),
    ).map(|(key, bump)| (key.to_bytes(), bump))
}

/// The address derived from a cross-chain identity and its origin chain,
/// the chain identifier seeded as its decimal digit string.
pub open spec fn spec_identity_address(
    identity: Seq<u8>,
    from_chain_id: u64,
    program_id: Seq<u8>,
) -> Option<([u8; 32], u8)> {
    derived_address_of(identity, spec_decimal(from_chain_id as nat), program_id)
}

/// Whether `claimed` is exactly the address derived from `identity` on
/// `from_chain_id` under `program_id`. A failed derivation matches nothing.
pub open spec fn spec_identity_address_matches(
    identity: Seq<u8>,
    from_chain_id: u64,
    program_id: Seq<u8>,
    claimed: Seq<u8>,
) -> bool {
    match spec_identity_address(identity, from_chain_id, program_id) {
        Some(p) => claimed == p.0@,
        None => false,
    }
}

/// Derives the address that authorizes `identity` from `from_chain_id`.
pub fn derive_identity_address(identity: &[u8; 32], from_chain_id: u64, program_id: &[u8; 32]) -> (r:
    Option<([u8; 32], u8)>)
    ensures
        r == spec_identity_address(identity@, from_chain_id, program_id@),
{
    let seed = u64_to_decimal(from_chain_id);
    find_derived_address(identity.as_slice(), seed.as_slice(), program_id)
}

} // verus!
