//! Deterministic derivation of real chain addresses from seed material.
//!
//! The engine addresses holding vaults by abstract keys; a host that runs
//! against the real ledger derives the matching 32-byte program addresses
//! and bump bytes here.

use vstd::prelude::*;

verus! {

/// What the derivation returns for given seeds and program id: the 32-byte
/// derived address and its bump byte, or nothing in the statistically
/// improbable event that no bump yields a valid derived address. The result
/// is a function of the seeds and program id alone.
pub uninterp spec fn derived_address(seeds: Seq<Seq<u8>>, program_id: Seq<u8>) -> Option<
    (Seq<u8>, u8),
>;

/// The seed byte strings as mathematical sequences.
pub open spec fn seed_views(seeds: Seq<Vec<u8>>) -> Seq<Seq<u8>> {
    seeds.map_values(|s: Vec<u8>| s@)
}

/// Relies on solana_program::pubkey::Pubkey::try_find_program_address: it
/// computes the derived address and bump from the seeds and program id
/// alone, returns a 32-byte address, and returns None when no bump yields a
/// valid derived address or the seeds are out of range.
#[verifier::external_body]
fn find_derived_address(seeds: &Vec<Vec<u8>>, program_id: &Vec<u8>) -> (r: Option<(Vec<u8>, u8)>)
    requires
        program_id@.len() == 32,
    ensures
        r is Some <==> derived_address(seed_views(seeds@), program_id@) is Some,
        r matches Some(p) ==> Some((p.0@, p.1)) == derived_address(seed_views(seeds@), program_id@)
            && p.0@.len() == 32,
{
    let pid = solana_program::pubkey::Pubkey::try_from(program_id.as_slice()).unwrap();
    let seed_refs: Vec<&[u8]> = seeds.iter().map(|s| s.as_slice()).collect();
    solana_program::pubkey::Pubkey::try_find_program_address(&seed_refs, &pid)
        .map(|(key, bump)| (key.to_bytes().to_vec(), bump))
}

/// Derive the address and bump byte for the given seeds under the given
/// 32-byte program id. Deterministic: equal inputs give equal results.
pub fn derive_address(seeds: &Vec<Vec<u8>>, program_id: &Vec<u8>) -> (r: Option<(Vec<u8>, u8)>)
    requires
        program_id@.len() == 32,
    ensures
        r is Some <==> derived_address(seed_views(seeds@), program_id@) is Some,
        r matches Some(p) ==> Some((p.0@, p.1)) == derived_address(seed_views(seeds@), program_id@)
            && p.0@.len() == 32,
{
    find_derived_address(seeds, program_id)
}

} // verus!
