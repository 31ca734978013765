//! Program-derived authorities: an address computed from seeds and the
//! program's identity, with no private key behind it. Knowing the seeds that
//! produce it is what authorises the program to act for it.

use vstd::prelude::*;
use solana_program::pubkey::Pubkey;
use crate::accounts::{same_address, Address};
use crate::error::EngineError;

verus! {

/// The address and bump that the derivation finds for `seeds` under
/// `program_id`: the first bump, counting down from 255, that yields a valid
/// address. `None` when no bump does.
pub uninterp spec fn program_address_of(seeds: Seq<Seq<u8>>, program_id: Seq<u8>) -> Option<(Seq<u8>, u8)>;

/// The plain-value view of a derivation's result.
pub open spec fn derived_view(r: Option<(Address, u8)>) -> Option<(Seq<u8>, u8)> {
    match r {
        Some((address, bump)) => Some((address@, bump)),
        None => None,
    }
}

/// Relies on solana_program's `Pubkey::try_find_program_address`, which
/// searches the bump downward from 255 and hashes seeds, bump and program id;
/// its result depends on those arguments alone. Unlike `find_program_address`
/// it returns `None` instead of panicking when no bump works.
#[verifier::external_body]
fn try_find_program_address(seeds: &Vec<Vec<u8>>, program_id: &Address) -> (r: Option<(Address, u8)>)
    ensures
        derived_view(r) == program_address_of(seeds.deep_view(), program_id@),
{
    let seed_refs: Vec<&[u8]> = seeds.iter().map(|s| s.as_slice()).collect();
    let program = Pubkey::new_from_array(*program_id);
    Pubkey::try_find_program_address(&seed_refs, &program).map(|(k, bump)| (k.to_bytes(), bump))
}

/// Derives the authority address and bump for `seeds` under `program_id`.
pub fn derive_authority(seeds: &Vec<Vec<u8>>, program_id: &Address) -> (r: Option<(Address, u8)>)
    ensures
        derived_view(r) == program_address_of(seeds.deep_view(), program_id@),
{
    try_find_program_address(seeds, program_id)
}

/// Checks a presented authority against the one that `seeds` derive under
/// `program_id`. Returns the bump on an exact match.
pub fn verify_derived_authority(seeds: &Vec<Vec<u8>>, program_id: &Address, presented: &Address) -> (r:
    Result<u8, EngineError>)
    ensures
        r == match program_address_of(seeds.deep_view(), program_id@) {
            Some((address, bump)) => if address == presented@ {
                Ok::<u8, EngineError>(bump)
            } else {
                Err(EngineError::InvalidSeeds)
            },
            None => Err(EngineError::InvalidSeeds),
        },
{
    match try_find_program_address(seeds, program_id) {
        Some((address, bump)) => {
            if same_address(&address, presented) {
                Ok(bump)
            } else {
                Err(EngineError::InvalidSeeds)
            }
        },
        None => Err(EngineError::InvalidSeeds),
    }
}

/// Deriving twice from the same seeds and program identity gives the same
/// address and bump.
pub proof fn lemma_derivation_deterministic(
    seeds: Seq<Seq<u8>>,
    program_id: Seq<u8>,
    first: Option<(Address, u8)>,
    second: Option<(Address, u8)>,
)
    requires
        derived_view(first) == program_address_of(seeds, program_id),
        derived_view(second) == program_address_of(seeds, program_id),
    ensures
        first == second,
{
    if let (Some((a, _)), Some((b, _))) = (first, second) {
        assert(a@ == b@);
        assert(a =~= b);
    }
}

} // verus!
