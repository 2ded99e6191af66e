//! Derivation of the program-owned signing identity ("vault" authority). The
//! identity is recomputed on every request from the fixed seed tag and the
//! executing program's own identity; the search also yields the bump nonce
//! that must close the seed sequence when the host is later asked to sign on
//! the derived identity's behalf.

use vstd::prelude::*;
use crate::keys::{Key, SEED_PREFIX};

verus! {

/// What the host's address-derivation search returns for given seeds and
/// program identity: the derived identity and its bump nonce, or nothing when
/// no nonce yields a valid keyless address. The result depends on the seeds
/// and the program identity alone.
pub uninterp spec fn program_address_of(
    seed1: Seq<u8>,
    seed2: Seq<u8>,
    seed3: Seq<u8>,
    program_id: Seq<u8>,
) -> Option<(Seq<u8>, u8)>;

/// Relies on `solana_program::pubkey::Pubkey::try_find_program_address`: a
/// deterministic search over bump nonces whose outcome is a function of the
/// seed slices and the program identity alone.
#[verifier::external_body]
fn find_program_address_3(seed1: &[u8], seed2: &[u8], seed3: &[u8], program_id: &Key) -> (r: Option<
    (Key, u8),
>)
    ensures
        r is Some <==> program_address_of(seed1@, seed2@, seed3@, program_id@) is Some,
        r matches Some(p) ==> Some((p.0@, p.1)) == program_address_of(
            seed1@,
            seed2@,
            seed3@,
            program_id@,
        ),
{
    let pid = solana_program::pubkey::Pubkey::new_from_array(*program_id);
    match solana_program::pubkey::Pubkey::try_find_program_address(&[seed1, seed2, seed3], &pid) {
        Some((key, bump)) => Some((key.to_bytes(), bump)),
        None => None,
    }
}

/// The signing identity and bump nonce this program derives for itself: the
/// host's address derivation applied to the seed sequence (tag, program
/// identity, tag).
pub open spec fn derived_authority(program_id: Seq<u8>) -> Option<(Seq<u8>, u8)> {
    program_address_of(SEED_PREFIX@, program_id, SEED_PREFIX@, program_id)
}

/// Recomputes the program-owned signing identity and its bump nonce for the
/// executing program.
pub fn derive_migration_authority(program_id: &Key) -> (r: Option<(Key, u8)>)
    ensures
        r is Some <==> derived_authority(program_id@) is Some,
        r matches Some(p) ==> Some((p.0@, p.1)) == derived_authority(program_id@),
{
    find_program_address_3(
        SEED_PREFIX.as_slice(),
        program_id.as_slice(),
        SEED_PREFIX.as_slice(),
        program_id,
    )
}

/// Authority derivation is a pure function of the program's own identity and
/// the fixed seed tag: two derivations for the same program identity always
/// yield the same identity and the same bump nonce.
pub proof fn lemma_derivation_deterministic(program_id_a: Seq<u8>, program_id_b: Seq<u8>)
    requires
        program_id_a == program_id_b,
    ensures
        derived_authority(program_id_a) == derived_authority(program_id_b),
{
}

} // verus!
