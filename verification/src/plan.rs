//! The migration plan: the complete, ordered description of the four signed
//! ledger calls a validated request gives rise to. The handler returns a plan
//! instead of performing the calls itself, so every parameter of every call is
//! pinned by its contract; the runtime shell around the crate issues the calls
//! in the order the plan lists them.

use vstd::prelude::*;
use crate::keys::{Key, SEED_PREFIX};
use crate::records::MetadataContent;

verus! {

/// One entry of the creator list written into the new metadata record.
#[derive(Clone)]
pub struct Creator {
    /// The creator's identity.
    pub address: Key,
    /// Whether the entry is marked as verified.
    pub verified: bool,
    /// The creator's royalty share, in percent.
    pub share: u8,
}

/// The first call: create the metadata record for the held asset's mint,
/// copying the descriptive content of the template record.
pub struct CreateMetadataCall {
    /// The metadata-registry program addressed.
    pub metadata_program: Key,
    /// The metadata record to create.
    pub metadata_account: Key,
    /// The mint the record describes.
    pub mint: Key,
    /// The mint's signing authority for this call (the fee payer).
    pub mint_authority: Key,
    /// The account paying the record's fees.
    pub payer: Key,
    /// The record's update authority at creation time (the derived program
    /// authority, which also signs this call through the seed bundle).
    pub update_authority: Key,
    /// Descriptive name, copied verbatim from the template record.
    pub name: String,
    /// Descriptive symbol, copied verbatim from the template record.
    pub symbol: String,
    /// Content URI, copied verbatim from the template record.
    pub uri: String,
    /// The fixed two-entry creator list.
    pub creators: Vec<Creator>,
    /// Royalty on secondary sales, in basis points.
    pub seller_fee_basis_points: u16,
    /// Whether the update authority signs the creation.
    pub update_authority_is_signer: bool,
    /// Whether the created record stays mutable.
    pub is_mutable: bool,
    /// The accounts handed to the host for this call, in order.
    pub account_keys: Vec<Key>,
}

/// The second call: finalize the new metadata record by marking the primary
/// sale as having happened, leaving all content fields absent (unchanged).
pub struct UpdateMetadataCall {
    /// The metadata-registry program addressed.
    pub metadata_program: Key,
    /// The metadata record to update.
    pub metadata_account: Key,
    /// The authority signing the update: the derived program authority, so
    /// control over the record remains with the program after this step.
    pub update_authority: Key,
    /// A replacement update authority; passed as absent.
    pub new_update_authority: Option<Key>,
    /// Replacement content; passed as absent.
    pub new_data: Option<MetadataContent>,
    /// The primary-sale flag to set.
    pub primary_sale_happened: Option<bool>,
    /// The accounts handed to the host for this call, in order.
    pub account_keys: Vec<Key>,
}

/// The third call: revoke the mint authority, permanently preventing any
/// further units of the asset from being minted.
pub struct SetAuthorityCall {
    /// The token-ledger program addressed.
    pub token_program: Key,
    /// The mint whose authority is changed.
    pub mint: Key,
    /// The replacement mint authority; passed as absent, which disables
    /// minting for good.
    pub new_mint_authority: Option<Key>,
    /// The current authority that signs the change (the fee payer).
    pub current_authority: Key,
    /// The signer list handed to the instruction, in order.
    pub signer_keys: Vec<Key>,
    /// The accounts handed to the host for this call, in order.
    pub account_keys: Vec<Key>,
}

/// The fourth call: burn one unit of the caller-supplied second holding.
pub struct BurnCall {
    /// The token-ledger program addressed.
    pub token_program: Key,
    /// The holding the unit is burned from.
    pub holding: Key,
    /// The account handed to the instruction in its mint position: the second
    /// account of the request.
    pub mint: Key,
    /// The authority signing the burn (the fee payer).
    pub authority: Key,
    /// The signer list handed to the instruction, in order.
    pub signer_keys: Vec<Key>,
    /// The number of units to destroy.
    pub amount: u64,
    /// The accounts handed to the host for this call, in order.
    pub account_keys: Vec<Key>,
}

/// Everything a validated migration request commits the program to: the
/// derived signing identity with its bump nonce, and the four ledger calls in
/// the order they must be issued. The first two calls are signed on the
/// derived authority's behalf by presenting [`MigrationPlan::authority_seeds`].
pub struct MigrationPlan {
    /// The executing program's identity the plan was built for.
    pub program_id: Key,
    /// The derived program authority.
    pub authority: Key,
    /// The bump nonce that closes the signing seed sequence.
    pub bump: u8,
    /// First call.
    pub create_metadata: CreateMetadataCall,
    /// Second call.
    pub finalize_metadata: UpdateMetadataCall,
    /// Third call.
    pub revoke_mint_authority: SetAuthorityCall,
    /// Fourth call.
    pub burn_rugged_token: BurnCall,
}

impl MigrationPlan {
    /// The seed sequence that proves the program's right to sign as the
    /// derived authority: the fixed tag, the program identity, the tag again,
    /// and the bump nonce.
    pub fn authority_seeds(&self) -> (r: Vec<Vec<u8>>)
        ensures
            r@.len() == 4,
            r@[0]@ == SEED_PREFIX@,
            r@[1]@ == self.program_id@,
            r@[2]@ == SEED_PREFIX@,
            r@[3]@ == seq![self.bump],
    {
        let mut bump_seed: Vec<u8> = Vec::new();
        bump_seed.push(self.bump);
        assert(bump_seed@ =~= seq![self.bump]);
        let mut r: Vec<Vec<u8>> = Vec::new();
        r.push(slice_to_vec(SEED_PREFIX.as_slice()));
        r.push(slice_to_vec(self.program_id.as_slice()));
        r.push(slice_to_vec(SEED_PREFIX.as_slice()));
        r.push(bump_seed);
        r
    }
}

/// Copies a byte slice into an owned vector.
fn slice_to_vec(s: &[u8]) -> (r: Vec<u8>)
    ensures
        r@ == s@,
{
    let mut r: Vec<u8> = Vec::new();
    let mut i: usize = 0;
    while i < s.len()
        invariant
            0 <= i <= s@.len(),
            r@ == s@.subrange(0, i as int),
        decreases s@.len() - i,
    {
        r.push(s[i]);
        assert(r@ =~= s@.subrange(0, i as int + 1));
        i = i + 1;
    }
    assert(r@ =~= s@);
    r
}

} // verus!
