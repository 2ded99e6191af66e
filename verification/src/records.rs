//! The ledger records this handler inspects, as plain values, and the trusted
//! decoders that obtain them from raw account bytes through the ledger
//! programs' own deserializers.

use vstd::prelude::*;
use solana_program::program_option::COption;
use crate::keys::{key_opt_view, Key};
use crate::layout::{
    mint_account_decimals, mint_account_freeze_authority, mint_account_mint_authority,
    mint_account_supply, mint_account_valid, token_account_amount, token_account_mint,
    token_account_owner, token_account_valid,
};

verus! {

/// The fields of a token holding record that this handler reads.
pub struct TokenHolding {
    /// The mint (asset class) the holding belongs to.
    pub mint: Key,
    /// The identity that owns the holding.
    pub owner: Key,
    /// The number of units held.
    pub amount: u64,
}

/// The fields of a mint record that this handler reads.
pub struct MintRecord {
    /// The authority still allowed to mint further units, if any.
    pub mint_authority: Option<Key>,
    /// The total number of units issued.
    pub supply: u64,
    /// The number of decimal places of one unit.
    pub decimals: u8,
    /// The authority allowed to freeze holdings, if any.
    pub freeze_authority: Option<Key>,
}

/// The descriptive fields of a metadata record: copied verbatim from the
/// template record into the newly created one.
pub struct MetadataContent {
    pub name: String,
    pub symbol: String,
    pub uri: String,
}

/// What the metadata registry's deserializer yields for given account bytes:
/// the name, symbol and URI of the record, when the bytes deserialize at all.
/// The result depends on the bytes alone.
pub uninterp spec fn parsed_metadata(b: Seq<u8>) -> Option<(Seq<char>, Seq<char>, Seq<char>)>;

/// Relies on `spl_token::state::Account::unpack` (a `solana_program::program_pack::Pack`
/// method): it accepts exactly 165 bytes in the fixed holding-record layout,
/// rejects uninitialized or malformed records, and reads the mint, the owner
/// and the little-endian held amount at their fixed offsets.
#[verifier::external_body]
pub(crate) fn unpack_token_account(data: &[u8]) -> (r: Option<TokenHolding>)
    ensures
        r is Some <==> token_account_valid(data@),
        r is Some ==> {
            &&& r->0.mint@ == token_account_mint(data@)
            &&& r->0.owner@ == token_account_owner(data@)
            &&& r->0.amount == token_account_amount(data@)
        },
{
    match <spl_token::state::Account as solana_program::program_pack::Pack>::unpack(data) {
        Ok(a) => Some(
            TokenHolding { mint: a.mint.to_bytes(), owner: a.owner.to_bytes(), amount: a.amount },
        ),
        Err(_) => None,
    }
}

/// Relies on `spl_token::state::Mint::unpack` (a `solana_program::program_pack::Pack`
/// method): it accepts exactly 82 bytes in the fixed mint-record layout,
/// rejects uninitialized or malformed records, and reads the optional
/// authorities, the little-endian supply and the decimals at their fixed
/// offsets.
#[verifier::external_body]
pub(crate) fn unpack_mint_account(data: &[u8]) -> (r: Option<MintRecord>)
    ensures
        r is Some <==> mint_account_valid(data@),
        r is Some ==> {
            &&& key_opt_view(r->0.mint_authority) == mint_account_mint_authority(data@)
            &&& r->0.supply == mint_account_supply(data@)
            &&& r->0.decimals == mint_account_decimals(data@)
            &&& key_opt_view(r->0.freeze_authority) == mint_account_freeze_authority(data@)
        },
{
    match <spl_token::state::Mint as solana_program::program_pack::Pack>::unpack(data) {
        Ok(m) => {
            let mint_authority = match m.mint_authority {
                COption::Some(k) => Some(k.to_bytes()),
                COption::None => None,
            };
            let freeze_authority = match m.freeze_authority {
                COption::Some(k) => Some(k.to_bytes()),
                COption::None => None,
            };
            Some(MintRecord { mint_authority, supply: m.supply, decimals: m.decimals, freeze_authority })
        },
        Err(_) => None,
    }
}

/// Relies on `solana_program::borsh::try_from_slice_unchecked` deserializing a
/// `metaplex_token_metadata::state::Metadata`: the outcome and the record's
/// name, symbol and URI depend on the account bytes alone.
#[verifier::external_body]
pub(crate) fn parse_metadata_content(data: &[u8]) -> (r: Option<MetadataContent>)
    ensures
        r is Some <==> parsed_metadata(data@) is Some,
        r is Some ==> (r->0.name@, r->0.symbol@, r->0.uri@) == parsed_metadata(data@)->0,
{
    match solana_program::borsh::try_from_slice_unchecked::<
        metaplex_token_metadata::state::Metadata,
    >(data) {
        Ok(m) => Some(
            MetadataContent { name: m.data.name, symbol: m.data.symbol, uri: m.data.uri },
        ),
        Err(_) => None,
    }
}

} // verus!
