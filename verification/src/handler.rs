//! The migration handler: validates the thirteen supplied accounts, derives
//! the program authority, and commits to the four ledger calls by returning a
//! [`MigrationPlan`]. Validation fails fast: the first violated precondition
//! names the error, and on any error no plan exists, so no ledger call is
//! issued.

use vstd::prelude::*;
use crate::authority::{derive_migration_authority, derived_authority};
use crate::error::MintError;
use crate::keys::{key_eq, Key, EXPECTED_UPDATE_AUTHORITY};
use crate::layout::{
    mint_account_decimals, mint_account_freeze_authority, mint_account_supply, mint_account_valid,
    token_account_amount, token_account_mint, token_account_valid,
};
use crate::plan::{
    BurnCall, CreateMetadataCall, Creator, MigrationPlan, SetAuthorityCall, UpdateMetadataCall,
};
use crate::records::{parse_metadata_content, parsed_metadata, unpack_mint_account,
    unpack_token_account};

verus! {

/// One supplied account: its identity and its raw record bytes.
pub struct AccountRef {
    pub key: Key,
    pub data: Vec<u8>,
}

/// Position of the fee payer in the fixed thirteen-account request list.
pub const PAYER: usize = 0;

/// Position of the account handed to the burn call in its mint position.
pub const RUGGED_OWNER: usize = 1;

/// Position of the system-utility account (not inspected).
pub const SYSTEM: usize = 2;

/// Position of the caller's token holding record.
pub const TOKEN_HOLDING: usize = 3;

/// Position of the held asset's mint record.
pub const MINT: usize = 4;

/// Position of the metadata record to be created.
pub const METADATA: usize = 5;

/// Position of the metadata-registry program.
pub const METADATA_PROGRAM: usize = 6;

/// Position of the rent sysvar account.
pub const RENT: usize = 7;

/// Position of the supplied program-authority account.
pub const AUTHORITY: usize = 8;

/// Position of the token-ledger program.
pub const TOKEN_PROGRAM: usize = 9;

/// Position of the template metadata record.
pub const RUGGED_METADATA: usize = 10;

/// Position of the holding the burn destroys a unit from.
pub const RUGGED_HOLDING: usize = 11;

/// Position of the caller-declared new update authority.
pub const NEW_UPDATE_AUTHORITY: usize = 12;

/// The validation pipeline's outcome: the error a request is rejected with,
/// or `None` when every precondition holds and the plan is owed. The order of
/// the tests is the order the handler applies them in; the first violation
/// wins.
pub open spec fn validation_outcome(program_id: Seq<u8>, accounts: Seq<AccountRef>) -> Option<
    MintError,
> {
    if accounts.len() < 13 {
        Some(MintError::NotEnoughAccountKeys)
    } else if accounts[NEW_UPDATE_AUTHORITY as int].key@ != EXPECTED_UPDATE_AUTHORITY@ {
        Some(MintError::UpdateAuthorityMismatch)
    } else if !token_account_valid(accounts[TOKEN_HOLDING as int].data@) {
        Some(MintError::MalformedAccount)
    } else if !mint_account_valid(accounts[MINT as int].data@) {
        Some(MintError::MalformedAccount)
    } else if token_account_amount(accounts[TOKEN_HOLDING as int].data@) != 1 {
        Some(MintError::EmptyOrInvalidToken)
    } else if mint_account_decimals(accounts[MINT as int].data@) != 0 {
        Some(MintError::InvalidMint)
    } else if mint_account_supply(accounts[MINT as int].data@) != 1 {
        Some(MintError::InvalidMint)
    } else if mint_account_freeze_authority(accounts[MINT as int].data@) is Some {
        Some(MintError::InvalidMint)
    } else if token_account_mint(accounts[TOKEN_HOLDING as int].data@)
        != accounts[MINT as int].key@ {
        Some(MintError::InvalidMint)
    } else if !(derived_authority(program_id) matches Some(pair) && pair.0
        == accounts[AUTHORITY as int].key@) {
        Some(MintError::AuthorityDerivationMismatch)
    } else if parsed_metadata(accounts[RUGGED_METADATA as int].data@) is None {
        Some(MintError::MalformedAccount)
    } else {
        None
    }
}

/// What the plan of a successful request holds, account by account and
/// parameter by parameter.
pub open spec fn plan_correct(p: MigrationPlan, program_id: Seq<u8>, accounts: Seq<AccountRef>) -> bool {
    let payer = accounts[PAYER as int].key@;
    let rugged_owner = accounts[RUGGED_OWNER as int].key@;
    let mint = accounts[MINT as int].key@;
    let metadata = accounts[METADATA as int].key@;
    let metadata_program = accounts[METADATA_PROGRAM as int].key@;
    let rent = accounts[RENT as int].key@;
    let authority = accounts[AUTHORITY as int].key@;
    let token_program = accounts[TOKEN_PROGRAM as int].key@;
    let rugged_holding = accounts[RUGGED_HOLDING as int].key@;
    let new_update_authority = accounts[NEW_UPDATE_AUTHORITY as int].key@;
    let content = parsed_metadata(accounts[RUGGED_METADATA as int].data@)->0;
    &&& p.program_id@ == program_id
    &&& p.authority@ == authority
    &&& Some((p.authority@, p.bump)) == derived_authority(program_id)
    &&& p.create_metadata.metadata_program@ == metadata_program
    &&& p.create_metadata.metadata_account@ == metadata
    &&& p.create_metadata.mint@ == mint
    &&& p.create_metadata.mint_authority@ == payer
    &&& p.create_metadata.payer@ == payer
    &&& p.create_metadata.update_authority@ == authority
    &&& p.create_metadata.name@ == content.0
    &&& p.create_metadata.symbol@ == content.1
    &&& p.create_metadata.uri@ == content.2
    &&& p.create_metadata.creators@.len() == 2
    &&& p.create_metadata.creators@[0].address@ == authority
    &&& p.create_metadata.creators@[0].verified == true
    &&& p.create_metadata.creators@[0].share == 0
    &&& p.create_metadata.creators@[1].address@ == new_update_authority
    &&& p.create_metadata.creators@[1].verified == false
    &&& p.create_metadata.creators@[1].share == 100
    &&& p.create_metadata.seller_fee_basis_points == 500
    &&& p.create_metadata.update_authority_is_signer == true
    &&& p.create_metadata.is_mutable == true
    &&& p.create_metadata.account_keys@.len() == 6
    &&& p.create_metadata.account_keys@[0]@ == metadata
    &&& p.create_metadata.account_keys@[1]@ == mint
    &&& p.create_metadata.account_keys@[2]@ == payer
    &&& p.create_metadata.account_keys@[3]@ == metadata_program
    &&& p.create_metadata.account_keys@[4]@ == rent
    &&& p.create_metadata.account_keys@[5]@ == authority
    &&& p.finalize_metadata.metadata_program@ == metadata_program
    &&& p.finalize_metadata.metadata_account@ == metadata
    &&& p.finalize_metadata.update_authority@ == authority
    &&& p.finalize_metadata.new_update_authority is None
    &&& p.finalize_metadata.new_data is None
    &&& p.finalize_metadata.primary_sale_happened == Some(true)
    &&& p.finalize_metadata.account_keys@.len() == 3
    &&& p.finalize_metadata.account_keys@[0]@ == metadata_program
    &&& p.finalize_metadata.account_keys@[1]@ == metadata
    &&& p.finalize_metadata.account_keys@[2]@ == authority
    &&& p.revoke_mint_authority.token_program@ == token_program
    &&& p.revoke_mint_authority.mint@ == mint
    &&& p.revoke_mint_authority.new_mint_authority is None
    &&& p.revoke_mint_authority.current_authority@ == payer
    &&& p.revoke_mint_authority.signer_keys@.len() == 1
    &&& p.revoke_mint_authority.signer_keys@[0]@ == payer
    &&& p.revoke_mint_authority.account_keys@.len() == 3
    &&& p.revoke_mint_authority.account_keys@[0]@ == payer
    &&& p.revoke_mint_authority.account_keys@[1]@ == mint
    &&& p.revoke_mint_authority.account_keys@[2]@ == token_program
    &&& p.burn_rugged_token.token_program@ == token_program
    &&& p.burn_rugged_token.holding@ == rugged_holding
    &&& p.burn_rugged_token.mint@ == rugged_owner
    &&& p.burn_rugged_token.authority@ == payer
    &&& p.burn_rugged_token.signer_keys@.len() == 1
    &&& p.burn_rugged_token.signer_keys@[0]@ == payer
    &&& p.burn_rugged_token.amount == 1
    &&& p.burn_rugged_token.account_keys@.len() == 4
    &&& p.burn_rugged_token.account_keys@[0]@ == token_program
    &&& p.burn_rugged_token.account_keys@[1]@ == rugged_holding
    &&& p.burn_rugged_token.account_keys@[2]@ == rugged_owner
    &&& p.burn_rugged_token.account_keys@[3]@ == payer
}

/// The single entry point. Validates the request and either returns the plan
/// of the four ledger calls the request commits to, or the error naming the
/// first violated precondition. The opaque instruction payload is ignored.
pub fn process_instruction(program_id: &Key, accounts: &Vec<AccountRef>, _input: &[u8]) -> (r:
    Result<MigrationPlan, MintError>)
    ensures
        match r {
            Result::Err(e) => validation_outcome(program_id@, accounts@) == Some(e),
            Result::Ok(p) => validation_outcome(program_id@, accounts@) is None && plan_correct(
                p,
                program_id@,
                accounts@,
            ),
        },
{
    if accounts.len() < 13 {
        return Err(MintError::NotEnoughAccountKeys);
    }
    if !key_eq(&accounts[NEW_UPDATE_AUTHORITY].key, &EXPECTED_UPDATE_AUTHORITY) {
        return Err(MintError::UpdateAuthorityMismatch);
    }
    let token_data = match unpack_token_account(accounts[TOKEN_HOLDING].data.as_slice()) {
        Some(t) => t,
        None => { return Err(MintError::MalformedAccount) },
    };
    let mint_data = match unpack_mint_account(accounts[MINT].data.as_slice()) {
        Some(m) => m,
        None => { return Err(MintError::MalformedAccount) },
    };
    if token_data.amount != 1 {
        return Err(MintError::EmptyOrInvalidToken);
    }
    if mint_data.decimals != 0 {
        return Err(MintError::InvalidMint);
    }
    if mint_data.supply != 1 {
        return Err(MintError::InvalidMint);
    }
    if mint_data.freeze_authority.is_some() {
        return Err(MintError::InvalidMint);
    }
    if !key_eq(&token_data.mint, &accounts[MINT].key) {
        return Err(MintError::InvalidMint);
    }
    let (authority, bump) = match derive_migration_authority(program_id) {
        Some(pair) => pair,
        None => { return Err(MintError::AuthorityDerivationMismatch) },
    };
    if !key_eq(&authority, &accounts[AUTHORITY].key) {
        return Err(MintError::AuthorityDerivationMismatch);
    }
    let content = match parse_metadata_content(accounts[RUGGED_METADATA].data.as_slice()) {
        Some(c) => c,
        None => { return Err(MintError::MalformedAccount) },
    };
    let mut creators: Vec<Creator> = Vec::new();
    creators.push(Creator { address: authority, verified: true, share: 0 });
    creators.push(
        Creator { address: accounts[NEW_UPDATE_AUTHORITY].key, verified: false, share: 100 },
    );
    let create_metadata = CreateMetadataCall {
        metadata_program: accounts[METADATA_PROGRAM].key,
        metadata_account: accounts[METADATA].key,
        mint: accounts[MINT].key,
        mint_authority: accounts[PAYER].key,
        payer: accounts[PAYER].key,
        update_authority: authority,
        name: content.name,
        symbol: content.symbol,
        uri: content.uri,
        creators,
        seller_fee_basis_points: 500,
        update_authority_is_signer: true,
        is_mutable: true,
        account_keys: key_vec6(
            accounts[METADATA].key,
            accounts[MINT].key,
            accounts[PAYER].key,
            accounts[METADATA_PROGRAM].key,
            accounts[RENT].key,
            authority,
        ),
    };
    let finalize_metadata = UpdateMetadataCall {
        metadata_program: accounts[METADATA_PROGRAM].key,
        metadata_account: accounts[METADATA].key,
        update_authority: authority,
        new_update_authority: None,
        new_data: None,
        primary_sale_happened: Some(true),
        account_keys: key_vec3(
            accounts[METADATA_PROGRAM].key,
            accounts[METADATA].key,
            authority,
        ),
    };
    let revoke_mint_authority = SetAuthorityCall {
        token_program: accounts[TOKEN_PROGRAM].key,
        mint: accounts[MINT].key,
        new_mint_authority: None,
        current_authority: accounts[PAYER].key,
        signer_keys: key_vec1(accounts[PAYER].key),
        account_keys: key_vec3(
            accounts[PAYER].key,
            accounts[MINT].key,
            accounts[TOKEN_PROGRAM].key,
        ),
    };
    let burn_rugged_token = BurnCall {
        token_program: accounts[TOKEN_PROGRAM].key,
        holding: accounts[RUGGED_HOLDING].key,
        mint: accounts[RUGGED_OWNER].key,
        authority: accounts[PAYER].key,
        signer_keys: key_vec1(accounts[PAYER].key),
        amount: 1,
        account_keys: key_vec4(
            accounts[TOKEN_PROGRAM].key,
            accounts[RUGGED_HOLDING].key,
            accounts[RUGGED_OWNER].key,
            accounts[PAYER].key,
        ),
    };
    Ok(
        MigrationPlan {
            program_id: *program_id,
            authority,
            bump,
            create_metadata,
            finalize_metadata,
            revoke_mint_authority,
            burn_rugged_token,
        },
    )
}

/// A mint whose decimals are not zero never yields a plan, so no ledger call
/// is ever issued for it; and when every earlier test passes, the rejection
/// is `InvalidMint`.
pub proof fn lemma_nonzero_decimals_rejected(program_id: Seq<u8>, accounts: Seq<AccountRef>)
    requires
        accounts.len() >= 13,
        mint_account_valid(accounts[MINT as int].data@),
        mint_account_decimals(accounts[MINT as int].data@) != 0,
    ensures
        validation_outcome(program_id, accounts) is Some,
        (accounts[NEW_UPDATE_AUTHORITY as int].key@ == EXPECTED_UPDATE_AUTHORITY@
            && token_account_valid(accounts[TOKEN_HOLDING as int].data@)
            && token_account_amount(accounts[TOKEN_HOLDING as int].data@) == 1)
            ==> validation_outcome(program_id, accounts) == Some(MintError::InvalidMint),
{
}

/// A holding whose amount is not exactly one unit never yields a plan; when
/// the earlier tests pass, the rejection is `EmptyOrInvalidToken`. The
/// conclusion holds for every program identity alike: the rejection precedes
/// authority derivation and does not depend on it.
pub proof fn lemma_bad_amount_rejected_before_derivation(
    program_id: Seq<u8>,
    accounts: Seq<AccountRef>,
)
    requires
        accounts.len() >= 13,
        token_account_valid(accounts[TOKEN_HOLDING as int].data@),
        token_account_amount(accounts[TOKEN_HOLDING as int].data@) != 1,
    ensures
        validation_outcome(program_id, accounts) is Some,
        (accounts[NEW_UPDATE_AUTHORITY as int].key@ == EXPECTED_UPDATE_AUTHORITY@
            && mint_account_valid(accounts[MINT as int].data@))
            ==> validation_outcome(program_id, accounts) == Some(MintError::EmptyOrInvalidToken),
{
}

/// When the supplied authority account is not the derived identity (or no
/// identity is derivable at all), the request is rejected, so no ledger call
/// is issued.
pub proof fn lemma_authority_mismatch_blocks_actions(
    program_id: Seq<u8>,
    accounts: Seq<AccountRef>,
)
    requires
        !(derived_authority(program_id) matches Some(pair) && pair.0
            == accounts[AUTHORITY as int].key@),
    ensures
        validation_outcome(program_id, accounts) is Some,
{
}

/// How the token ledger guards a set-authority call on a mint: it is accepted
/// only when the mint's current minting authority is the call's signer.
pub open spec fn revoke_accepted(mint_authority: Option<Seq<u8>>, signer: Seq<u8>) -> bool {
    mint_authority == Some(signer)
}

/// The migration is one-shot. Its revoke step leaves the mint with no minting
/// authority at all, and a mint without a minting authority accepts no further
/// set-authority call from any signer - in particular not from the fee payer
/// that an identical resubmission would present, so the resubmission fails at
/// its revoke step.
pub proof fn lemma_migration_one_shot(mint_authority: Option<Seq<u8>>, signer: Seq<u8>,
    later_signer: Seq<u8>)
    requires
        revoke_accepted(mint_authority, signer),
    ensures
        !revoke_accepted(Option::None, later_signer),
{
}

/// The plan form of the one-shot law: every plan a request can yield asks the
/// ledger to replace the mint authority with nothing, and once the mint's
/// authority is what the plan asked for, no signer can be accepted for a
/// further set-authority call on that mint.
pub proof fn lemma_plan_revoke_is_terminal(
    p: MigrationPlan,
    program_id: Seq<u8>,
    accounts: Seq<AccountRef>,
)
    requires
        plan_correct(p, program_id, accounts),
    ensures
        p.revoke_mint_authority.new_mint_authority is None,
        forall|signer: Seq<u8>|
            !revoke_accepted(
                crate::keys::key_opt_view(p.revoke_mint_authority.new_mint_authority),
                signer,
            ),
{
}

/// An owned list of one key.
fn key_vec1(a: Key) -> (r: Vec<Key>)
    ensures
        r@ == seq![a],
{
    let mut r: Vec<Key> = Vec::new();
    r.push(a);
    assert(r@ =~= seq![a]);
    r
}

/// An owned list of three keys, in order.
fn key_vec3(a: Key, b: Key, c: Key) -> (r: Vec<Key>)
    ensures
        r@ == seq![a, b, c],
{
    let mut r: Vec<Key> = Vec::new();
    r.push(a);
    r.push(b);
    r.push(c);
    assert(r@ =~= seq![a, b, c]);
    r
}

/// An owned list of four keys, in order.
fn key_vec4(a: Key, b: Key, c: Key, d: Key) -> (r: Vec<Key>)
    ensures
        r@ == seq![a, b, c, d],
{
    let mut r: Vec<Key> = Vec::new();
    r.push(a);
    r.push(b);
    r.push(c);
    r.push(d);
    assert(r@ =~= seq![a, b, c, d]);
    r
}

/// An owned list of six keys, in order.
fn key_vec6(a: Key, b: Key, c: Key, d: Key, e: Key, f: Key) -> (r: Vec<Key>)
    ensures
        r@ == seq![a, b, c, d, e, f],
{
    let mut r: Vec<Key> = Vec::new();
    r.push(a);
    r.push(b);
    r.push(c);
    r.push(d);
    r.push(e);
    r.push(f);
    assert(r@ =~= seq![a, b, c, d, e, f]);
    r
}

} // verus!
