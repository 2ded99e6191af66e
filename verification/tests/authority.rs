use std::str::FromStr;

use amoebit_minter::authority::derive_migration_authority;
use amoebit_minter::keys::{key_eq, EXPECTED_UPDATE_AUTHORITY, SEED_PREFIX};
use solana_program::program_option::COption;
use solana_program::program_pack::Pack;
use solana_program::pubkey::Pubkey;

#[test]
fn seed_prefix_is_the_tag_string() {
    assert_eq!(&SEED_PREFIX[..], "amoebit_minter".as_bytes());
}

#[test]
fn expected_authority_matches_its_base58_form() {
    let k = Pubkey::from_str("VLawmZTgLAbdeqrU579ohsdey9H1h3Mi1UeUJpg2mQB").unwrap();
    assert_eq!(EXPECTED_UPDATE_AUTHORITY, k.to_bytes());
}

#[test]
fn derivation_matches_the_host_search() {
    let pid = [42u8; 32];
    let (auth, bump) = derive_migration_authority(&pid).unwrap();
    let (want_key, want_bump) = Pubkey::find_program_address(
        &[b"amoebit_minter", &pid, b"amoebit_minter"],
        &Pubkey::new_from_array(pid),
    );
    assert_eq!(auth, want_key.to_bytes());
    assert_eq!(bump, want_bump);
    assert_ne!(auth, pid);
}

#[test]
fn derivation_is_deterministic() {
    let pid = [7u8; 32];
    let first = derive_migration_authority(&pid).unwrap();
    let second = derive_migration_authority(&pid).unwrap();
    assert_eq!(first, second);
}

#[test]
fn different_programs_derive_different_authorities() {
    let a = derive_migration_authority(&[1u8; 32]).unwrap();
    let b = derive_migration_authority(&[2u8; 32]).unwrap();
    assert_ne!(a.0, b.0);
}

#[test]
fn key_eq_compares_bytes() {
    let mut a = [9u8; 32];
    let b = [9u8; 32];
    assert!(key_eq(&a, &b));
    a[31] = 8;
    assert!(!key_eq(&a, &b));
}

#[test]
fn authority_seeds_reproduce_the_derivation_inputs() {
    let pid = [42u8; 32];
    let mut accounts = Vec::new();
    let mint_key = [4u8; 32];
    let (auth, bump) = derive_migration_authority(&pid).unwrap();
    // A minimal valid request, to obtain a plan to ask for seeds.
    accounts.push(acct([1u8; 32], vec![]));
    accounts.push(acct([2u8; 32], vec![]));
    accounts.push(acct([3u8; 32], vec![]));
    accounts.push(acct([31u8; 32], packed_token(mint_key)));
    accounts.push(acct(mint_key, packed_mint()));
    accounts.push(acct([5u8; 32], vec![]));
    accounts.push(acct([6u8; 32], vec![]));
    accounts.push(acct([7u8; 32], vec![]));
    accounts.push(acct(auth, vec![]));
    accounts.push(acct([9u8; 32], vec![]));
    accounts.push(acct([10u8; 32], template_metadata()));
    accounts.push(acct([11u8; 32], vec![]));
    accounts.push(acct(EXPECTED_UPDATE_AUTHORITY, vec![]));
    let plan = amoebit_minter::handler::process_instruction(&pid, &accounts, &[]).unwrap_or_else(
        |_| panic!("expected a plan"),
    );
    let seeds = plan.authority_seeds();
    assert_eq!(seeds.len(), 4);
    assert_eq!(seeds[0], b"amoebit_minter".to_vec());
    assert_eq!(seeds[1], pid.to_vec());
    assert_eq!(seeds[2], b"amoebit_minter".to_vec());
    assert_eq!(seeds[3], vec![bump]);
    // The seed bundle reproduces the derived identity when handed back to the
    // host's exact-nonce derivation.
    let derived = Pubkey::create_program_address(
        &[&seeds[0], &seeds[1], &seeds[2], &seeds[3]],
        &Pubkey::new_from_array(pid),
    )
    .unwrap();
    assert_eq!(derived.to_bytes(), plan.authority);
}

fn acct(key: [u8; 32], data: Vec<u8>) -> amoebit_minter::handler::AccountRef {
    amoebit_minter::handler::AccountRef { key, data }
}

fn packed_token(mint: [u8; 32]) -> Vec<u8> {
    let acct = spl_token::state::Account {
        mint: Pubkey::new_from_array(mint),
        owner: Pubkey::new_from_array([21u8; 32]),
        amount: 1,
        delegate: COption::None,
        state: spl_token::state::AccountState::Initialized,
        is_native: COption::None,
        delegated_amount: 0,
        close_authority: COption::None,
    };
    let mut buf = vec![0u8; spl_token::state::Account::LEN];
    spl_token::state::Account::pack(acct, &mut buf).unwrap();
    buf
}

fn packed_mint() -> Vec<u8> {
    let m = spl_token::state::Mint {
        mint_authority: COption::Some(Pubkey::new_from_array([1u8; 32])),
        supply: 1,
        decimals: 0,
        is_initialized: true,
        freeze_authority: COption::None,
    };
    let mut buf = vec![0u8; spl_token::state::Mint::LEN];
    spl_token::state::Mint::pack(m, &mut buf).unwrap();
    buf
}

fn template_metadata() -> Vec<u8> {
    let mut b = Vec::new();
    b.push(4u8);
    b.extend_from_slice(&[90u8; 32]);
    b.extend_from_slice(&[91u8; 32]);
    for s in ["Name", "SYM", "uri"] {
        b.extend_from_slice(&(s.len() as u32).to_le_bytes());
        b.extend_from_slice(s.as_bytes());
    }
    b.extend_from_slice(&0u16.to_le_bytes());
    b.push(0u8);
    b.push(0u8);
    b.push(1u8);
    b.push(0u8);
    b
}
