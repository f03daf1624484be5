use std::str::FromStr;

use anchor_lang::solana_program::pubkey::Pubkey;
use token_transfer::derivation::{tag_bytes, DeriveError, Tag, COMPANY_ID_LEN};
use token_transfer::error::{LedgerError, PoolError};
use token_transfer::ops::{deposit, initialize, transfer, Deposit, Disbursement, Initialize, TransferAmount};
use token_transfer::store::{same_bytes, Custody, Parameters};

const ACME: &str = "acme-corporation-pool-000001";
const GLOBEX: &str = "globex-corporation-pool-0002";

fn program() -> [u8; 32] {
    Pubkey::from_str("Fg6PaFpoGXkYsidMpWTK6W2BeZ7FEfcYkg476zPFsLnS").unwrap().to_bytes()
}

fn company_address(id: &str) -> Vec<u8> {
    token_transfer::derivation::derive(Tag::Company, id.as_bytes(), &program()).unwrap().address
}

fn bumps(id: &str) -> (u8, u8) {
    let c = token_transfer::derivation::derive(Tag::Company, id.as_bytes(), &program()).unwrap();
    let p = token_transfer::derivation::derive(Tag::Pool, id.as_bytes(), &program()).unwrap();
    (c.bump, p.bump)
}

fn initialized(ids: &[&str]) -> Custody {
    let mut custody = Custody::new(program());
    for id in ids {
        let ctx = Initialize::accounts(&custody, id).unwrap();
        initialize(&mut custody, &ctx, Ok(())).unwrap();
    }
    custody
}

fn deposit_ok(custody: &mut Custody, id: &str, amount: u64) -> Result<(), PoolError> {
    let (b, p) = bumps(id);
    let ctx = Deposit::accounts(custody, id, b, p)?;
    deposit(custody, &ctx, amount, Ok(()))
}

fn transfer_of(custody: &Custody, id: &str, amount: u64) -> Result<Disbursement, PoolError> {
    let (b, p) = bumps(id);
    let ctx = TransferAmount::accounts(custody, id, b, p)?;
    transfer(custody, &ctx, amount)
}

fn staked(custody: &Custody, id: &str) -> Result<u64, PoolError> {
    custody.staked_amount(&company_address(id))
}

#[test]
fn identifiers_have_the_fixed_length() {
    assert_eq!(ACME.len(), COMPANY_ID_LEN);
    assert_eq!(GLOBEX.len(), COMPANY_ID_LEN);
}

#[test]
fn derive_is_deterministic() {
    let a = token_transfer::derivation::derive(Tag::Company, ACME.as_bytes(), &program()).unwrap();
    let b = token_transfer::derivation::derive(Tag::Company, ACME.as_bytes(), &program()).unwrap();
    assert_eq!(a.address, b.address);
    assert_eq!(a.bump, b.bump);
    let p1 = token_transfer::derivation::derive(Tag::Pool, ACME.as_bytes(), &program()).unwrap();
    let p2 = token_transfer::derivation::derive(Tag::Pool, ACME.as_bytes(), &program()).unwrap();
    assert_eq!(p1.address, p2.address);
    assert_eq!(p1.bump, p2.bump);
}

#[test]
fn derive_matches_split_seed_derivation() {
    let id = ACME.as_bytes();
    let program_id = Pubkey::new_from_array(program());
    let (company, company_bump) =
        Pubkey::find_program_address(&[b"company", &id[..18], &id[18..]], &program_id);
    let (pool, pool_bump) = Pubkey::find_program_address(&[b"pool", &id[..18], &id[18..]], &program_id);
    let c = token_transfer::derivation::derive(Tag::Company, id, &program()).unwrap();
    let p = token_transfer::derivation::derive(Tag::Pool, id, &program()).unwrap();
    assert_eq!(c.address, company.to_bytes().to_vec());
    assert_eq!(c.bump, company_bump);
    assert_eq!(p.address, pool.to_bytes().to_vec());
    assert_eq!(p.bump, pool_bump);
    assert_eq!(c.address.len(), 32);
    assert_ne!(c.address, p.address);
    assert!(!company.is_on_curve());
}

#[test]
fn derive_rejects_wrong_length() {
    let short = &ACME.as_bytes()[..27];
    assert_eq!(token_transfer::derivation::derive(Tag::Company, short, &program()).unwrap_err(), DeriveError::InvalidCompanyId);
    let long = format!("{}x", ACME);
    assert_eq!(token_transfer::derivation::derive(Tag::Pool, long.as_bytes(), &program()).unwrap_err(), DeriveError::InvalidCompanyId);
    assert_eq!(token_transfer::derivation::derive(Tag::Company, b"", &program()).unwrap_err(), DeriveError::InvalidCompanyId);
}

#[test]
fn tag_seeds_are_the_namespace_words() {
    assert_eq!(tag_bytes(Tag::Company), b"company".to_vec());
    assert_eq!(tag_bytes(Tag::Pool), b"pool".to_vec());
}

#[test]
fn initialize_creates_zero_record() {
    let custody = initialized(&[ACME]);
    assert_eq!(staked(&custody, ACME), Ok(0));
    assert!(custody.contains(&company_address(ACME)));
}

#[test]
fn initialize_context_holds_canonical_addresses() {
    let custody = Custody::new(program());
    let ctx = Initialize::accounts(&custody, ACME).unwrap();
    let c = token_transfer::derivation::derive(Tag::Company, ACME.as_bytes(), &program()).unwrap();
    let p = token_transfer::derivation::derive(Tag::Pool, ACME.as_bytes(), &program()).unwrap();
    assert_eq!(ctx.company().address, c.address);
    assert_eq!(ctx.company().bump, c.bump);
    assert_eq!(ctx.pool().address, p.address);
    assert_eq!(ctx.pool().bump, p.bump);
}

#[test]
fn initialize_twice_is_rejected() {
    let mut custody = Custody::new(program());
    let ctx = Initialize::accounts(&custody, ACME).unwrap();
    initialize(&mut custody, &ctx, Ok(())).unwrap();
    deposit_ok(&mut custody, ACME, 40).unwrap();
    let second = Initialize::accounts(&custody, ACME);
    assert!(matches!(second, Err(PoolError::AlreadyInitialized)));
    assert!(second.err().unwrap().is_precondition_violation());
    assert_eq!(initialize(&mut custody, &ctx, Ok(())), Err(PoolError::AlreadyInitialized));
    assert_eq!(staked(&custody, ACME), Ok(40));
}

#[test]
fn initialize_with_failed_account_creation_records_nothing() {
    let mut custody = Custody::new(program());
    let ctx = Initialize::accounts(&custody, ACME).unwrap();
    let r = initialize(&mut custody, &ctx, Err(LedgerError::Unfunded));
    assert_eq!(r, Err(PoolError::Ledger(LedgerError::Unfunded)));
    assert_eq!(staked(&custody, ACME), Err(PoolError::NotInitialized));
}

#[test]
fn initialize_rejects_bad_identifier() {
    let custody = Custody::new(program());
    assert!(matches!(Initialize::accounts(&custody, "too-short"), Err(PoolError::InvalidCompanyId)));
}

#[test]
fn deposit_overwrites_staked_amount() {
    let mut custody = initialized(&[ACME]);
    deposit_ok(&mut custody, ACME, 70).unwrap();
    assert_eq!(staked(&custody, ACME), Ok(70));
    deposit_ok(&mut custody, ACME, 30).unwrap();
    assert_eq!(staked(&custody, ACME), Ok(30));
}

#[test]
fn deposit_before_initialize_is_rejected() {
    let mut custody = Custody::new(program());
    assert_eq!(deposit_ok(&mut custody, ACME, 10), Err(PoolError::NotInitialized));
    let (b, p) = bumps(ACME);
    assert!(matches!(TransferAmount::accounts(&custody, ACME, b, p), Err(PoolError::NotInitialized)));
}

#[test]
fn deposit_ledger_failure_keeps_record() {
    let mut custody = initialized(&[ACME]);
    deposit_ok(&mut custody, ACME, 50).unwrap();
    let (b, p) = bumps(ACME);
    let ctx = Deposit::accounts(&custody, ACME, b, p).unwrap();
    let r = deposit(&mut custody, &ctx, 500, Err(LedgerError::InsufficientFunds));
    assert_eq!(r, Err(PoolError::Ledger(LedgerError::InsufficientFunds)));
    assert!(r.unwrap_err().is_insufficient_funds());
    assert!(!r.unwrap_err().is_precondition_violation());
    assert_eq!(staked(&custody, ACME), Ok(50));
    let r = deposit(&mut custody, &ctx, 5, Err(LedgerError::MintMismatch));
    assert_eq!(r, Err(PoolError::Ledger(LedgerError::MintMismatch)));
    assert_eq!(staked(&custody, ACME), Ok(50));
}

#[test]
fn deposit_context_names_the_pool() {
    let custody = initialized(&[ACME]);
    let (b, p) = bumps(ACME);
    let ctx = Deposit::accounts(&custody, ACME, b, p).unwrap();
    assert_eq!(ctx.pool().address, token_transfer::derivation::derive(Tag::Pool, ACME.as_bytes(), &program()).unwrap().address);
    assert_eq!(ctx.company().address, company_address(ACME));
}

#[test]
fn transfer_guard_boundary() {
    let mut custody = initialized(&[ACME]);
    deposit_ok(&mut custody, ACME, 100).unwrap();

    let moved = transfer_of(&custody, ACME, 99).unwrap();
    assert_eq!(moved.amount_moved(), 99);
    match moved {
        Disbursement::Moved(p) => {
            assert_eq!(p.amount, 99);
            assert_eq!(p.authority, company_address(ACME));
            assert_eq!(p.pool, token_transfer::derivation::derive(Tag::Pool, ACME.as_bytes(), &program()).unwrap().address);
            assert_eq!(p.tag, b"company".to_vec());
            assert_eq!(p.company_id, ACME.as_bytes().to_vec());
            let signer = Pubkey::create_program_address(
                &[p.tag.as_slice(), p.company_id.as_slice(), &[p.bump]],
                &Pubkey::new_from_array(program()),
            )
            .unwrap();
            assert_eq!(signer.to_bytes().to_vec(), p.authority);
        }
        Disbursement::Rejected { .. } => panic!("expected a payout"),
    }
    assert_eq!(staked(&custody, ACME), Ok(100));

    let at = transfer_of(&custody, ACME, 100).unwrap();
    assert_eq!(at.amount_moved(), 0);
    assert!(matches!(at, Disbursement::Rejected { staked_amount: 100 }));

    let above = transfer_of(&custody, ACME, 101).unwrap();
    assert_eq!(above.amount_moved(), 0);
    assert!(matches!(above, Disbursement::Rejected { staked_amount: 100 }));
    assert_eq!(staked(&custody, ACME), Ok(100));
}

#[test]
fn transfer_with_nothing_staked_moves_nothing() {
    let custody = initialized(&[ACME]);
    let r = transfer_of(&custody, ACME, 0).unwrap();
    assert!(matches!(r, Disbursement::Rejected { staked_amount: 0 }));
}

#[test]
fn transfer_of_zero_below_stake_moves_zero() {
    let mut custody = initialized(&[ACME]);
    deposit_ok(&mut custody, ACME, 1).unwrap();
    let r = transfer_of(&custody, ACME, 0).unwrap();
    assert!(matches!(r, Disbursement::Moved(_)));
    assert_eq!(r.amount_moved(), 0);
}

#[test]
fn bump_tampering_is_rejected() {
    let mut custody = initialized(&[ACME]);
    deposit_ok(&mut custody, ACME, 100).unwrap();
    let (b, p) = bumps(ACME);
    let wrong = b.wrapping_sub(1);
    let d = Deposit::accounts(&custody, ACME, wrong, p);
    assert!(matches!(d, Err(PoolError::BumpMismatch)));
    assert!(d.err().unwrap().is_precondition_violation());
    assert!(matches!(TransferAmount::accounts(&custody, ACME, wrong, p), Err(PoolError::BumpMismatch)));
    assert!(matches!(
        TransferAmount::accounts(&custody, ACME, b, p.wrapping_add(1)),
        Err(PoolError::BumpMismatch)
    ));
    assert!(matches!(Deposit::accounts(&custody, ACME, b, p.wrapping_sub(1)), Err(PoolError::BumpMismatch)));
    assert_eq!(staked(&custody, ACME), Ok(100));
}

#[test]
fn companies_are_independent() {
    let mut custody = initialized(&[ACME, GLOBEX]);
    deposit_ok(&mut custody, ACME, 500).unwrap();
    assert_eq!(staked(&custody, GLOBEX), Ok(0));
    deposit_ok(&mut custody, GLOBEX, 7).unwrap();
    assert_eq!(staked(&custody, ACME), Ok(500));
    assert_eq!(staked(&custody, GLOBEX), Ok(7));
    assert_eq!(transfer_of(&custody, ACME, 8).unwrap().amount_moved(), 8);
    assert_eq!(transfer_of(&custody, GLOBEX, 8).unwrap().amount_moved(), 0);
    assert_ne!(company_address(ACME), company_address(GLOBEX));
}

#[test]
fn store_create_write_read() {
    let mut custody = Custody::new(program());
    assert_eq!(custody.program_id(), program());
    let key = [7u8; 32];
    assert_eq!(custody.staked_amount(&key), Err(PoolError::NotInitialized));
    assert_eq!(custody.write(&key, 3), Err(PoolError::NotInitialized));
    assert_eq!(custody.create(&key), Ok(()));
    assert_eq!(custody.create(&key), Err(PoolError::AlreadyInitialized));
    assert_eq!(custody.write(&key, u64::MAX), Ok(()));
    assert_eq!(custody.staked_amount(&key), Ok(u64::MAX));
    assert_eq!(custody.parameters(&key), Ok(Parameters { staked_amount: u64::MAX }));
    assert_eq!(custody.parameters(&[8u8; 32]), Err(PoolError::NotInitialized));
}

#[test]
fn same_bytes_compares_contents() {
    assert!(same_bytes(b"abc", b"abc"));
    assert!(!same_bytes(b"abc", b"abd"));
    assert!(!same_bytes(b"abc", b"ab"));
    assert!(same_bytes(b"", b""));
}
