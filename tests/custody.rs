use std::str::FromStr;

use anchor_lang::prelude::Pubkey;
use sol_pool::address::{derive_address, same_address, verify, Address, Derivation};
use sol_pool::{AuthorityProof, DepositSol, ErrorCode, InitializePool, PoolAccount, WithdrawSol};
use sol_pool::{CUSTODY_TAG, RECORD_TAG};

fn program_id() -> Address {
    Pubkey::from_str("9jLswiME9Pz1umwhaf24awUCcbmUYDXQuvqkGnCUcM5w").unwrap().to_bytes()
}

fn user(seed: u8) -> Address {
    let mut a = [0u8; 32];
    for (i, b) in a.iter_mut().enumerate() {
        *b = seed.wrapping_mul(31).wrapping_add(i as u8);
    }
    a
}

fn custody_of(owner: &Address) -> Derivation {
    derive_address(CUSTODY_TAG.as_bytes(), owner, &program_id()).unwrap()
}

fn record_of(owner: &Address) -> Address {
    derive_address(RECORD_TAG.as_bytes(), owner, &program_id()).unwrap().address
}

fn deposit_ctx(owner: &Address, balance: u64) -> DepositSol {
    DepositSol {
        program_id: program_id(),
        user: *owner,
        pool_account_address: record_of(owner),
        pool_account: PoolAccount { sol_balance: balance },
        pool_sol_account: custody_of(owner).address,
    }
}

fn withdraw_ctx(owner: &Address, balance: u64) -> WithdrawSol {
    WithdrawSol {
        program_id: program_id(),
        user: *owner,
        pool_account_address: record_of(owner),
        pool_account: PoolAccount { sol_balance: balance },
        pool_sol_account: custody_of(owner).address,
    }
}

fn init_ctx(owner: &Address, record: Option<PoolAccount>) -> InitializePool {
    InitializePool {
        program_id: program_id(),
        user: *owner,
        pool_account_address: record_of(owner),
        pool_account: record,
        pool_sol_account: custody_of(owner).address,
    }
}

fn deposit(owner: &Address, balance: u64, amount: u64) -> Result<u64, ErrorCode> {
    let plan = sol_pool::deposit_sol(&deposit_ctx(owner, balance), amount)?;
    plan.settle(Ok(())).map(|p| p.sol_balance)
}

fn withdraw(owner: &Address, balance: u64, amount: u64) -> Result<u64, ErrorCode> {
    let plan = sol_pool::withdraw_sol(&withdraw_ctx(owner, balance), amount)?;
    plan.settle(Ok(())).map(|p| p.sol_balance)
}

#[test]
fn derivation_matches_find_program_address() {
    let owner = user(1);
    let d = custody_of(&owner);
    let program = Pubkey::new_from_array(program_id());
    let (expected, bump) =
        Pubkey::find_program_address(&[b"pool_sol_account", owner.as_ref()], &program);
    assert_eq!(d.address, expected.to_bytes());
    assert_eq!(d.discriminant, bump);
    assert_ne!(d.address, owner);
    assert_ne!(d.address, program_id());
}

#[test]
fn derivation_is_deterministic() {
    let owner = user(2);
    let a = derive_address(CUSTODY_TAG.as_bytes(), &owner, &program_id());
    let b = derive_address(CUSTODY_TAG.as_bytes(), &owner, &program_id());
    assert_eq!(a, b);
    assert!(a.is_ok());
}

#[test]
fn tags_separate_record_and_custody() {
    let owner = user(3);
    assert_ne!(record_of(&owner), custody_of(&owner).address);
    assert_ne!(custody_of(&owner).address, custody_of(&user(4)).address);
}

#[test]
fn verify_accepts_derived_and_refuses_any_bit_flip() {
    let owner = user(5);
    let d = custody_of(&owner);
    assert!(verify(CUSTODY_TAG.as_bytes(), &owner, &program_id(), &d.address));
    for byte in 0..32 {
        for bit in 0..8 {
            let mut c = d.address;
            c[byte] ^= 1 << bit;
            assert!(!verify(CUSTODY_TAG.as_bytes(), &owner, &program_id(), &c));
        }
    }
    assert!(!verify(RECORD_TAG.as_bytes(), &owner, &program_id(), &d.address));
    assert!(!verify(CUSTODY_TAG.as_bytes(), &user(6), &program_id(), &d.address));
}

#[test]
fn same_address_compares_every_byte() {
    let a = user(7);
    let mut b = a;
    assert!(same_address(&a, &b));
    b[31] ^= 0x80;
    assert!(!same_address(&a, &b));
}

#[test]
fn initialize_deposit_withdraw_round_trip() {
    let owner = user(8);
    let plan = sol_pool::initialize_pool(&init_ctx(&owner, None), 1000).unwrap();
    let t = plan.transfer();
    assert_eq!(t.from, owner);
    assert_eq!(t.to, custody_of(&owner).address);
    assert_eq!(t.lamports, 1000);
    assert!(t.authority.is_none());
    let record = plan.settle(Ok(())).unwrap();
    assert_eq!(record, PoolAccount { sol_balance: 1000 });

    assert_eq!(deposit(&owner, record.sol_balance, 500), Ok(1500));
    assert_eq!(withdraw(&owner, 1500, 1500), Ok(0));
    assert_eq!(
        withdraw(&owner, 0, 1),
        Err(ErrorCode::InsufficientFunds { available: 0, requested: 1 })
    );
}

#[test]
fn initialize_on_existing_record_deposits() {
    let owner = user(9);
    let existing = Some(PoolAccount { sol_balance: 250 });
    let plan = sol_pool::initialize_pool(&init_ctx(&owner, existing), 100).unwrap();
    assert_eq!(plan.balance_after(), 350);
    let overflowing = Some(PoolAccount { sol_balance: u64::MAX });
    assert_eq!(
        sol_pool::initialize_pool(&init_ctx(&owner, overflowing), 1).unwrap_err(),
        ErrorCode::Overflow
    );
}

#[test]
fn withdraw_beyond_balance_is_refused() {
    let owner = user(10);
    assert_eq!(
        sol_pool::withdraw_sol(&withdraw_ctx(&owner, 500), 700).unwrap_err(),
        ErrorCode::InsufficientFunds { available: 500, requested: 700 }
    );
    assert_eq!(withdraw(&owner, 500, 500), Ok(0));
}

#[test]
fn deposit_past_u64_max_overflows() {
    let owner = user(11);
    assert_eq!(deposit(&owner, u64::MAX - 10, 11), Err(ErrorCode::Overflow));
    assert_eq!(deposit(&owner, u64::MAX - 10, 10), Ok(u64::MAX));
    assert_eq!(deposit(&owner, u64::MAX, u64::MAX), Err(ErrorCode::Overflow));
}

#[test]
fn wrong_addresses_are_refused() {
    let owner = user(12);
    let mut ctx = deposit_ctx(&owner, 0);
    ctx.pool_sol_account = custody_of(&user(13)).address;
    assert_eq!(sol_pool::deposit_sol(&ctx, 5).unwrap_err(), ErrorCode::AddressMismatch);

    let mut ctx = withdraw_ctx(&owner, 100);
    ctx.pool_account_address = ctx.pool_sol_account;
    assert_eq!(sol_pool::withdraw_sol(&ctx, 5).unwrap_err(), ErrorCode::AddressMismatch);

    let mut ctx = withdraw_ctx(&owner, 100);
    ctx.pool_sol_account[0] ^= 1;
    assert_eq!(sol_pool::withdraw_sol(&ctx, 500).unwrap_err(), ErrorCode::AddressMismatch);

    let mut ctx = init_ctx(&owner, None);
    ctx.program_id = user(14);
    assert_eq!(sol_pool::initialize_pool(&ctx, 5).unwrap_err(), ErrorCode::AddressMismatch);
}

#[test]
fn ledger_failure_is_passed_on() {
    let owner = user(15);
    let plan = sol_pool::deposit_sol(&deposit_ctx(&owner, 40), 2).unwrap();
    assert_eq!(plan.balance_after(), 42);
    assert_eq!(plan.settle(Err(17)), Err(ErrorCode::LedgerMovementFailure { code: 17 }));
}

#[test]
fn balance_is_deposits_minus_withdrawals() {
    let owner = user(16);
    let deposits = [300u64, 45, 1000, 7];
    let withdrawals = [100u64, 45, 900];
    let mut balance = 0u64;
    balance = deposit(&owner, balance, deposits[0]).unwrap();
    balance = withdraw(&owner, balance, withdrawals[0]).unwrap();
    balance = deposit(&owner, balance, deposits[1]).unwrap();
    balance = deposit(&owner, balance, deposits[2]).unwrap();
    balance = withdraw(&owner, balance, withdrawals[1]).unwrap();
    balance = withdraw(&owner, balance, withdrawals[2]).unwrap();
    balance = deposit(&owner, balance, deposits[3]).unwrap();
    let net = deposits.iter().sum::<u64>() - withdrawals.iter().sum::<u64>();
    assert_eq!(balance, net);
    assert_eq!(balance, 307);
}

/// A stand-in for the ledger: it accepts an authority proof only where the
/// proof's seeds are exactly the ones it expects for the address.
fn stub_ledger_accepts(proof: &AuthorityProof, tag: &[u8], owner: &Address, discriminant: u8) -> bool {
    proof.tag() == tag && proof.owner() == *owner && proof.discriminant() == discriminant
}

#[test]
fn withdrawal_proof_reproduces_the_derivation() {
    let owner = user(17);
    let d = custody_of(&owner);
    let plan = sol_pool::withdraw_sol(&withdraw_ctx(&owner, 900), 400).unwrap();
    let t = plan.transfer();
    assert_eq!(t.from, d.address);
    assert_eq!(t.to, owner);
    assert_eq!(t.lamports, 400);
    assert_eq!(plan.balance_after(), 500);
    let proof = t.authority.unwrap();
    assert_eq!(proof.tag(), b"pool_sol_account");
    assert_eq!(proof.owner(), owner);
    assert_eq!(proof.discriminant(), d.discriminant);

    assert!(stub_ledger_accepts(&proof, CUSTODY_TAG.as_bytes(), &owner, d.discriminant));
    assert!(!stub_ledger_accepts(&proof, RECORD_TAG.as_bytes(), &owner, d.discriminant));
    assert!(!stub_ledger_accepts(&proof, CUSTODY_TAG.as_bytes(), &user(18), d.discriminant));
    assert!(!stub_ledger_accepts(
        &proof,
        CUSTODY_TAG.as_bytes(),
        &owner,
        d.discriminant.wrapping_sub(1)
    ));
}

#[test]
fn withdrawal_proof_authorizes_only_its_custody_address() {
    let owner = user(19);
    let d = custody_of(&owner);
    let plan = sol_pool::withdraw_sol(&withdraw_ctx(&owner, 10), 10).unwrap();
    let proof = plan.transfer().authority.unwrap();
    assert!(proof.authorizes(&program_id(), &d.address));
    assert!(!proof.authorizes(&program_id(), &record_of(&owner)));
    assert!(!proof.authorizes(&program_id(), &owner));
    assert!(!proof.authorizes(&user(20), &d.address));
}
