use vstd::prelude::*;
use vstd::string::StringSliceAdditionalSpecFns;

use crate::address::{
    derive_address, is_canonical, is_custody_address, lemma_custody_address_is_derived,
    lemma_exhausted_verifies_nothing, same_address, verify, Address,
};
use crate::authority::{AuthorityProof, CUSTODY_TAG, RECORD_TAG};

verus! {

/// The balance record of one owner: the value held in custody for them, in the
/// ledger's smallest unit.
#[derive(Clone, Copy, Debug, PartialEq, Eq, Structural)]
pub struct PoolAccount {
    pub sol_balance: u64,
}

/// Why an operation was refused. Each one leaves the record and the external
/// funds as they were.
#[derive(Clone, Copy, Debug, PartialEq, Eq, Structural)]
pub enum ErrorCode {
    /// A withdrawal asked for more than the record holds.
    InsufficientFunds { available: u64, requested: u64 },
    /// A deposit would take the balance past `u64::MAX`.
    Overflow,
    /// A supplied record or custody address is not the one derived for the owner.
    AddressMismatch,
    /// The ledger refused the movement; its error code is passed on unchanged.
    LedgerMovementFailure { code: u64 },
}

/// The accounts of a first deposit: the record may not exist yet.
#[derive(Clone, Copy, Debug)]
pub struct InitializePool {
    pub program_id: Address,
    pub user: Address,
    pub pool_account_address: Address,
    pub pool_account: Option<PoolAccount>,
    pub pool_sol_account: Address,
}

/// The accounts of a deposit.
#[derive(Clone, Copy, Debug)]
pub struct DepositSol {
    pub program_id: Address,
    pub user: Address,
    pub pool_account_address: Address,
    pub pool_account: PoolAccount,
    pub pool_sol_account: Address,
}

/// The accounts of a withdrawal.
#[derive(Clone, Copy, Debug)]
pub struct WithdrawSol {
    pub program_id: Address,
    pub user: Address,
    pub pool_account_address: Address,
    pub pool_account: PoolAccount,
    pub pool_sol_account: Address,
}

/// A movement of `lamports` from `from` to `to` for the ledger to carry out.
/// Without an authority proof the holder of `from` signs; with one, the
/// program vouches for `from` by its seeds.
#[derive(Clone, Copy, Debug)]
pub struct Transfer {
    pub from: Address,
    pub to: Address,
    pub lamports: u64,
    pub authority: Option<AuthorityProof>,
}

/// An operation that passed every check: the movement to perform, and the
/// balance that the record takes once the ledger has performed it.
#[derive(Clone, Copy, Debug)]
pub struct Plan {
    transfer: Transfer,
    balance_after: u64,
}

/// The address relations that every operation checks: the record and the
/// custody address are those derived for the owner under the program.
pub open spec fn accounts_match(
    program_id: Seq<u8>,
    user: Seq<u8>,
    record: Seq<u8>,
    custody: Seq<u8>,
) -> bool {
    &&& is_custody_address(RECORD_TAG.spec_bytes(), user, program_id, record)
    &&& is_custody_address(CUSTODY_TAG.spec_bytes(), user, program_id, custody)
}

/// One successful step of an owner's history.
pub enum Entry {
    Deposit(u64),
    Withdrawal(u64),
}

/// The balance after `entry` is applied to `balance`, or `None` where the
/// entry is refused: a deposit past `u64::MAX`, a withdrawal past the balance.
pub open spec fn apply_entry(balance: int, entry: Entry) -> Option<int> {
    match entry {
        Entry::Deposit(a) => if balance + a <= u64::MAX {
            Some(balance + a)
        } else {
            None
        },
        Entry::Withdrawal(a) => if a <= balance {
            Some(balance - a)
        } else {
            None
        },
    }
}

/// The balance of a record created empty after `entries` in order, or `None`
/// where one of them is refused.
pub open spec fn replay(entries: Seq<Entry>) -> Option<int>
    decreases entries.len(),
{
    if entries.len() == 0 {
        Some(0)
    } else {
        match replay(entries.drop_last()) {
            Some(b) => apply_entry(b, entries.last()),
            None => None,
        }
    }
}

/// Everything deposited in `entries` minus everything withdrawn.
pub open spec fn net_flow(entries: Seq<Entry>) -> int
    decreases entries.len(),
{
    if entries.len() == 0 {
        0
    } else {
        net_flow(entries.drop_last()) + match entries.last() {
            Entry::Deposit(a) => a as int,
            Entry::Withdrawal(a) => -(a as int),
        }
    }
}

/// Where every entry of a history is accepted in turn, the balance is the sum
/// of the deposits minus the sum of the withdrawals.
pub proof fn lemma_balance_is_net_flow(entries: Seq<Entry>)
    requires
        replay(entries) is Some,
    ensures
        replay(entries) == Some(net_flow(entries)),
    decreases entries.len(),
{
    if entries.len() > 0 {
        lemma_balance_is_net_flow(entries.drop_last());
    }
}

impl Plan {
    pub closed spec fn spec_transfer(&self) -> Transfer {
        self.transfer
    }

    pub closed spec fn spec_balance_after(&self) -> u64 {
        self.balance_after
    }

    /// The movement that the ledger is to perform.
    pub fn transfer(&self) -> (r: Transfer)
        ensures
            r == self.spec_transfer(),
    {
        self.transfer
    }

    /// The balance that the record takes once the movement is done.
    pub fn balance_after(&self) -> (r: u64)
        ensures
            r == self.spec_balance_after(),
    {
        self.balance_after
    }

    /// The record after the ledger reported `outcome` for the movement: the
    /// planned balance where it succeeded, its error code passed on where not.
    pub fn settle(self, outcome: Result<(), u64>) -> (r: Result<PoolAccount, ErrorCode>)
        ensures
            outcome is Ok ==> r == Ok::<PoolAccount, ErrorCode>(
                (PoolAccount { sol_balance: self.spec_balance_after() }),
            ),
            outcome is Err ==> r == Err::<PoolAccount, ErrorCode>(
                (ErrorCode::LedgerMovementFailure { code: outcome->Err_0 }),
            ),
    {
        match outcome {
            Ok(()) => Ok(PoolAccount { sol_balance: self.balance_after }),
            Err(code) => Err(ErrorCode::LedgerMovementFailure { code }),
        }
    }
}

/// Whether `record` and `custody` are the addresses derived for `user` under
/// `program_id`.
pub fn check_accounts(
    program_id: &Address,
    user: &Address,
    record: &Address,
    custody: &Address,
) -> (r: bool)
    ensures
        r == accounts_match(program_id@, user@, record@, custody@),
{
    verify(RECORD_TAG.as_bytes(), user, program_id, record) && verify(
        CUSTODY_TAG.as_bytes(),
        user,
        program_id,
        custody,
    )
}

/// Plans a movement of `sol_amount` from `user` into `custody` on top of
/// `balance`.
fn plan_deposit(
    program_id: &Address,
    user: &Address,
    record: &Address,
    custody: &Address,
    balance: u64,
    sol_amount: u64,
) -> (r: Result<Plan, ErrorCode>)
    ensures
        !accounts_match(program_id@, user@, record@, custody@) ==> r == Err::<Plan, ErrorCode>(
            ErrorCode::AddressMismatch,
        ),
        accounts_match(program_id@, user@, record@, custody@) ==> match apply_entry(
            balance as int,
            Entry::Deposit(sol_amount),
        ) {
            None => r == Err::<Plan, ErrorCode>(ErrorCode::Overflow),
            Some(b) => r is Ok && deposit_planned(r->Ok_0, user, custody, sol_amount, b),
        },
{
    if !check_accounts(program_id, user, record, custody) {
        return Err(ErrorCode::AddressMismatch);
    }
    match balance.checked_add(sol_amount) {
        None => Err(ErrorCode::Overflow),
        Some(b) => Ok(
            Plan {
                transfer: Transfer { from: *user, to: *custody, lamports: sol_amount, authority: None },
                balance_after: b,
            },
        ),
    }
}

/// `plan` moves `sol_amount` from `user` into `custody`, signed by `user`,
/// and then sets the balance to `balance_after`.
pub open spec fn deposit_planned(
    plan: Plan,
    user: &Address,
    custody: &Address,
    sol_amount: u64,
    balance_after: int,
) -> bool {
    &&& plan.spec_transfer().from@ == user@
    &&& plan.spec_transfer().to@ == custody@
    &&& plan.spec_transfer().lamports == sol_amount
    &&& plan.spec_transfer().authority is None
    &&& plan.spec_balance_after() == balance_after
}

/// `plan` moves `sol_amount` out of `custody` to `user` on the authority of
/// the derivation of `custody`, and then sets the balance to `balance_after`.
pub open spec fn withdrawal_planned(
    plan: Plan,
    program_id: &Address,
    user: &Address,
    custody: &Address,
    sol_amount: u64,
    balance_after: int,
) -> bool {
    &&& plan.spec_transfer().from@ == custody@
    &&& plan.spec_transfer().to@ == user@
    &&& plan.spec_transfer().lamports == sol_amount
    &&& plan.spec_transfer().authority is Some
    &&& plan.spec_transfer().authority->Some_0.spec_owner() == user@
    &&& is_canonical(
        CUSTODY_TAG.spec_bytes(),
        user@,
        program_id@,
        plan.spec_transfer().authority->Some_0.spec_discriminant(),
        custody@,
    )
    &&& plan.spec_balance_after() == balance_after
}

/// Plans a first deposit of `sol_amount`. A record that does not exist yet
/// counts as empty; one that exists is deposited into as by `deposit_sol`.
pub fn initialize_pool(ctx: &InitializePool, sol_amount: u64) -> (r: Result<Plan, ErrorCode>)
    ensures
        ({
            let balance: int = match ctx.pool_account {
                Some(p) => p.sol_balance as int,
                None => 0,
            };
            &&& !accounts_match(
                ctx.program_id@,
                ctx.user@,
                ctx.pool_account_address@,
                ctx.pool_sol_account@,
            ) ==> r == Err::<Plan, ErrorCode>(ErrorCode::AddressMismatch)
            &&& accounts_match(
                ctx.program_id@,
                ctx.user@,
                ctx.pool_account_address@,
                ctx.pool_sol_account@,
            ) ==> match apply_entry(balance, Entry::Deposit(sol_amount)) {
                None => r == Err::<Plan, ErrorCode>(ErrorCode::Overflow),
                Some(b) => r is Ok && deposit_planned(
                    r->Ok_0,
                    &ctx.user,
                    &ctx.pool_sol_account,
                    sol_amount,
                    b,
                ),
            }
        }),
{
    let balance: u64 = match ctx.pool_account {
        Some(p) => p.sol_balance,
        None => 0,
    };
    plan_deposit(
        &ctx.program_id,
        &ctx.user,
        &ctx.pool_account_address,
        &ctx.pool_sol_account,
        balance,
        sol_amount,
    )
}

/// Plans a deposit of `sol_amount` into the custody of `ctx.user`. The
/// overflow check comes before any movement is planned.
pub fn deposit_sol(ctx: &DepositSol, sol_amount: u64) -> (r: Result<Plan, ErrorCode>)
    ensures
        !accounts_match(
            ctx.program_id@,
            ctx.user@,
            ctx.pool_account_address@,
            ctx.pool_sol_account@,
        ) ==> r == Err::<Plan, ErrorCode>(ErrorCode::AddressMismatch),
        accounts_match(
            ctx.program_id@,
            ctx.user@,
            ctx.pool_account_address@,
            ctx.pool_sol_account@,
        ) ==> match apply_entry(ctx.pool_account.sol_balance as int, Entry::Deposit(sol_amount)) {
            None => r == Err::<Plan, ErrorCode>(ErrorCode::Overflow),
            Some(b) => r is Ok && deposit_planned(
                r->Ok_0,
                &ctx.user,
                &ctx.pool_sol_account,
                sol_amount,
                b,
            ),
        },
{
    plan_deposit(
        &ctx.program_id,
        &ctx.user,
        &ctx.pool_account_address,
        &ctx.pool_sol_account,
        ctx.pool_account.sol_balance,
        sol_amount,
    )
}

/// Plans a withdrawal of `sol_amount` from the custody of `ctx.user`, carrying
/// the authority proof that reproduces the custody address's derivation.
pub fn withdraw_sol(ctx: &WithdrawSol, sol_amount: u64) -> (r: Result<Plan, ErrorCode>)
    ensures
        !accounts_match(
            ctx.program_id@,
            ctx.user@,
            ctx.pool_account_address@,
            ctx.pool_sol_account@,
        ) ==> r == Err::<Plan, ErrorCode>(ErrorCode::AddressMismatch),
        accounts_match(
            ctx.program_id@,
            ctx.user@,
            ctx.pool_account_address@,
            ctx.pool_sol_account@,
        ) ==> match apply_entry(
            ctx.pool_account.sol_balance as int,
            Entry::Withdrawal(sol_amount),
        ) {
            None => r == Err::<Plan, ErrorCode>(
                (ErrorCode::InsufficientFunds {
                    available: ctx.pool_account.sol_balance,
                    requested: sol_amount,
                }),
            ),
            Some(b) => r is Ok && withdrawal_planned(
                r->Ok_0,
                &ctx.program_id,
                &ctx.user,
                &ctx.pool_sol_account,
                sol_amount,
                b,
            ),
        },
{
    if !verify(RECORD_TAG.as_bytes(), &ctx.user, &ctx.program_id, &ctx.pool_account_address) {
        return Err(ErrorCode::AddressMismatch);
    }
    let custody = match derive_address(CUSTODY_TAG.as_bytes(), &ctx.user, &ctx.program_id) {
        Ok(d) => d,
        Err(_) => {
            proof {
                lemma_exhausted_verifies_nothing(
                    CUSTODY_TAG.spec_bytes(),
                    ctx.user@,
                    ctx.program_id@,
                );
            }
            return Err(ErrorCode::AddressMismatch);
        },
    };
    proof {
        lemma_custody_address_is_derived(
            CUSTODY_TAG.spec_bytes(),
            ctx.user@,
            ctx.program_id@,
            custody.discriminant,
            custody.address@,
        );
    }
    if !same_address(&custody.address, &ctx.pool_sol_account) {
        return Err(ErrorCode::AddressMismatch);
    }
    let balance: u64 = ctx.pool_account.sol_balance;
    if balance < sol_amount {
        return Err(ErrorCode::InsufficientFunds { available: balance, requested: sol_amount });
    }
    let authority = AuthorityProof::for_custody(ctx.user, custody.discriminant);
    Ok(
        Plan {
            transfer: Transfer {
                from: ctx.pool_sol_account,
                to: ctx.user,
                lamports: sol_amount,
                authority: Some(authority),
            },
            balance_after: balance - sol_amount,
        },
    )
}

} // verus!
