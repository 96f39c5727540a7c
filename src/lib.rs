//! Custody of a native asset at program-derived addresses: derivation and
//! verification of custody addresses, and the balance controller that plans
//! deposits and withdrawals and settles them against the ledger's outcome.

pub mod address;
pub mod authority;
pub mod pool;

pub use address::{derive_address, verify, Address, DeriveError, Derivation};
pub use authority::{AuthorityProof, CUSTODY_TAG, RECORD_TAG};
pub use pool::{
    deposit_sol, initialize_pool, withdraw_sol, DepositSol, ErrorCode, InitializePool, Plan,
    PoolAccount, Transfer, WithdrawSol,
};
