//! A custodial token vault whose withdrawal authority is a program-derived
//! address, in two variants: one that trusts what the caller supplies, and one
//! that binds the control record to the destination it serves.

pub mod address;
pub mod derivation;
pub mod error;
pub mod pool;
mod storage;
pub mod ledger;
pub mod bank;
pub mod accounts;
pub mod instructions;
pub mod laws;

pub use crate::accounts::{
    get_secure_transfer_ctx,
    get_transfer_ctx,
    InitializePool,
    InitializePoolSecure,
    WithdrawTokens,
    WithdrawTokensSecure,
};
pub use crate::address::Address;
pub use crate::bank::Bank;
pub use crate::error::PoolError;
pub use crate::instructions::{
    initialize_pool,
    initialize_pool_at,
    initialize_pool_secure,
    withdraw_insecure,
    withdraw_secure,
};
pub use crate::pool::{Account, TokenAccount, TokenPool};
