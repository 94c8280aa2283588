//! The control record of a vault, and the accounts it is stored beside.

use vstd::prelude::*;
use crate::address::Address;

verus! {

/// The control record of one vault.
#[derive(Clone, Copy, Debug, PartialEq, Eq)]
pub struct TokenPool {
    /// The token account that the record controls.
    pub vault: Address,
    /// The asset that the vault holds.
    pub mint: Address,
    /// The token account that withdrawn funds go to.
    pub withdraw_destination: Address,
    /// The bump seed with which the signer of the vault is derived.
    pub bump: u8,
}

/// An account of the token ledger.
#[derive(Clone, Copy, Debug, PartialEq, Eq)]
pub struct TokenAccount {
    /// The asset that the account holds.
    pub mint: Address,
    /// The address that may authorize transfers out of the account.
    pub owner: Address,
    /// The balance.
    pub amount: u64,
}

/// What is stored at an address.
#[derive(Clone, Copy, Debug, PartialEq, Eq)]
pub enum Account {
    /// An asset type.
    Mint,
    /// A token account.
    Token(TokenAccount),
    /// A control record.
    Pool(TokenPool),
}

impl Account {
    /// The tokens that the account holds: its balance if it is a token
    /// account, nothing otherwise.
    pub open spec fn balance(self) -> nat {
        match self {
            Account::Token(t) => t.amount as nat,
            _ => 0,
        }
    }
}

} // verus!
