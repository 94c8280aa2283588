//! The rules of the token ledger: who may move tokens, and what a transfer
//! does to the balances.

use vstd::prelude::*;
use crate::address::Address;
use crate::derivation::{signer_address, SignerSeeds};
use crate::error::PoolError;
use crate::pool::{Account, TokenAccount, TokenPool};

verus! {

/// The token account at `address`, if one is there.
pub open spec fn token_at(accounts: Map<Address, Account>, address: Address) -> Option<
    TokenAccount,
> {
    if accounts.contains_key(address) {
        match accounts[address] {
            Account::Token(t) => Some(t),
            _ => None,
        }
    } else {
        None
    }
}

/// The control record at `address`, if one is there.
pub open spec fn pool_at(accounts: Map<Address, Account>, address: Address) -> Option<TokenPool> {
    if accounts.contains_key(address) {
        match accounts[address] {
            Account::Pool(p) => Some(p),
            _ => None,
        }
    } else {
        None
    }
}

/// Whether `address` holds an asset type.
pub open spec fn mint_at(accounts: Map<Address, Account>, address: Address) -> bool {
    accounts.contains_key(address) && accounts[address] == Account::Mint
}

impl TokenAccount {
    /// The same account with another balance.
    pub open spec fn with_amount(self, amount: int) -> TokenAccount {
        TokenAccount { mint: self.mint, owner: self.owner, amount: amount as u64 }
    }
}

/// The accounts of a transfer: tokens go out of `from` into `to`, and
/// `authority` is the address in whose name they are moved.
#[derive(Clone, Copy, Debug, PartialEq, Eq)]
pub struct Transfer {
    pub from: Address,
    pub to: Address,
    pub authority: Address,
}

/// A transfer together with the seeds of the address that the program signs
/// it with, if it signs at all.
#[derive(Clone, Copy, Debug, PartialEq, Eq)]
pub struct TransferCtx {
    pub accounts: Transfer,
    pub signer_seeds: Option<SignerSeeds>,
}

impl TransferCtx {
    /// A transfer that the program does not sign.
    pub fn new(accounts: Transfer) -> (ctx: TransferCtx)
        ensures
            ctx == (TransferCtx { accounts, signer_seeds: None }),
    {
        TransferCtx { accounts, signer_seeds: None }
    }

    /// The same transfer, signed with the address derived from `seeds`.
    pub fn with_signer(self, seeds: SignerSeeds) -> (ctx: TransferCtx)
        ensures
            ctx == (TransferCtx { accounts: self.accounts, signer_seeds: Some(seeds) }),
    {
        TransferCtx { accounts: self.accounts, signer_seeds: Some(seeds) }
    }

    /// The address that signs the transfer, if any: the one derived from the
    /// seeds for the program.
    pub open spec fn signer(self, program: Address) -> Option<Address> {
        match self.signer_seeds {
            Some(seeds) => signer_address(seeds, program),
            None => None,
        }
    }
}

/// Whether the ledger carries out `transfer` of `amount` tokens, signed by
/// `signer`. Both accounts must exist; the signer must be the authority named
/// in the transfer, and that authority the owner of the account debited; and
/// the account debited must hold the amount.
pub open spec fn transfer_outcome(
    accounts: Map<Address, Account>,
    transfer: Transfer,
    signer: Option<Address>,
    amount: u64,
) -> Result<(), PoolError> {
    if token_at(accounts, transfer.from) is None || token_at(accounts, transfer.to) is None {
        Err(PoolError::NotFound)
    } else if signer != Some(transfer.authority) || token_at(accounts, transfer.from).unwrap().owner
        != transfer.authority {
        Err(PoolError::Unauthorized)
    } else if token_at(accounts, transfer.from).unwrap().amount < amount {
        Err(PoolError::InsufficientFunds)
    } else {
        Ok(())
    }
}

/// The accounts after `amount` tokens have gone from `transfer.from` to
/// `transfer.to`.
pub open spec fn transferred(accounts: Map<Address, Account>, transfer: Transfer, amount: u64) -> Map<
    Address,
    Account,
> {
    let from = token_at(accounts, transfer.from).unwrap();
    let debited = accounts.insert(
        transfer.from,
        Account::Token(from.with_amount(from.amount - amount)),
    );
    let to = token_at(debited, transfer.to).unwrap();
    debited.insert(transfer.to, Account::Token(to.with_amount(to.amount + amount)))
}

} // verus!
