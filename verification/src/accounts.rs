//! The accounts that a caller presents to each operation, and what each
//! operation requires of them.

use vstd::prelude::*;
use crate::address::Address;
use crate::bank::Bank;
use crate::derivation::{derived_address, signer_address, SignerSeeds};
use crate::error::PoolError;
use crate::ledger::{mint_at, pool_at, token_at, transfer_outcome, Transfer, TransferCtx};
use crate::pool::{Account, TokenAccount, TokenPool};

verus! {

/// The accounts of the naive initialization. Nothing relates them: the
/// caller chooses where the control record goes and what it names.
#[derive(Clone, Copy, Debug, PartialEq, Eq)]
pub struct InitializePool {
    /// Where the control record is to be created.
    pub pool: Address,
    pub mint: Address,
    pub vault: Address,
    pub withdraw_destination: Address,
}

/// The accounts of the bound initialization. The control record goes to the
/// address derived from `withdraw_destination`, and `vault` is created with
/// that address as its owner.
#[derive(Clone, Copy, Debug, PartialEq, Eq)]
pub struct InitializePoolSecure {
    pub mint: Address,
    /// Where the vault is to be created.
    pub vault: Address,
    pub withdraw_destination: Address,
}

/// The accounts of the naive withdrawal. `authority` is the address in whose
/// name the tokens are moved; nothing ties it to the control record.
#[derive(Clone, Copy, Debug, PartialEq, Eq)]
pub struct WithdrawTokens {
    pub pool: Address,
    pub vault: Address,
    pub withdraw_destination: Address,
    pub authority: Address,
}

/// The accounts of the bound withdrawal. The control record itself is the
/// authority.
#[derive(Clone, Copy, Debug, PartialEq, Eq)]
pub struct WithdrawTokensSecure {
    pub pool: Address,
    pub vault: Address,
    pub withdraw_destination: Address,
}

impl InitializePool {
    /// The control record that the naive initialization stores: the
    /// addresses and the bump seed as the caller gave them.
    pub open spec fn record(self, bump: u8) -> TokenPool {
        TokenPool {
            vault: self.vault,
            mint: self.mint,
            withdraw_destination: self.withdraw_destination,
            bump,
        }
    }

    /// Makes the control record of the naive initialization.
    pub fn new_record(&self, bump: u8) -> (record: TokenPool)
        ensures
            record == self.record(bump),
    {
        TokenPool {
            vault: self.vault,
            mint: self.mint,
            withdraw_destination: self.withdraw_destination,
            bump,
        }
    }

    /// Whether the naive initialization succeeds: it does unless the address
    /// chosen for the control record is taken.
    pub open spec fn outcome(self, accounts: Map<Address, Account>) -> Result<(), PoolError> {
        if accounts.contains_key(self.pool) {
            Err(PoolError::AlreadyInitialized)
        } else {
            Ok(())
        }
    }

    /// The accounts after the naive initialization has succeeded.
    pub open spec fn created(self, accounts: Map<Address, Account>, bump: u8) -> Map<
        Address,
        Account,
    > {
        accounts.insert(self.pool, Account::Pool(self.record(bump)))
    }
}

impl InitializePoolSecure {
    /// The control record that the bound initialization stores.
    pub open spec fn record(self, bump: u8) -> TokenPool {
        TokenPool {
            vault: self.vault,
            mint: self.mint,
            withdraw_destination: self.withdraw_destination,
            bump,
        }
    }

    /// The vault that the bound initialization creates: empty, and owned by
    /// the control record at `pool`.
    pub open spec fn fresh_vault(self, pool: Address) -> TokenAccount {
        TokenAccount { mint: self.mint, owner: pool, amount: 0 }
    }

    /// Makes the control record of the bound initialization.
    pub fn new_record(&self, bump: u8) -> (record: TokenPool)
        ensures
            record == self.record(bump),
    {
        TokenPool {
            vault: self.vault,
            mint: self.mint,
            withdraw_destination: self.withdraw_destination,
            bump,
        }
    }

    /// Makes the vault of the bound initialization.
    pub fn new_vault(&self, pool: Address) -> (vault: TokenAccount)
        ensures
            vault == self.fresh_vault(pool),
    {
        TokenAccount { mint: self.mint, owner: pool, amount: 0 }
    }

    /// Whether the bound initialization succeeds, given what the derivation
    /// from the destination returned, and at which address the control
    /// record then stands.
    pub open spec fn outcome(
        self,
        accounts: Map<Address, Account>,
        derived: Option<(Address, u8)>,
    ) -> Result<Address, PoolError> {
        match derived {
            None => Err(PoolError::DerivationMismatch),
            Some((pool, bump)) => {
                if accounts.contains_key(pool) {
                    Err(PoolError::AlreadyInitialized)
                } else if !mint_at(accounts, self.mint) {
                    Err(PoolError::NotFound)
                } else if self.vault == pool || accounts.contains_key(self.vault) {
                    Err(PoolError::AlreadyInitialized)
                } else if token_at(accounts, self.withdraw_destination) is None {
                    Err(PoolError::NotFound)
                } else {
                    Ok(pool)
                }
            },
        }
    }

    /// The accounts after the bound initialization has created the control
    /// record at `pool` with the bump seed `bump`.
    pub open spec fn created(self, accounts: Map<Address, Account>, pool: Address, bump: u8) -> Map<
        Address,
        Account,
    > {
        accounts.insert(pool, Account::Pool(self.record(bump))).insert(
            self.vault,
            Account::Token(self.fresh_vault(pool)),
        )
    }
}

impl WithdrawTokens {
    /// The transfer that the naive withdrawal asks for.
    pub open spec fn transfer(self) -> Transfer {
        Transfer { from: self.vault, to: self.withdraw_destination, authority: self.authority }
    }

    /// What the naive withdrawal requires of the accounts: that the control
    /// record and the vault exist. It gives the record and the balance of the
    /// vault.
    pub open spec fn checked(self, accounts: Map<Address, Account>) -> Result<
        (TokenPool, u64),
        PoolError,
    > {
        match (pool_at(accounts, self.pool), token_at(accounts, self.vault)) {
            (Some(record), Some(vault)) => Ok((record, vault.amount)),
            _ => Err(PoolError::NotFound),
        }
    }

    /// Whether the naive withdrawal succeeds. The accounts must exist, and
    /// the ledger must accept the transfer of the whole balance of the vault,
    /// signed by the address derived from the asset and the bump seed that
    /// the control record holds.
    pub open spec fn outcome(self, program: Address, accounts: Map<Address, Account>) -> Result<
        (),
        PoolError,
    > {
        match self.checked(accounts) {
            Err(e) => Err(e),
            Ok((record, amount)) => transfer_outcome(
                accounts,
                self.transfer(),
                signer_address(SignerSeeds { seed: record.mint, bump: record.bump }, program),
                amount,
            ),
        }
    }

    /// Looks the accounts up in `bank`.
    pub fn validate(&self, bank: &Bank) -> (r: Result<(TokenPool, u64), PoolError>)
        requires
            bank.wf(),
        ensures
            r == self.checked(bank@),
    {
        let record = match bank.account(&self.pool) {
            Some(Account::Pool(p)) => p,
            _ => {
                return Err(PoolError::NotFound);
            },
        };
        match bank.account(&self.vault) {
            Some(Account::Token(t)) => Ok((record, t.amount)),
            _ => Err(PoolError::NotFound),
        }
    }
}

impl WithdrawTokensSecure {
    /// The transfer that the bound withdrawal asks for: the control record is
    /// the authority.
    pub open spec fn transfer(self) -> Transfer {
        Transfer { from: self.vault, to: self.withdraw_destination, authority: self.pool }
    }

    /// What the bound withdrawal requires of the control record, given what
    /// the derivation from the destination returned: that the record names
    /// this vault and this destination, and that the derivation gives the
    /// address of the record and the bump seed it stores.
    pub open spec fn permitted(self, record: TokenPool, derived: Option<(Address, u8)>) -> Result<
        (),
        PoolError,
    > {
        if record.vault != self.vault || record.withdraw_destination != self.withdraw_destination {
            Err(PoolError::ConstraintViolation)
        } else if derived != Some((self.pool, record.bump)) {
            Err(PoolError::DerivationMismatch)
        } else {
            Ok(())
        }
    }

    /// What the bound withdrawal requires of the accounts: that the control
    /// record, the vault and the destination exist, and that the record
    /// permits the withdrawal. It gives the record and the balance of the
    /// vault.
    pub open spec fn checked(
        self,
        accounts: Map<Address, Account>,
        derived: Option<(Address, u8)>,
    ) -> Result<(TokenPool, u64), PoolError> {
        match (
            pool_at(accounts, self.pool),
            token_at(accounts, self.vault),
            token_at(accounts, self.withdraw_destination),
        ) {
            (Some(record), Some(vault), Some(_)) => match self.permitted(record, derived) {
                Ok(_) => Ok((record, vault.amount)),
                Err(e) => Err(e),
            },
            _ => Err(PoolError::NotFound),
        }
    }

    /// Whether the bound withdrawal succeeds. The accounts must pass the
    /// checks against the control record and against the derivation from the
    /// destination, and the control record must own the vault.
    pub open spec fn outcome(self, program: Address, accounts: Map<Address, Account>) -> Result<
        (),
        PoolError,
    > {
        match self.checked(accounts, derived_address(self.withdraw_destination, program)) {
            Err(e) => Err(e),
            Ok(_) => {
                if token_at(accounts, self.vault).unwrap().owner != self.pool {
                    Err(PoolError::Unauthorized)
                } else {
                    Ok(())
                }
            },
        }
    }

    /// Holds the accounts to the control record `record` and to `derived`,
    /// the result of the derivation from the destination.
    pub fn check(&self, record: &TokenPool, derived: Option<(Address, u8)>) -> (r: Result<
        (),
        PoolError,
    >)
        ensures
            r == self.permitted(*record, derived),
    {
        if !(record.vault == self.vault) || !(record.withdraw_destination
            == self.withdraw_destination) {
            return Err(PoolError::ConstraintViolation);
        }
        match derived {
            Some((address, bump)) => {
                if address == self.pool && bump == record.bump {
                    Ok(())
                } else {
                    Err(PoolError::DerivationMismatch)
                }
            },
            None => Err(PoolError::DerivationMismatch),
        }
    }

    /// Looks the accounts up in `bank` and holds them to the control record
    /// and to `derived`, the result of the derivation from the destination.
    pub fn validate(&self, bank: &Bank, derived: Option<(Address, u8)>) -> (r: Result<
        (TokenPool, u64),
        PoolError,
    >)
        requires
            bank.wf(),
        ensures
            r == self.checked(bank@, derived),
    {
        let record = match bank.account(&self.pool) {
            Some(Account::Pool(p)) => p,
            _ => {
                return Err(PoolError::NotFound);
            },
        };
        let vault = match bank.account(&self.vault) {
            Some(Account::Token(t)) => t,
            _ => {
                return Err(PoolError::NotFound);
            },
        };
        match bank.account(&self.withdraw_destination) {
            Some(Account::Token(_)) => {},
            _ => {
                return Err(PoolError::NotFound);
            },
        }
        match self.check(&record, derived) {
            Ok(_) => Ok((record, vault.amount)),
            Err(e) => Err(e),
        }
    }
}

/// The transfer of the naive withdrawal, not yet signed: out of the vault,
/// into the destination, in the name of the authority that the caller gave.
pub fn get_transfer_ctx(accounts: &WithdrawTokens) -> (ctx: TransferCtx)
    ensures
        ctx == (TransferCtx { accounts: accounts.transfer(), signer_seeds: None }),
{
    TransferCtx::new(
        Transfer {
            from: accounts.vault,
            to: accounts.withdraw_destination,
            authority: accounts.authority,
        },
    )
}

/// The transfer of the bound withdrawal, not yet signed: out of the vault,
/// into the destination, in the name of the control record.
pub fn get_secure_transfer_ctx(accounts: &WithdrawTokensSecure) -> (ctx: TransferCtx)
    ensures
        ctx == (TransferCtx { accounts: accounts.transfer(), signer_seeds: None }),
{
    TransferCtx::new(
        Transfer {
            from: accounts.vault,
            to: accounts.withdraw_destination,
            authority: accounts.pool,
        },
    )
}

impl TokenPool {
    /// The seeds with which the naive withdrawal signs: the asset and the
    /// stored bump seed.
    pub fn insecure_seeds(&self) -> (seeds: SignerSeeds)
        ensures
            seeds == (SignerSeeds { seed: self.mint, bump: self.bump }),
    {
        SignerSeeds { seed: self.mint, bump: self.bump }
    }

    /// The seeds with which the bound withdrawal signs: the destination and
    /// the stored bump seed.
    pub fn secure_seeds(&self) -> (seeds: SignerSeeds)
        ensures
            seeds == (SignerSeeds { seed: self.withdraw_destination, bump: self.bump }),
    {
        SignerSeeds { seed: self.withdraw_destination, bump: self.bump }
    }
}

} // verus!
