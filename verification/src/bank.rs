//! The state that the operations act on: the program's identity and the
//! accounts that exist.

use vstd::prelude::*;
use crate::address::Address;
use crate::derivation::sign;
use crate::error::PoolError;
use crate::ledger::{mint_at, token_at, transfer_outcome, transferred, Transfer, TransferCtx};
use crate::pool::{Account, TokenAccount};
use crate::storage::Storage;

verus! {

/// The program and the accounts it works on.
pub struct Bank {
    program_id: Address,
    storage: Storage,
}

impl View for Bank {
    type V = Map<Address, Account>;

    closed spec fn view(&self) -> Map<Address, Account> {
        self.storage@
    }
}

impl Bank {
    /// The invariant of the bank: no address holds two accounts, and the
    /// balances together fit in a `u64`.
    pub closed spec fn wf(&self) -> bool {
        self.storage.wf()
    }

    /// The identity of the program, from which its addresses are derived.
    pub closed spec fn program(&self) -> Address {
        self.program_id
    }

    /// All the tokens that the accounts hold.
    pub closed spec fn total(&self) -> nat {
        self.storage.total()
    }

    /// No account holds more than the bank holds in all, and that fits in a
    /// `u64`.
    pub proof fn balance_is_bounded(&self, address: Address)
        requires
            self.wf(),
            self@.contains_key(address),
        ensures
            self@[address].balance() <= self.total() <= u64::MAX,
    {
        self.storage.lemma_balance_bounded(address);
    }

    /// The bank of the program `program_id`, without any account.
    pub fn new(program_id: Address) -> (bank: Bank)
        ensures
            bank.wf(),
            bank.program() == program_id,
            bank@ == Map::<Address, Account>::empty(),
            bank.total() == 0,
    {
        Bank { program_id, storage: Storage::new() }
    }

    /// The identity of the program.
    pub fn program_id(&self) -> (id: Address)
        ensures
            id == self.program(),
    {
        self.program_id
    }

    /// The account at `address`, if there is one.
    pub fn account(&self, address: &Address) -> (r: Option<Account>)
        requires
            self.wf(),
        ensures
            r == (if self@.contains_key(*address) {
                Some(self@[*address])
            } else {
                None
            }),
    {
        self.storage.get(address)
    }

    /// The balance of the token account at `address`, if one is there.
    pub fn balance(&self, address: &Address) -> (r: Option<u64>)
        requires
            self.wf(),
        ensures
            r == (match token_at(self@, *address) {
                Some(t) => Some(t.amount),
                None => None,
            }),
    {
        match self.storage.get(address) {
            Some(Account::Token(t)) => Some(t.amount),
            _ => None,
        }
    }

    /// All the tokens that the accounts hold.
    pub fn total_balance(&self) -> (t: u64)
        requires
            self.wf(),
        ensures
            t == self.total(),
    {
        self.storage.total_balance()
    }

    /// Stores `account`, which holds no tokens, at `address` if that address
    /// is free.
    pub(crate) fn create(&mut self, address: Address, account: Account) -> (r: Result<(), PoolError>)
        requires
            old(self).wf(),
            account.balance() == 0,
        ensures
            final(self).wf(),
            r == (if old(self)@.contains_key(address) {
                Err(PoolError::AlreadyInitialized)
            } else {
                Ok(())
            }),
            final(self)@ == (if r is Ok {
                old(self)@.insert(address, account)
            } else {
                old(self)@
            }),
            final(self).program() == old(self).program(),
            final(self).total() == old(self).total(),
    {
        if self.storage.get(&address).is_some() {
            return Err(PoolError::AlreadyInitialized);
        }
        proof {
            self.storage.lemma_total_bounded();
        }
        self.storage.insert(address, account);
        Ok(())
    }

    /// Creates the asset type `address`.
    pub fn create_mint(&mut self, address: Address) -> (r: Result<(), PoolError>)
        requires
            old(self).wf(),
        ensures
            final(self).wf(),
            r == (if old(self)@.contains_key(address) {
                Err(PoolError::AlreadyInitialized)
            } else {
                Ok(())
            }),
            final(self)@ == (if r is Ok {
                old(self)@.insert(address, Account::Mint)
            } else {
                old(self)@
            }),
            final(self).program() == old(self).program(),
            final(self).total() == old(self).total(),
    {
        self.create(address, Account::Mint)
    }

    /// Creates at `address` an empty token account of the asset `mint`, which
    /// `owner` may debit.
    pub fn create_token_account(&mut self, address: Address, mint: Address, owner: Address) -> (r:
        Result<(), PoolError>)
        requires
            old(self).wf(),
        ensures
            final(self).wf(),
            r == (if old(self)@.contains_key(address) {
                Err(PoolError::AlreadyInitialized)
            } else if !mint_at(old(self)@, mint) {
                Err(PoolError::NotFound)
            } else {
                Ok(())
            }),
            final(self)@ == (if r is Ok {
                old(self)@.insert(address, Account::Token(TokenAccount { mint, owner, amount: 0 }))
            } else {
                old(self)@
            }),
            final(self).program() == old(self).program(),
            final(self).total() == old(self).total(),
    {
        if self.storage.get(&address).is_some() {
            return Err(PoolError::AlreadyInitialized);
        }
        match self.storage.get(&mint) {
            Some(Account::Mint) => {},
            _ => {
                return Err(PoolError::NotFound);
            },
        }
        self.create(address, Account::Token(TokenAccount { mint, owner, amount: 0 }))
    }

    /// Adds `amount` newly issued tokens to the token account at `address`.
    /// Nothing is added where no token account is there, or where the bank
    /// would then hold more than a `u64` counts.
    pub fn deposit(&mut self, address: &Address, amount: u64) -> (done: bool)
        requires
            old(self).wf(),
        ensures
            final(self).wf(),
            done <==> token_at(old(self)@, *address) is Some && old(self).total() + amount
                <= u64::MAX,
            final(self)@ == (if done {
                let t = token_at(old(self)@, *address).unwrap();
                old(self)@.insert(*address, Account::Token(t.with_amount(t.amount + amount)))
            } else {
                old(self)@
            }),
            final(self).program() == old(self).program(),
            final(self).total() == old(self).total() + (if done {
                amount
            } else {
                0
            }),
    {
        let t = match self.storage.get(address) {
            Some(Account::Token(t)) => t,
            _ => {
                return false;
            },
        };
        if amount > u64::MAX - self.storage.total_balance() {
            return false;
        }
        proof {
            self.storage.lemma_balance_bounded(*address);
        }
        let credited = TokenAccount { mint: t.mint, owner: t.owner, amount: t.amount + amount };
        self.storage.replace(address, Account::Token(credited));
        true
    }

    /// Carries out `transfer` of `amount` tokens signed by `signer`, or
    /// refuses it and changes nothing.
    pub fn settle(&mut self, transfer: &Transfer, signer: Option<Address>, amount: u64) -> (r:
        Result<(), PoolError>)
        requires
            old(self).wf(),
        ensures
            final(self).wf(),
            r == transfer_outcome(old(self)@, *transfer, signer, amount),
            final(self)@ == (if r is Ok {
                transferred(old(self)@, *transfer, amount)
            } else {
                old(self)@
            }),
            final(self).program() == old(self).program(),
            final(self).total() == old(self).total(),
    {
        let from = match self.storage.get(&transfer.from) {
            Some(Account::Token(t)) => t,
            _ => {
                return Err(PoolError::NotFound);
            },
        };
        let to = match self.storage.get(&transfer.to) {
            Some(Account::Token(t)) => t,
            _ => {
                return Err(PoolError::NotFound);
            },
        };
        let signed = match signer {
            Some(s) => s == transfer.authority,
            None => false,
        };
        if !signed || !(from.owner == transfer.authority) {
            return Err(PoolError::Unauthorized);
        }
        if from.amount < amount {
            return Err(PoolError::InsufficientFunds);
        }
        proof {
            self.storage.lemma_balance_bounded(transfer.from);
        }
        let debited = TokenAccount { mint: from.mint, owner: from.owner, amount: from.amount - amount };
        self.storage.replace(&transfer.from, Account::Token(debited));
        let to = if transfer.to == transfer.from {
            debited
        } else {
            to
        };
        proof {
            self.storage.lemma_balance_bounded(transfer.to);
        }
        let credited = TokenAccount { mint: to.mint, owner: to.owner, amount: to.amount + amount };
        self.storage.replace(&transfer.to, Account::Token(credited));
        Ok(())
    }

    /// Carries out the transfer `ctx` of `amount` tokens, signed by the address
    /// that the program derives from the seeds of `ctx`.
    pub fn transfer(&mut self, ctx: &TransferCtx, amount: u64) -> (r: Result<(), PoolError>)
        requires
            old(self).wf(),
        ensures
            final(self).wf(),
            r == transfer_outcome(old(self)@, ctx.accounts, ctx.signer(old(self).program()), amount),
            final(self)@ == (if r is Ok {
                transferred(old(self)@, ctx.accounts, amount)
            } else {
                old(self)@
            }),
            final(self).program() == old(self).program(),
            final(self).total() == old(self).total(),
    {
        let signer = match ctx.signer_seeds {
            Some(seeds) => sign(&seeds, &self.program_id),
            None => None,
        };
        self.settle(&ctx.accounts, signer, amount)
    }
}

} // verus!
