//! The four operations: the naive and the bound initialization of a pool,
//! and the naive and the bound withdrawal from its vault.

use vstd::prelude::*;
use crate::accounts::{
    get_secure_transfer_ctx,
    get_transfer_ctx,
    InitializePool,
    InitializePoolSecure,
    WithdrawTokens,
    WithdrawTokensSecure,
};
use crate::address::Address;
use crate::bank::Bank;
use crate::derivation::{derive_address, derived_address};
use crate::error::PoolError;
use crate::ledger::{pool_at, token_at, transferred};
use crate::pool::Account;

verus! {

/// Whether the control record at `pool` is bound: the derivation from its
/// destination gives the address of the record and the bump seed it stores,
/// the record owns the vault it names, and the destination exists.
pub open spec fn is_bound(program: Address, accounts: Map<Address, Account>, pool: Address) -> bool {
    &&& pool_at(accounts, pool) matches Some(record)
    &&& derived_address(record.withdraw_destination, program) == Some((pool, record.bump))
    &&& token_at(accounts, record.vault) matches Some(vault)
    &&& vault.owner == pool
    &&& token_at(accounts, record.withdraw_destination) is Some
}

/// The naive initialization: stores at `accounts.pool` a control record that
/// holds the addresses and the bump seed as given. Nothing is checked but
/// that the address is free.
pub fn initialize_pool(bank: &mut Bank, accounts: &InitializePool, bump: u8) -> (r: Result<
    (),
    PoolError,
>)
    requires
        old(bank).wf(),
    ensures
        final(bank).wf(),
        r == accounts.outcome(old(bank)@),
        final(bank)@ == (if r is Ok {
            accounts.created(old(bank)@, bump)
        } else {
            old(bank)@
        }),
        final(bank).program() == old(bank).program(),
        final(bank).total() == old(bank).total(),
{
    bank.create(accounts.pool, Account::Pool(accounts.new_record(bump)))
}

/// The bound initialization, given in `derived` what the derivation from the
/// destination returned: creates the control record at the derived address,
/// with the derived bump seed, and the vault with the record as its owner.
pub fn initialize_pool_at(
    bank: &mut Bank,
    accounts: &InitializePoolSecure,
    derived: Option<(Address, u8)>,
) -> (r: Result<Address, PoolError>)
    requires
        old(bank).wf(),
    ensures
        final(bank).wf(),
        r == accounts.outcome(old(bank)@, derived),
        final(bank)@ == (match derived {
            Some((pool, bump)) if r is Ok => accounts.created(old(bank)@, pool, bump),
            _ => old(bank)@,
        }),
        final(bank).program() == old(bank).program(),
        final(bank).total() == old(bank).total(),
{
    let (pool, bump) = match derived {
        Some(found) => found,
        None => {
            return Err(PoolError::DerivationMismatch);
        },
    };
    if bank.account(&pool).is_some() {
        return Err(PoolError::AlreadyInitialized);
    }
    match bank.account(&accounts.mint) {
        Some(Account::Mint) => {},
        _ => {
            return Err(PoolError::NotFound);
        },
    }
    if accounts.vault == pool || bank.account(&accounts.vault).is_some() {
        return Err(PoolError::AlreadyInitialized);
    }
    match bank.account(&accounts.withdraw_destination) {
        Some(Account::Token(_)) => {},
        _ => {
            return Err(PoolError::NotFound);
        },
    }
    let _ = bank.create(pool, Account::Pool(accounts.new_record(bump)));
    let _ = bank.create(accounts.vault, Account::Token(accounts.new_vault(pool)));
    Ok(pool)
}

/// The bound initialization: derives the address of the control record and
/// its bump seed from the destination, creates the record there and the
/// vault with the record as its owner. On success the pool is bound.
pub fn initialize_pool_secure(bank: &mut Bank, accounts: &InitializePoolSecure) -> (r: Result<
    Address,
    PoolError,
>)
    requires
        old(bank).wf(),
    ensures
        final(bank).wf(),
        r == accounts.outcome(
            old(bank)@,
            derived_address(accounts.withdraw_destination, old(bank).program()),
        ),
        final(bank)@ == (match derived_address(accounts.withdraw_destination, old(bank).program()) {
            Some((pool, bump)) if r is Ok => accounts.created(old(bank)@, pool, bump),
            _ => old(bank)@,
        }),
        r matches Ok(pool) ==> is_bound(final(bank).program(), final(bank)@, pool) && pool_at(
            final(bank)@,
            pool,
        ).unwrap().withdraw_destination == accounts.withdraw_destination,
        final(bank).program() == old(bank).program(),
        final(bank).total() == old(bank).total(),
{
    let program = bank.program_id();
    let derived = derive_address(&accounts.withdraw_destination, &program);
    initialize_pool_at(bank, accounts, derived)
}

/// The naive withdrawal: moves the whole balance of the vault to the
/// destination in the name of `accounts.authority`, signing with the address
/// derived from the asset and the bump seed of the control record. The
/// record is not held against the vault, the destination or the authority.
pub fn withdraw_insecure(bank: &mut Bank, accounts: &WithdrawTokens) -> (r: Result<(), PoolError>)
    requires
        old(bank).wf(),
    ensures
        final(bank).wf(),
        r == accounts.outcome(old(bank).program(), old(bank)@),
        final(bank)@ == (if r is Ok {
            transferred(
                old(bank)@,
                accounts.transfer(),
                token_at(old(bank)@, accounts.vault).unwrap().amount,
            )
        } else {
            old(bank)@
        }),
        final(bank).program() == old(bank).program(),
        final(bank).total() == old(bank).total(),
{
    let (record, amount) = match accounts.validate(bank) {
        Ok(found) => found,
        Err(e) => {
            return Err(e);
        },
    };
    let ctx = get_transfer_ctx(accounts).with_signer(record.insecure_seeds());
    bank.transfer(&ctx, amount)
}

/// The bound withdrawal: holds the accounts to the control record, derives
/// the address of the record anew from the destination, and moves the whole
/// balance of the vault to the destination in the name of the record.
pub fn withdraw_secure(bank: &mut Bank, accounts: &WithdrawTokensSecure) -> (r: Result<
    (),
    PoolError,
>)
    requires
        old(bank).wf(),
    ensures
        final(bank).wf(),
        r == accounts.outcome(old(bank).program(), old(bank)@),
        final(bank)@ == (if r is Ok {
            transferred(
                old(bank)@,
                accounts.transfer(),
                token_at(old(bank)@, accounts.vault).unwrap().amount,
            )
        } else {
            old(bank)@
        }),
        final(bank).program() == old(bank).program(),
        final(bank).total() == old(bank).total(),
{
    let program = bank.program_id();
    let derived = derive_address(&accounts.withdraw_destination, &program);
    let (record, amount) = match accounts.validate(bank, derived) {
        Ok(found) => found,
        Err(e) => {
            return Err(e);
        },
    };
    let ctx = get_secure_transfer_ctx(accounts).with_signer(record.secure_seeds());
    bank.transfer(&ctx, amount)
}

} // verus!
