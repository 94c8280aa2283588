//! What holds of the operations, whatever the accounts and the state.

use vstd::prelude::*;
use crate::accounts::{InitializePool, InitializePoolSecure, WithdrawTokens, WithdrawTokensSecure};
use crate::address::Address;
use crate::derivation::{derived_address, signer_address, SignerSeeds};
use crate::error::PoolError;
use crate::instructions::is_bound;
use crate::ledger::{pool_at, token_at, transferred, Transfer};
use crate::pool::Account;

verus! {

/// Derivation is deterministic: two derivations from the same seed for the
/// same program give the same address and the same bump seed.
pub proof fn derivation_is_deterministic(
    seed: Address,
    program: Address,
    first: Option<(Address, u8)>,
    second: Option<(Address, u8)>,
)
    requires
        first == derived_address(seed, program),
        second == derived_address(seed, program),
    ensures
        first == second,
{
}

/// After a bound initialization has succeeded, the control record stands at
/// the address derived from its destination and stores the derived bump
/// seed; it names the vault and the destination that were given; and it owns
/// the vault.
pub proof fn bound_init_binds(
    program: Address,
    accounts: Map<Address, Account>,
    init: InitializePoolSecure,
)
    requires
        init.outcome(accounts, derived_address(init.withdraw_destination, program)) is Ok,
    ensures
        ({
            let (pool, bump) = derived_address(init.withdraw_destination, program).unwrap();
            let after = init.created(accounts, pool, bump);
            &&& init.outcome(accounts, derived_address(init.withdraw_destination, program)) == Ok::<
                Address,
                PoolError,
            >(pool)
            &&& pool_at(after, pool) == Some(init.record(bump))
            &&& derived_address(init.record(bump).withdraw_destination, program) == Some(
                (pool, bump),
            )
            &&& token_at(after, init.vault) == Some(init.fresh_vault(pool))
            &&& is_bound(program, after, pool)
        }),
{
}

/// A second bound initialization for the same destination is refused as
/// already initialized, whatever asset and vault it names.
pub proof fn second_init_is_refused(
    program: Address,
    accounts: Map<Address, Account>,
    first: InitializePoolSecure,
    second: InitializePoolSecure,
)
    requires
        first.withdraw_destination == second.withdraw_destination,
        first.outcome(accounts, derived_address(first.withdraw_destination, program)) is Ok,
    ensures
        ({
            let (pool, bump) = derived_address(first.withdraw_destination, program).unwrap();
            second.outcome(
                first.created(accounts, pool, bump),
                derived_address(second.withdraw_destination, program),
            ) == Err::<Address, PoolError>(PoolError::AlreadyInitialized)
        }),
{
}

/// A bound withdrawal succeeds only on a bound pool, for the vault and the
/// destination that its control record names.
pub proof fn secure_withdrawal_is_bound(
    program: Address,
    accounts: Map<Address, Account>,
    withdrawal: WithdrawTokensSecure,
)
    requires
        withdrawal.outcome(program, accounts) is Ok,
    ensures
        is_bound(program, accounts, withdrawal.pool),
        pool_at(accounts, withdrawal.pool).unwrap().vault == withdrawal.vault,
        pool_at(accounts, withdrawal.pool).unwrap().withdraw_destination
            == withdrawal.withdraw_destination,
{
}

/// On a bound pool, the bound withdrawal from its vault to its destination
/// succeeds.
pub proof fn bound_pool_can_withdraw(
    program: Address,
    accounts: Map<Address, Account>,
    withdrawal: WithdrawTokensSecure,
)
    requires
        is_bound(program, accounts, withdrawal.pool),
        pool_at(accounts, withdrawal.pool).unwrap().vault == withdrawal.vault,
        pool_at(accounts, withdrawal.pool).unwrap().withdraw_destination
            == withdrawal.withdraw_destination,
    ensures
        withdrawal.outcome(program, accounts) is Ok,
{
}

/// No substitution: with the control record of one bound pool, a bound
/// withdrawal that names the vault and the destination of a pool bound to
/// another destination is refused as a violated constraint.
pub proof fn no_substitution(
    program: Address,
    accounts: Map<Address, Account>,
    pool1: Address,
    pool2: Address,
)
    requires
        is_bound(program, accounts, pool1),
        is_bound(program, accounts, pool2),
        pool_at(accounts, pool1).unwrap().withdraw_destination != pool_at(
            accounts,
            pool2,
        ).unwrap().withdraw_destination,
    ensures
        (WithdrawTokensSecure {
            pool: pool1,
            vault: pool_at(accounts, pool2).unwrap().vault,
            withdraw_destination: pool_at(accounts, pool2).unwrap().withdraw_destination,
        }).outcome(program, accounts) == Err::<(), PoolError>(PoolError::ConstraintViolation),
        (WithdrawTokensSecure {
            pool: pool1,
            vault: pool_at(accounts, pool1).unwrap().vault,
            withdraw_destination: pool_at(accounts, pool2).unwrap().withdraw_destination,
        }).outcome(program, accounts) == Err::<(), PoolError>(PoolError::ConstraintViolation),
{
}

/// A destination has at most one bound pool: two bound control records with
/// the same destination stand at the same address.
pub proof fn one_bound_pool_per_destination(
    program: Address,
    accounts: Map<Address, Account>,
    pool1: Address,
    pool2: Address,
)
    requires
        is_bound(program, accounts, pool1),
        is_bound(program, accounts, pool2),
        pool_at(accounts, pool1).unwrap().withdraw_destination == pool_at(
            accounts,
            pool2,
        ).unwrap().withdraw_destination,
    ensures
        pool1 == pool2,
{
}

/// The flaw of the naive withdrawal: any control record that holds the asset
/// and the bump seed from which the owner of a vault is derived empties that
/// vault into any token account, whatever vault and destination the record
/// itself names.
pub proof fn naive_withdrawal_ignores_the_record(
    program: Address,
    accounts: Map<Address, Account>,
    withdrawal: WithdrawTokens,
)
    requires
        pool_at(accounts, withdrawal.pool) is Some,
        token_at(accounts, withdrawal.vault) is Some,
        token_at(accounts, withdrawal.withdraw_destination) is Some,
        token_at(accounts, withdrawal.vault).unwrap().owner == withdrawal.authority,
        signer_address(
            SignerSeeds {
                seed: pool_at(accounts, withdrawal.pool).unwrap().mint,
                bump: pool_at(accounts, withdrawal.pool).unwrap().bump,
            },
            program,
        ) == Some(withdrawal.authority),
    ensures
        withdrawal.outcome(program, accounts) is Ok,
{
}

/// A transfer changes balances only: every control record stays as it was,
/// every token account keeps its owner, and every bound pool stays bound.
pub proof fn transfer_keeps_pools(
    program: Address,
    accounts: Map<Address, Account>,
    transfer: Transfer,
    amount: u64,
    pool: Address,
)
    requires
        token_at(accounts, transfer.from) is Some,
        token_at(accounts, transfer.to) is Some,
    ensures
        pool_at(transferred(accounts, transfer, amount), pool) == pool_at(accounts, pool),
        is_bound(program, accounts, pool) ==> is_bound(
            program,
            transferred(accounts, transfer, amount),
            pool,
        ),
{
}

/// An initialization, naive or bound, leaves every control record as it
/// was, and every bound pool bound.
pub proof fn init_keeps_pools(
    program: Address,
    accounts: Map<Address, Account>,
    naive: InitializePool,
    naive_bump: u8,
    bound: InitializePoolSecure,
    pool: Address,
)
    requires
        pool_at(accounts, pool) is Some,
    ensures
        naive.outcome(accounts) is Ok ==> {
            let after = naive.created(accounts, naive_bump);
            &&& pool_at(after, pool) == pool_at(accounts, pool)
            &&& is_bound(program, accounts, pool) ==> is_bound(program, after, pool)
        },
        bound.outcome(accounts, derived_address(bound.withdraw_destination, program)) is Ok ==> {
            let (address, bump) = derived_address(bound.withdraw_destination, program).unwrap();
            let after = bound.created(accounts, address, bump);
            &&& pool_at(after, pool) == pool_at(accounts, pool)
            &&& is_bound(program, accounts, pool) ==> is_bound(program, after, pool)
        },
{
}

/// The vault of a bound pool pays only the destination of that pool: a bound
/// withdrawal that succeeds on the vault is made with the control record of
/// the pool, and credits its destination.
pub proof fn bound_vault_pays_only_its_destination(
    program: Address,
    accounts: Map<Address, Account>,
    pool: Address,
    withdrawal: WithdrawTokensSecure,
)
    requires
        is_bound(program, accounts, pool),
        withdrawal.vault == pool_at(accounts, pool).unwrap().vault,
        withdrawal.outcome(program, accounts) is Ok,
    ensures
        withdrawal.pool == pool,
        withdrawal.withdraw_destination == pool_at(accounts, pool).unwrap().withdraw_destination,
{
}

} // verus!
