use pda_sharing::derivation::{derive_address, SignerSeeds};
use pda_sharing::ledger::{Transfer, TransferCtx};
use pda_sharing::{
    get_secure_transfer_ctx, get_transfer_ctx, initialize_pool, initialize_pool_at,
    initialize_pool_secure, withdraw_insecure, withdraw_secure, Account, Address, Bank,
    InitializePool, InitializePoolSecure, PoolError, TokenAccount, TokenPool, WithdrawTokens,
    WithdrawTokensSecure,
};

fn key(tag: u8) -> Address {
    let mut bytes = [0xabu8; 32];
    bytes[16] = tag;
    Address::new(bytes)
}

const PROGRAM: u8 = 250;
const MINT: u8 = 1;
const OWNER: u8 = 2;

/// A bank with the asset `MINT` and the token accounts 20, 21 and 22, each
/// holding 5 tokens.
fn bank() -> Bank {
    let mut bank = Bank::new(key(PROGRAM));
    assert_eq!(bank.create_mint(key(MINT)), Ok(()));
    for tag in [20u8, 21, 22] {
        assert_eq!(bank.create_token_account(key(tag), key(MINT), key(OWNER)), Ok(()));
        assert!(bank.deposit(&key(tag), 5));
    }
    bank
}

fn secure(vault: u8, destination: u8) -> InitializePoolSecure {
    InitializePoolSecure {
        mint: key(MINT),
        vault: key(vault),
        withdraw_destination: key(destination),
    }
}

fn record_at(bank: &Bank, address: &Address) -> TokenPool {
    match bank.account(address) {
        Some(Account::Pool(record)) => record,
        other => panic!("no control record: {:?}", other),
    }
}

#[test]
fn naive_initialization_stores_what_it_is_given() {
    let mut bank = bank();
    let accounts = InitializePool {
        pool: key(100),
        mint: key(3),
        vault: key(4),
        withdraw_destination: key(5),
    };
    assert_eq!(accounts.new_record(9).bump, 9);
    assert_eq!(initialize_pool(&mut bank, &accounts, 9), Ok(()));
    assert_eq!(
        bank.account(&key(100)),
        Some(Account::Pool(TokenPool {
            vault: key(4),
            mint: key(3),
            withdraw_destination: key(5),
            bump: 9,
        }))
    );
    // None of the accounts that the record names was asked for.
    assert_eq!(bank.account(&key(3)), None);
    assert_eq!(bank.account(&key(4)), None);
    assert_eq!(bank.total_balance(), 15);
}

#[test]
fn naive_initialization_needs_a_free_address() {
    let mut bank = bank();
    let accounts = InitializePool {
        pool: key(100),
        mint: key(MINT),
        vault: key(20),
        withdraw_destination: key(21),
    };
    assert_eq!(initialize_pool(&mut bank, &accounts, 1), Ok(()));
    assert_eq!(initialize_pool(&mut bank, &accounts, 2), Err(PoolError::AlreadyInitialized));
    assert_eq!(record_at(&bank, &key(100)).bump, 1);
    let on_a_token_account = InitializePool { pool: key(20), ..accounts };
    assert_eq!(
        initialize_pool(&mut bank, &on_a_token_account, 1),
        Err(PoolError::AlreadyInitialized)
    );
    assert_eq!(bank.balance(&key(20)), Some(5));
}

#[test]
fn bound_initialization_binds_the_record_to_the_destination() {
    let mut bank = bank();
    let pool = initialize_pool_secure(&mut bank, &secure(30, 21)).unwrap();
    let record = record_at(&bank, &pool);
    assert_eq!(derive_address(&key(21), &key(PROGRAM)), Some((pool, record.bump)));
    assert_eq!(record.vault, key(30));
    assert_eq!(record.mint, key(MINT));
    assert_eq!(record.withdraw_destination, key(21));
    assert_eq!(
        bank.account(&key(30)),
        Some(Account::Token(TokenAccount { mint: key(MINT), owner: pool, amount: 0 }))
    );
    assert_eq!(bank.total_balance(), 15);
}

#[test]
fn bound_initialization_at_a_given_address() {
    let mut bank = bank();
    let made = initialize_pool_at(&mut bank, &secure(30, 21), Some((key(150), 77)));
    assert_eq!(made, Ok(key(150)));
    assert_eq!(
        bank.account(&key(150)),
        Some(Account::Pool(TokenPool {
            vault: key(30),
            mint: key(MINT),
            withdraw_destination: key(21),
            bump: 77,
        }))
    );
    assert_eq!(
        bank.account(&key(30)),
        Some(Account::Token(TokenAccount { mint: key(MINT), owner: key(150), amount: 0 }))
    );
}

#[test]
fn bound_initialization_refusals() {
    let mut bank = bank();
    let derived = Some((key(150), 77));
    assert_eq!(
        initialize_pool_at(&mut bank, &secure(30, 21), None),
        Err(PoolError::DerivationMismatch)
    );
    // The derived address is taken.
    assert_eq!(
        initialize_pool_at(&mut bank, &secure(30, 21), Some((key(22), 77))),
        Err(PoolError::AlreadyInitialized)
    );
    // The asset does not exist, or is no asset.
    let no_asset = InitializePoolSecure { mint: key(9), ..secure(30, 21) };
    assert_eq!(initialize_pool_at(&mut bank, &no_asset, derived), Err(PoolError::NotFound));
    let token_as_asset = InitializePoolSecure { mint: key(20), ..secure(30, 21) };
    assert_eq!(initialize_pool_at(&mut bank, &token_as_asset, derived), Err(PoolError::NotFound));
    // The vault cannot be created: its address is taken, or is that of the record.
    assert_eq!(
        initialize_pool_at(&mut bank, &secure(20, 21), derived),
        Err(PoolError::AlreadyInitialized)
    );
    assert_eq!(
        initialize_pool_at(&mut bank, &secure(150, 21), derived),
        Err(PoolError::AlreadyInitialized)
    );
    // The destination does not exist, or is no token account.
    assert_eq!(initialize_pool_at(&mut bank, &secure(30, 40), derived), Err(PoolError::NotFound));
    assert_eq!(initialize_pool_at(&mut bank, &secure(30, MINT), derived), Err(PoolError::NotFound));
    // A taken address is reported before a missing asset or destination.
    let nothing_right = InitializePoolSecure { mint: key(9), ..secure(20, 40) };
    assert_eq!(
        initialize_pool_at(&mut bank, &nothing_right, Some((key(22), 77))),
        Err(PoolError::AlreadyInitialized)
    );
    // Nothing was created on the way.
    assert_eq!(bank.account(&key(150)), None);
    assert_eq!(bank.account(&key(30)), None);
    assert_eq!(bank.total_balance(), 15);
}

#[test]
fn pools_of_two_destinations_do_not_stand_for_each_other() {
    let mut bank = bank();
    let pool1 = initialize_pool_secure(&mut bank, &secure(30, 21)).unwrap();
    let pool2 = initialize_pool_secure(&mut bank, &secure(31, 22)).unwrap();
    assert_ne!(pool1, pool2);
    assert!(bank.deposit(&key(30), 100));
    assert!(bank.deposit(&key(31), 200));

    let crossed = [
        WithdrawTokensSecure { pool: pool1, vault: key(31), withdraw_destination: key(22) },
        WithdrawTokensSecure { pool: pool1, vault: key(30), withdraw_destination: key(22) },
        WithdrawTokensSecure { pool: pool1, vault: key(31), withdraw_destination: key(21) },
        WithdrawTokensSecure { pool: pool2, vault: key(30), withdraw_destination: key(21) },
    ];
    for accounts in crossed {
        assert_eq!(withdraw_secure(&mut bank, &accounts), Err(PoolError::ConstraintViolation));
    }
    assert_eq!(bank.balance(&key(30)), Some(100));
    assert_eq!(bank.balance(&key(31)), Some(200));

    let own = WithdrawTokensSecure { pool: pool2, vault: key(31), withdraw_destination: key(22) };
    assert_eq!(withdraw_secure(&mut bank, &own), Ok(()));
    assert_eq!(bank.balance(&key(31)), Some(0));
    assert_eq!(bank.balance(&key(22)), Some(205));
    assert_eq!(bank.balance(&key(30)), Some(100));
    // The record is as it was, and an empty vault can be withdrawn from again.
    assert_eq!(record_at(&bank, &pool2).vault, key(31));
    assert_eq!(withdraw_secure(&mut bank, &own), Ok(()));
    assert_eq!(bank.balance(&key(22)), Some(205));
}

#[test]
fn bound_withdrawal_needs_the_accounts() {
    let mut bank = bank();
    let pool = initialize_pool_secure(&mut bank, &secure(30, 21)).unwrap();
    let right = WithdrawTokensSecure { pool, vault: key(30), withdraw_destination: key(21) };
    let no_record = WithdrawTokensSecure { pool: key(99), ..right };
    assert_eq!(withdraw_secure(&mut bank, &no_record), Err(PoolError::NotFound));
    let token_as_record = WithdrawTokensSecure { pool: key(20), ..right };
    assert_eq!(withdraw_secure(&mut bank, &token_as_record), Err(PoolError::NotFound));
    let no_vault = WithdrawTokensSecure { vault: key(99), ..right };
    assert_eq!(withdraw_secure(&mut bank, &no_vault), Err(PoolError::NotFound));
    let no_destination = WithdrawTokensSecure { withdraw_destination: key(99), ..right };
    assert_eq!(withdraw_secure(&mut bank, &no_destination), Err(PoolError::NotFound));
    assert_eq!(right.validate(&bank, None), Err(PoolError::DerivationMismatch));
    assert_eq!(no_vault.validate(&bank, None), Err(PoolError::NotFound));
}

#[test]
fn bound_withdrawal_holds_the_record_to_the_derivation() {
    let record =
        TokenPool { vault: key(30), mint: key(MINT), withdraw_destination: key(21), bump: 250 };
    let accounts =
        WithdrawTokensSecure { pool: key(150), vault: key(30), withdraw_destination: key(21) };
    assert_eq!(accounts.check(&record, Some((key(150), 250))), Ok(()));
    assert_eq!(
        accounts.check(&record, Some((key(151), 250))),
        Err(PoolError::DerivationMismatch)
    );
    assert_eq!(
        accounts.check(&record, Some((key(150), 249))),
        Err(PoolError::DerivationMismatch)
    );
    assert_eq!(accounts.check(&record, None), Err(PoolError::DerivationMismatch));
    let other_vault = WithdrawTokensSecure { vault: key(31), ..accounts };
    assert_eq!(
        other_vault.check(&record, Some((key(150), 250))),
        Err(PoolError::ConstraintViolation)
    );
    let other_destination = WithdrawTokensSecure { withdraw_destination: key(22), ..accounts };
    assert_eq!(
        other_destination.check(&record, Some((key(150), 250))),
        Err(PoolError::ConstraintViolation)
    );
    // A violated constraint is reported before a failed derivation.
    assert_eq!(other_vault.check(&record, None), Err(PoolError::ConstraintViolation));
}

#[test]
fn bound_withdrawal_refuses_a_record_that_is_not_at_its_derived_address() {
    let mut bank = bank();
    let (_, bump) = derive_address(&key(21), &key(PROGRAM)).unwrap();
    let naive = InitializePool {
        pool: key(100),
        mint: key(MINT),
        vault: key(20),
        withdraw_destination: key(21),
    };
    assert_eq!(initialize_pool(&mut bank, &naive, bump), Ok(()));
    let accounts =
        WithdrawTokensSecure { pool: key(100), vault: key(20), withdraw_destination: key(21) };
    assert_eq!(withdraw_secure(&mut bank, &accounts), Err(PoolError::DerivationMismatch));
    assert_eq!(bank.balance(&key(20)), Some(5));
}

#[test]
fn bound_withdrawal_refuses_a_bump_seed_that_was_not_derived() {
    let mut bank = bank();
    let (address, bump) = derive_address(&key(21), &key(PROGRAM)).unwrap();
    let naive = InitializePool {
        pool: address,
        mint: key(MINT),
        vault: key(20),
        withdraw_destination: key(21),
    };
    assert_eq!(initialize_pool(&mut bank, &naive, bump.wrapping_sub(1)), Ok(()));
    let accounts =
        WithdrawTokensSecure { pool: address, vault: key(20), withdraw_destination: key(21) };
    assert_eq!(withdraw_secure(&mut bank, &accounts), Err(PoolError::DerivationMismatch));
}

#[test]
fn bound_withdrawal_needs_the_record_to_own_the_vault() {
    let mut bank = bank();
    let (address, bump) = derive_address(&key(21), &key(PROGRAM)).unwrap();
    let naive = InitializePool {
        pool: address,
        mint: key(MINT),
        vault: key(20),
        withdraw_destination: key(21),
    };
    assert_eq!(initialize_pool(&mut bank, &naive, bump), Ok(()));
    let accounts =
        WithdrawTokensSecure { pool: address, vault: key(20), withdraw_destination: key(21) };
    assert_eq!(withdraw_secure(&mut bank, &accounts), Err(PoolError::Unauthorized));
    assert_eq!(bank.balance(&key(20)), Some(5));
    assert_eq!(bank.balance(&key(21)), Some(5));
}

#[test]
fn naive_withdrawal_needs_the_record_and_the_vault() {
    let mut bank = bank();
    let accounts = WithdrawTokens {
        pool: key(100),
        vault: key(20),
        withdraw_destination: key(21),
        authority: key(OWNER),
    };
    assert_eq!(withdraw_insecure(&mut bank, &accounts), Err(PoolError::NotFound));
    assert_eq!(accounts.validate(&bank), Err(PoolError::NotFound));
    let naive = InitializePool {
        pool: key(100),
        mint: key(MINT),
        vault: key(20),
        withdraw_destination: key(21),
    };
    assert_eq!(initialize_pool(&mut bank, &naive, 3), Ok(()));
    assert_eq!(accounts.validate(&bank), Ok((naive.new_record(3), 5)));
    let no_vault = WithdrawTokens { vault: key(99), ..accounts };
    assert_eq!(withdraw_insecure(&mut bank, &no_vault), Err(PoolError::NotFound));
    let no_destination = WithdrawTokens { withdraw_destination: key(99), ..accounts };
    assert_eq!(withdraw_insecure(&mut bank, &no_destination), Err(PoolError::NotFound));
}

#[test]
fn naive_withdrawal_needs_the_derived_owner() {
    let mut bank = bank();
    let (derived, bump) = derive_address(&key(MINT), &key(PROGRAM)).unwrap();
    assert_eq!(bank.create_token_account(key(30), key(MINT), derived), Ok(()));
    assert!(bank.deposit(&key(30), 60));
    let naive = InitializePool {
        pool: key(100),
        mint: key(MINT),
        vault: key(30),
        withdraw_destination: key(21),
    };
    assert_eq!(initialize_pool(&mut bank, &naive, bump), Ok(()));

    // The owner of account 20 did not sign, and the program signs for another address.
    let foreign = WithdrawTokens {
        pool: key(100),
        vault: key(20),
        withdraw_destination: key(21),
        authority: key(OWNER),
    };
    assert_eq!(withdraw_insecure(&mut bank, &foreign), Err(PoolError::Unauthorized));
    // An authority other than the owner of the vault.
    let stranger = WithdrawTokens {
        pool: key(100),
        vault: key(30),
        withdraw_destination: key(21),
        authority: key(OWNER),
    };
    assert_eq!(withdraw_insecure(&mut bank, &stranger), Err(PoolError::Unauthorized));
    assert_eq!(bank.balance(&key(30)), Some(60));

    let right = WithdrawTokens { authority: derived, ..stranger };
    assert_eq!(withdraw_insecure(&mut bank, &right), Ok(()));
    assert_eq!(bank.balance(&key(30)), Some(0));
    assert_eq!(bank.balance(&key(21)), Some(65));

    // A record with another bump seed signs for another address, or for none.
    let off = InitializePool { pool: key(101), ..naive };
    assert_eq!(initialize_pool(&mut bank, &off, bump.wrapping_sub(1)), Ok(()));
    let with_off = WithdrawTokens { pool: key(101), ..right };
    assert_eq!(withdraw_insecure(&mut bank, &with_off), Err(PoolError::Unauthorized));
}

#[test]
fn transfer_contexts_name_the_accounts() {
    let naive = WithdrawTokens {
        pool: key(1),
        vault: key(2),
        withdraw_destination: key(3),
        authority: key(4),
    };
    assert_eq!(
        get_transfer_ctx(&naive),
        TransferCtx {
            accounts: Transfer { from: key(2), to: key(3), authority: key(4) },
            signer_seeds: None,
        }
    );
    let bound = WithdrawTokensSecure { pool: key(1), vault: key(2), withdraw_destination: key(3) };
    assert_eq!(
        get_secure_transfer_ctx(&bound),
        TransferCtx {
            accounts: Transfer { from: key(2), to: key(3), authority: key(1) },
            signer_seeds: None,
        }
    );
    let record =
        TokenPool { vault: key(2), mint: key(5), withdraw_destination: key(3), bump: 254 };
    assert_eq!(record.insecure_seeds(), SignerSeeds { seed: key(5), bump: 254 });
    assert_eq!(record.secure_seeds(), SignerSeeds { seed: key(3), bump: 254 });
    let bound_init = secure(2, 3);
    assert_eq!(bound_init.new_record(254), TokenPool { mint: key(MINT), ..record });
    assert_eq!(
        bound_init.new_vault(key(1)),
        TokenAccount { mint: key(MINT), owner: key(1), amount: 0 }
    );
}
