//! The ways in which an operation on a pool fails.

use vstd::prelude::*;

verus! {

/// Why an operation was refused. A refused operation changes nothing.
#[derive(Clone, Copy, Debug, PartialEq, Eq, Structural)]
pub enum PoolError {
    /// An account already exists at the address where one was to be created.
    AlreadyInitialized,
    /// No account of the kind asked for exists at an address that was named.
    NotFound,
    /// The accounts presented are not those that the control record names.
    ConstraintViolation,
    /// The address or bump seed derived anew is not that of the control record.
    DerivationMismatch,
    /// The signer is not the authority of the account to be debited.
    Unauthorized,
    /// The account to be debited holds less than the amount.
    InsufficientFunds,
}

} // verus!
