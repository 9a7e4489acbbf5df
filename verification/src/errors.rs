use vstd::prelude::*;

verus! {

/// Every failure of a core operation, as a structured kind. Any error
/// aborts the whole operation with no partial mutation; nothing is
/// retried internally.
#[derive(Clone, Copy, Debug, PartialEq, Eq, Structural)]
pub enum MyError {
    /// A demander's escrow balance cannot cover the requested distribution.
    InsufficientBalance,
    /// A worker's running allowance cannot cover the requested withdrawal.
    OutOfWithdrawLimit,
    /// The caller is not permitted to invoke the operation under the
    /// active authorization policy.
    AuthorizationFailure,
    /// A checked arithmetic step (conversion, scaling, or a ledger
    /// update) would exceed the representable range.
    ArithmeticOverflow,
    /// A configuration was submitted whose token price would make the
    /// withdrawal conversion divide by zero.
    DivisionByZero,
    /// A ledger for the given key already exists; ledgers are created
    /// exactly once.
    AlreadyExists,
    /// No ledger exists for the given key.
    NotFound,
    /// A token-account movement could not be performed in full.
    TransferFailed,
}

} // verus!
