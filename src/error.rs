use vstd::prelude::*;
use crate::key::Key;

verus! {

/// Lifecycle state of a proposed transaction.
#[derive(Clone, Copy, Debug, PartialEq, Eq, Structural)]
pub enum TransactionState {
    /// Proposed and waiting to be executed.
    Ready,
    /// Executed; terminal.
    Executed,
}

/// Every way an operation of this library can fail.
#[derive(Clone, Copy, Debug, PartialEq, Eq)]
#[allow(inconsistent_fields)]
pub enum CryptidError {
    /// An account index points past the end of the account list.
    IndexOutOfRange,
    /// The signer could not be shown to be an authority of the DID.
    KeyMustBeSigner,
    /// The transaction is not in the state the operation needs.
    InvalidTransactionState { expected: TransactionState, found: TransactionState },
    /// The signing key is not among the transaction's signers.
    KeyCannotChangeTransaction { key: Key },
    /// An account does not match the one expected.
    InvalidAccount { account: Key, expected: Key },
    /// A key to encode is missing from the key-to-index table.
    UnknownAccount { key: Key },
    /// Permission bits outside the signer / writable set.
    InvalidAccountMeta { meta: u8 },
    /// An account named by the transaction was not handed to the execution.
    AccountNotSupplied { key: Key },
    /// The transaction was approved by a middleware that did not route this call.
    IncorrectMiddleware,
    /// Moving the transaction's funds would overflow the recipient's balance.
    BalanceOverflow,
}

} // verus!
