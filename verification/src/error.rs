//! The failures a transaction can report.

use vstd::prelude::*;

verus! {

/// The round trip during which the server broke the protocol.
#[derive(Clone, Copy, Debug, PartialEq, Eq, Structural)]
pub enum Exchange {
    Query,
    Mutation,
}

/// A call that the transaction itself refuses or cannot complete.
#[derive(Clone, Copy, Debug, PartialEq, Eq, Structural)]
pub enum TxnError {
    /// The transaction has already been committed or discarded.
    Finished,
    /// A write was attempted on a read-only transaction.
    ReadOnly,
    /// Best-effort mode was requested on a read-write transaction.
    Configuration,
    /// The server's reply lacks the transaction context it must carry.
    Protocol(Exchange),
    /// The server's reply names another start timestamp than the one this
    /// transaction reads at.
    Consistency,
}

/// How a round trip can fail: either the transaction rejects it, or the
/// connection reports an error of its own type `E`, which is handed through
/// untouched.
#[derive(Clone, Debug, PartialEq, Eq)]
pub enum CallError<E> {
    Txn(TxnError),
    Transport(E),
}

impl TxnError {
    /// The text of `message`.
    pub open spec fn message_text(self) -> Seq<char> {
        match self {
            TxnError::Finished => "transaction has already been committed or discarded"@,
            TxnError::ReadOnly => "transaction is read-only"@,
            TxnError::Configuration => "best effort only valid for read-only transactions"@,
            TxnError::Protocol(Exchange::Query) => "empty transaction context in query response"@,
            TxnError::Protocol(Exchange::Mutation) =>
                "missing transaction context on mutation response"@,
            TxnError::Consistency => "inconsistent start timestamp across operations"@,
        }
    }

    /// A description of the failure for the user.
    pub fn message(&self) -> (text: String)
        ensures
            text@ == self.message_text(),
    {
        match self {
            TxnError::Finished => "transaction has already been committed or discarded".to_owned(),
            TxnError::ReadOnly => "transaction is read-only".to_owned(),
            TxnError::Configuration =>
                "best effort only valid for read-only transactions".to_owned(),
            TxnError::Protocol(Exchange::Query) =>
                "empty transaction context in query response".to_owned(),
            TxnError::Protocol(Exchange::Mutation) =>
                "missing transaction context on mutation response".to_owned(),
            TxnError::Consistency => "inconsistent start timestamp across operations".to_owned(),
        }
    }
}

} // verus!
