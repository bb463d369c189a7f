//! Failure taxonomy. Fatal errors abort the enclosing transaction and carry
//! its signature; log-side failures are non-fatal and only leave optional
//! event fields unset.

use vstd::prelude::*;

verus! {

/// Why an instruction could not be turned into an event.
#[derive(Clone, Copy, Debug, PartialEq, Eq, Structural)]
pub enum ParseError {
    /// The payload's discriminant names no operation of the program.
    UnknownDiscriminant,
    /// The payload ends before the variant's encoding is complete, or a
    /// tagged optional field carries an impossible tag.
    TruncatedPayload,
    /// The instruction is owned by a different program than the parser's.
    WrongProgram,
    /// The account list is shorter than the variant's positional schema.
    MissingAccounts,
    /// A mandatory companion child instruction is absent.
    CorrelationFailed,
    /// An address that the event schema requires is not a tracked token
    /// account.
    LedgerLookupFailed,
    /// The instruction decodes to a different event kind than the caller
    /// asked for.
    EventMismatch,
}

/// Why no structured log record could be recovered. Never fatal: the
/// log-derived event fields are simply left unset.
#[derive(Clone, Copy, Debug, PartialEq, Eq, Structural)]
pub enum LogError {
    /// No log line of the instruction is a data record.
    NoDataLog,
    /// A data record was found but its payload is malformed.
    TruncatedLogPayload,
    /// The data record's discriminant names no known record.
    UnknownRecord,
    /// The upstream log capture itself reports truncation, so absence of a
    /// record says nothing.
    LogTruncated,
}

/// A fatal error joined with the signature of the transaction it aborted.
#[derive(Clone, Debug, PartialEq, Eq)]
pub struct TransactionError {
    pub signature: Vec<u8>,
    pub cause: ParseError,
}

/// Mathematical image of a `TransactionError`.
pub struct TransactionErrorView {
    pub signature: Seq<u8>,
    pub cause: ParseError,
}

impl View for TransactionError {
    type V = TransactionErrorView;

    open spec fn view(&self) -> TransactionErrorView {
        TransactionErrorView { signature: self.signature@, cause: self.cause }
    }
}

} // verus!
