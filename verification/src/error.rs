//! The errors of transaction processing and of the state context.

use vstd::prelude::*;
use crate::text::{debug_quoted, join, join3, quote_debug};

verus! {

/// Why a transaction was not applied.
#[derive(Debug, PartialEq, Eq)]
pub enum ApplyError {
    /// The transaction is not valid against the current state.
    InvalidTransaction(String),
    /// Something went wrong while processing a transaction.
    InternalError(String),
}

/// An `ApplyError` with its message as a sequence of characters.
pub enum Failure {
    InvalidTransaction(Seq<char>),
    InternalError(Seq<char>),
}

impl View for ApplyError {
    type V = Failure;

    open spec fn view(&self) -> Failure {
        match self {
            ApplyError::InvalidTransaction(s) => Failure::InvalidTransaction(s@),
            ApplyError::InternalError(s) => Failure::InternalError(s@),
        }
    }
}

/// Why the state context refused a read or a write. Each variant carries the
/// text of its cause.
#[derive(Debug, PartialEq, Eq)]
pub enum ContextError {
    AuthorizationError(String),
    ResponseAttributeError(String),
    TransactionReceiptError(String),
    SerializationError(String),
    SendError(String),
    ReceiveError(String),
}

/// How a failure displays: its kind, a colon and its message.
pub open spec fn failure_text(f: Failure) -> Seq<char> {
    match f {
        Failure::InvalidTransaction(s) => "InvalidTransaction: "@ + s,
        Failure::InternalError(s) => "InternalError: "@ + s,
    }
}

/// How a failure shows in `Debug` form: the variant's name with its quoted
/// message in brackets.
pub open spec fn failure_debug(f: Failure) -> Seq<char> {
    match f {
        Failure::InvalidTransaction(s) => "InvalidTransaction("@ + debug_quoted(s) + ")"@,
        Failure::InternalError(s) => "InternalError("@ + debug_quoted(s) + ")"@,
    }
}

/// How a context error displays: its kind, a colon and its cause.
pub open spec fn context_error_text(e: ContextError) -> Seq<char> {
    match e {
        ContextError::AuthorizationError(s) => "AuthorizationError: "@ + s@,
        ContextError::ResponseAttributeError(s) => "ResponseAttributeError: "@ + s@,
        ContextError::TransactionReceiptError(s) => "TransactionReceiptError: "@ + s@,
        ContextError::SerializationError(s) => "SerializationError: "@ + s@,
        ContextError::SendError(s) => "SendError: "@ + s@,
        ContextError::ReceiveError(s) => "ReceiveError: "@ + s@,
    }
}

/// What a context error becomes when it ends a transaction: an internal error
/// for a receipt error, an invalid transaction otherwise, with the context
/// error's text as message.
pub open spec fn failure_of_context_error(e: ContextError) -> Failure {
    match e {
        ContextError::TransactionReceiptError(_) => Failure::InternalError(context_error_text(e)),
        _ => Failure::InvalidTransaction(context_error_text(e)),
    }
}

impl ApplyError {
    /// The displayed text of the error.
    pub fn describe(&self) -> (r: String)
        ensures
            r@ == failure_text(self@),
    {
        match self {
            ApplyError::InvalidTransaction(s) => join("InvalidTransaction: ", s.as_str()),
            ApplyError::InternalError(s) => join("InternalError: ", s.as_str()),
        }
    }

    /// The `Debug` text of the error.
    pub fn debug_text(&self) -> (r: String)
        ensures
            r@ == failure_debug(self@),
    {
        match self {
            ApplyError::InvalidTransaction(s) => {
                let q = quote_debug(s.as_str());
                join3("InvalidTransaction(", q.as_str(), ")")
            },
            ApplyError::InternalError(s) => {
                let q = quote_debug(s.as_str());
                join3("InternalError(", q.as_str(), ")")
            },
        }
    }
}

impl ContextError {
    /// The displayed text of the error.
    pub fn describe(&self) -> (r: String)
        ensures
            r@ == context_error_text(*self),
    {
        match self {
            ContextError::AuthorizationError(s) => join("AuthorizationError: ", s.as_str()),
            ContextError::ResponseAttributeError(s) => join("ResponseAttributeError: ", s.as_str()),
            ContextError::TransactionReceiptError(s) => join(
                "TransactionReceiptError: ",
                s.as_str(),
            ),
            ContextError::SerializationError(s) => join("SerializationError: ", s.as_str()),
            ContextError::SendError(s) => join("SendError: ", s.as_str()),
            ContextError::ReceiveError(s) => join("ReceiveError: ", s.as_str()),
        }
    }

    /// An exact copy of the error.
    pub fn duplicate(&self) -> (r: ContextError)
        ensures
            r == *self,
    {
        match self {
            ContextError::AuthorizationError(s) => ContextError::AuthorizationError(s.clone()),
            ContextError::ResponseAttributeError(s) => ContextError::ResponseAttributeError(
                s.clone(),
            ),
            ContextError::TransactionReceiptError(s) => ContextError::TransactionReceiptError(
                s.clone(),
            ),
            ContextError::SerializationError(s) => ContextError::SerializationError(s.clone()),
            ContextError::SendError(s) => ContextError::SendError(s.clone()),
            ContextError::ReceiveError(s) => ContextError::ReceiveError(s.clone()),
        }
    }

    /// The error that ends a transaction when the context fails this way.
    pub fn to_apply_error(&self) -> (r: ApplyError)
        ensures
            r@ == failure_of_context_error(*self),
    {
        let text = self.describe();
        match self {
            ContextError::TransactionReceiptError(_) => ApplyError::InternalError(text),
            _ => ApplyError::InvalidTransaction(text),
        }
    }
}

} // verus!
