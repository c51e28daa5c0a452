use vstd::prelude::*;

verus! {

/// The error taxonomy of the engine. Every fallible step returns immediately
/// on first error; no retries, no partial application, no wrapping.
#[derive(Debug)]
pub enum ContractError {
    /// A record that should exist was not found in the store.
    Std { msg: String },
    InvalidReplyId { id: u64 },
    /// Permission checks: pre-close claim, double claim, missing account.
    NotAuthorized { msg: String },
    /// Zero or malformed amounts.
    ValidationError { msg: String },
    /// Checked overflow, underflow, or division by zero: fatal to the call.
    InternalError { msg: String },
    /// An asset capability unsupported for the selected asset variant.
    NotImplemented { msg: String },
    /// Attached value below the required amount.
    InsufficientFunds { msg: String },
    /// A per-pool account balance below the requested debit.
    InsufficientBalance { msg: String },
}

/// An error with its message stripped: contracts pin the class of the error
/// a failing call returns, never the message text.
#[derive(Clone, Copy, Debug, PartialEq, Eq, Structural)]
pub enum ErrorClass {
    Std,
    InvalidReplyId,
    NotAuthorized,
    Validation,
    Internal,
    NotImplemented,
    InsufficientFunds,
    InsufficientBalance,
}

impl ContractError {
    pub open spec fn class(&self) -> ErrorClass {
        match self {
            ContractError::Std { .. } => ErrorClass::Std,
            ContractError::InvalidReplyId { .. } => ErrorClass::InvalidReplyId,
            ContractError::NotAuthorized { .. } => ErrorClass::NotAuthorized,
            ContractError::ValidationError { .. } => ErrorClass::Validation,
            ContractError::InternalError { .. } => ErrorClass::Internal,
            ContractError::NotImplemented { .. } => ErrorClass::NotImplemented,
            ContractError::InsufficientFunds { .. } => ErrorClass::InsufficientFunds,
            ContractError::InsufficientBalance { .. } => ErrorClass::InsufficientBalance,
        }
    }
}

} // verus!
