//! The failures that each component reports.

use vstd::prelude::*;

verus! {

/// The kinds of failure, by what the caller can do about them.
#[derive(Clone, Copy, Debug, PartialEq, Eq, Structural)]
pub enum ErrorCategory {
    /// The input is malformed: nothing was looked up or changed.
    Validation,
    /// The account, platform or token is not what the store holds.
    Authorization,
    /// The input is well formed, and the state of the store forbids the
    /// operation.
    BusinessRule,
    /// A collaborator outside the engine failed.
    Dependency,
    /// Something that the engine's rules exclude was detected.
    InvariantViolation,
}

/// Why an account could not be authorized for a platform.
#[derive(Clone, Copy, Debug, PartialEq, Eq, Structural)]
pub enum AuthError {
    NoSuchAccount,
    NotConnected,
    UnknownPlatform,
    TokenMismatch,
}

/// Why a credit or debit was not applied.
#[derive(Clone, Copy, Debug, PartialEq, Eq, Structural)]
pub enum LedgerError {
    NoSuchAccount,
    /// The amount is zero or negative.
    InvalidAmount,
    /// The debit is larger than the balance.
    InsufficientFunds,
    /// A number left the range that a decimal can hold.
    Overflow,
    /// The ledger has used the last sequence number.
    SequenceExhausted,
    /// The arithmetic gave a balance below zero.
    NegativeBalance,
}

/// Why the quote provider gave no price.
#[derive(Clone, Copy, Debug, PartialEq, Eq, Structural)]
pub enum QuoteError {
    SymbolNotFound,
    QuoteUnavailable,
}

/// Why a position was not opened or closed.
#[derive(Clone, Copy, Debug, PartialEq, Eq, Structural)]
pub enum StockError {
    Unauthorized(AuthError),
    Quote(QuoteError),
    /// The direction is neither `"Long"` nor `"Short"`.
    InvalidDirection,
    /// The leverage, in whole hundredths, is zero or does not fit in 64 bits.
    InvalidLeverage,
    /// The cost is not positive, or exceeds the balance.
    InsufficientFunds,
    PositionNotFound,
    /// The balance engine refused the settlement.
    Ledger(LedgerError),
}

/// Why a card was not issued.
#[derive(Clone, Copy, Debug, PartialEq, Eq, Structural)]
pub enum RegisterError {
    AlreadyRegistered,
}

/// Why a history query found nothing to look for.
#[derive(Clone, Copy, Debug, PartialEq, Eq, Structural)]
pub enum HistoryError {
    NoSuchAccount,
    /// The account has not made a transaction yet.
    NoTransactions,
}

pub open spec fn auth_category(e: AuthError) -> ErrorCategory {
    ErrorCategory::Authorization
}

pub open spec fn quote_category(e: QuoteError) -> ErrorCategory {
    ErrorCategory::Dependency
}

pub open spec fn register_category(e: RegisterError) -> ErrorCategory {
    match e {
        RegisterError::AlreadyRegistered => ErrorCategory::BusinessRule,
    }
}

pub open spec fn history_category(e: HistoryError) -> ErrorCategory {
    match e {
        HistoryError::NoSuchAccount => ErrorCategory::Authorization,
        HistoryError::NoTransactions => ErrorCategory::BusinessRule,
    }
}

pub open spec fn ledger_category(e: LedgerError) -> ErrorCategory {
    match e {
        LedgerError::NoSuchAccount => ErrorCategory::Authorization,
        LedgerError::InvalidAmount => ErrorCategory::Validation,
        LedgerError::InsufficientFunds => ErrorCategory::BusinessRule,
        LedgerError::Overflow => ErrorCategory::InvariantViolation,
        LedgerError::SequenceExhausted => ErrorCategory::InvariantViolation,
        LedgerError::NegativeBalance => ErrorCategory::InvariantViolation,
    }
}

pub open spec fn stock_category(e: StockError) -> ErrorCategory {
    match e {
        StockError::Unauthorized(_) => ErrorCategory::Authorization,
        StockError::Quote(inner) => quote_category(inner),
        StockError::InvalidDirection => ErrorCategory::Validation,
        StockError::InvalidLeverage => ErrorCategory::Validation,
        StockError::InsufficientFunds => ErrorCategory::BusinessRule,
        StockError::PositionNotFound => ErrorCategory::BusinessRule,
        StockError::Ledger(inner) => ledger_category(inner),
    }
}

impl AuthError {
    pub fn category(&self) -> (r: ErrorCategory)
        ensures
            r == auth_category(*self),
    {
        ErrorCategory::Authorization
    }
}

impl QuoteError {
    pub fn category(&self) -> (r: ErrorCategory)
        ensures
            r == quote_category(*self),
    {
        ErrorCategory::Dependency
    }
}

impl RegisterError {
    pub fn category(&self) -> (r: ErrorCategory)
        ensures
            r == register_category(*self),
    {
        match self {
            RegisterError::AlreadyRegistered => ErrorCategory::BusinessRule,
        }
    }
}

impl HistoryError {
    pub fn category(&self) -> (r: ErrorCategory)
        ensures
            r == history_category(*self),
    {
        match self {
            HistoryError::NoSuchAccount => ErrorCategory::Authorization,
            HistoryError::NoTransactions => ErrorCategory::BusinessRule,
        }
    }
}

impl LedgerError {
    pub fn category(&self) -> (r: ErrorCategory)
        ensures
            r == ledger_category(*self),
    {
        match self {
            LedgerError::NoSuchAccount => ErrorCategory::Authorization,
            LedgerError::InvalidAmount => ErrorCategory::Validation,
            LedgerError::InsufficientFunds => ErrorCategory::BusinessRule,
            LedgerError::Overflow => ErrorCategory::InvariantViolation,
            LedgerError::SequenceExhausted => ErrorCategory::InvariantViolation,
            LedgerError::NegativeBalance => ErrorCategory::InvariantViolation,
        }
    }
}

impl StockError {
    pub fn category(&self) -> (r: ErrorCategory)
        ensures
            r == stock_category(*self),
    {
        match self {
            StockError::Unauthorized(_) => ErrorCategory::Authorization,
            StockError::Quote(inner) => inner.category(),
            StockError::InvalidDirection => ErrorCategory::Validation,
            StockError::InvalidLeverage => ErrorCategory::Validation,
            StockError::InsufficientFunds => ErrorCategory::BusinessRule,
            StockError::PositionNotFound => ErrorCategory::BusinessRule,
            StockError::Ledger(inner) => inner.category(),
        }
    }
}

} // verus!
