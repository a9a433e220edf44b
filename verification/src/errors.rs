//! The errors that the library's operations answer with.

use vstd::prelude::*;

verus! {

/// A failed call to the chain, a contract or the bundler.
#[derive(Debug)]
pub struct ProviderError(pub String);

/// The error part of a response envelope; empty on success.
#[derive(Debug)]
pub struct ErrorBody {
    pub code: u16,
    pub message: String,
}

impl ErrorBody {
    /// The empty error of a successful response.
    pub fn none() -> (res: ErrorBody)
        ensures
            res.code == 0,
            res.message@ == Seq::<char>::empty(),
    {
        ErrorBody { code: 0, message: String::new() }
    }
}

/// Errors of the administrative operations.
#[derive(Debug)]
pub enum AdminError {
    Unauthorized,
    InvalidCurrency,
    ValidationError(String),
    Provider(String),
}

/// Errors of the balance lookup.
#[derive(Debug)]
pub enum BalanceError {
    NotFound,
    InvalidCurrency,
    Provider(String),
}

/// Errors of the transfer operations.
#[derive(Debug)]
pub enum TransferError {
    NotFound,
    TxnNotFound,
    InvalidCurrency,
    Provider(String),
}

/// Errors of request authentication.
#[derive(Debug)]
pub enum ApiError {
    Unauthorized,
}

} // verus!
