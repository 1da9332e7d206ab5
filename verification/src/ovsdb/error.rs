//! OVSDB error types.
use vstd::prelude::*;

verus! {

/// Errors that can occur in OVSDB operations.
#[derive(Debug)]
pub enum Error {
    /// Transport error
    Transport(crate::transport::error::Error),
    /// Schema error
    Schema(String),
    /// Transaction error
    Transaction(String),
    /// Row not found
    RowNotFound(String),
    /// Table not found
    TableNotFound(String),
    /// Column not found
    ColumnNotFound(String),
    /// Lock contention
    LockContended,
    /// Need to retry transaction
    TryAgain,
}

} // verus!
