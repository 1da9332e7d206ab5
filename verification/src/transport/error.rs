//! Transport layer errors.
use vstd::prelude::*;

verus! {

/// `std::io::Error`, carried through as an opaque value: nothing is claimed
/// of what it holds.
#[verifier::external_type_specification]
#[verifier::external_body]
pub struct ExIoError(std::io::Error);

/// Errors that can occur in the transport layer.
#[derive(Debug)]
pub enum Error {
    /// I/O error
    Io(std::io::Error),
    /// Invalid address format
    InvalidAddress(String),
    /// TLS error
    Tls(String),
    /// Connection closed
    ConnectionClosed,
    /// Connection timeout
    Timeout,
}

/// The text of an invalid-address error, or `None` for any other error.
pub open spec fn invalid_address_message(e: Error) -> Option<Seq<char>> {
    match e {
        Error::InvalidAddress(m) => Some(m@),
        _ => None,
    }
}

} // verus!
