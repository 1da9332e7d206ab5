//! OpenFlow error types.
use vstd::prelude::*;

verus! {

/// Errors that can occur in OpenFlow operations.
#[derive(Debug)]
pub enum Error {
    /// Transport error
    Transport(crate::transport::error::Error),
    /// I/O error
    Io(std::io::Error),
    /// Unsupported protocol version
    UnsupportedVersion(u8),
    /// Message parsing error
    Parse(String),
    /// Invalid message
    InvalidMessage(String),
    /// Connection closed
    ConnectionClosed,
    /// Timeout
    Timeout,
    /// OpenFlow error from switch
    OfError { error_type: u16, code: u16 },
}

/// The message of a parse error, or `None` for any other error.
pub open spec fn parse_message(e: Error) -> Option<Seq<char>> {
    match e {
        Error::Parse(m) => Some(m@),
        _ => None,
    }
}

} // verus!
