use vstd::prelude::*;

use crate::codes::ResultCode;
use crate::token_source::TokenSourceError;

verus! {

/// Errors of this library.
#[derive(Debug)]
pub enum Error {
    /// An error of the transport below the protocol.
    Transport(String),
    /// An error of the token source.
    TokenSource(TokenSourceError),
    /// A response carried a result code other than success.
    FailedMessage { result_code: ResultCode, detail: String },
    /// No response came in time.
    Timeout(String),
    /// The connection is closed.
    ConnectionClosed,
    /// The operation was cancelled because the connection closed.
    CancelledByClose,
    /// The stream is closed.
    StreamClosed,
    /// An unexpected error.
    Unexpected(String),
    /// An invalid value.
    InvalidValue(String),
    /// A chunk could not be waited for while reordering; the upstream id is given.
    Reordering(u128),
}

impl Error {
    /// Whether the operation that failed with this error may be tried again: for errors of
    /// the transport and of a closed connection.
    pub open spec fn can_retry_spec(&self) -> bool {
        self is Transport || self is ConnectionClosed || self is CancelledByClose
    }

    /// The result code that this error carries, if it reports a failed response.
    pub open spec fn result_code_spec(&self) -> Option<ResultCode> {
        match self {
            Error::FailedMessage { result_code, .. } => Some(*result_code),
            _ => None,
        }
    }

    /// Whether the operation that failed with this error may be tried again.
    pub fn can_retry(&self) -> (r: bool)
        ensures
            r == self.can_retry_spec(),
    {
        match self {
            Error::Transport(_) | Error::ConnectionClosed | Error::CancelledByClose => true,
            _ => false,
        }
    }

    /// The result code that this error carries, if it reports a failed response.
    pub fn result_code(&self) -> (r: Option<ResultCode>)
        ensures
            r == self.result_code_spec(),
    {
        match self {
            Error::FailedMessage { result_code, .. } => Some(*result_code),
            _ => None,
        }
    }

    /// A timeout error with the given message.
    pub fn timeout(msg: &str) -> (r: Error)
        ensures
            r matches Error::Timeout(m) && m@ == msg@,
    {
        Error::Timeout(msg.to_owned())
    }

    /// An unexpected error with the given message.
    pub fn unexpected(msg: &str) -> (r: Error)
        ensures
            r matches Error::Unexpected(m) && m@ == msg@,
    {
        Error::Unexpected(msg.to_owned())
    }

    /// An invalid value error with the given message.
    pub fn invalid_value(msg: &str) -> (r: Error)
        ensures
            r matches Error::InvalidValue(m) && m@ == msg@,
    {
        Error::InvalidValue(msg.to_owned())
    }
}

} // verus!
