//! Decode and session errors.
//!
//! Only an unrecognized message tag is recoverable, and it is represented as
//! data (the unknown-message fallback), never as an error. Every variant
//! here is fatal to the path that meets it: the protocol has no
//! resynchronization marker, so after an unexpected shape there is no safe
//! point to resume from.

use vstd::prelude::*;

verus! {

/// A fatal protocol failure.
#[derive(Debug)]
pub enum Error {
    /// The stream ended mid-field or mid-frame.
    Truncated,
    /// A token could not be parsed as the declared scalar type; carries the
    /// expected type's name and the offending token bytes.
    Malformed { expected: String, token: Vec<u8> },
    /// An I/O failure on the underlying connection.
    Transport { detail: String },
    /// The hello or start-of-API exchange failed.
    Handshake { detail: String },
}

impl Error {
    /// A short description of the error, for logging by the caller.
    pub fn message(&self) -> (r: String)
        ensures
            self is Truncated ==> r@ == "stream truncated mid-message"@,
            self matches Error::Malformed { expected, .. } ==> r@ == "malformed token, expected "@
                + expected@,
            self matches Error::Transport { detail } ==> r@ == "transport failure: "@ + detail@,
            self matches Error::Handshake { detail } ==> r@ == "handshake failure: "@ + detail@,
    {
        match self {
            Error::Truncated => String::from_str("stream truncated mid-message"),
            Error::Malformed { expected, .. } => {
                let mut s = String::from_str("malformed token, expected ");
                s.append(expected.as_str());
                s
            },
            Error::Transport { detail } => {
                let mut s = String::from_str("transport failure: ");
                s.append(detail.as_str());
                s
            },
            Error::Handshake { detail } => {
                let mut s = String::from_str("handshake failure: ");
                s.append(detail.as_str());
                s
            },
        }
    }
}

/// Builds the `Malformed` error for a token that failed to parse as `expected`.
pub fn malformed(expected: &str, token: Vec<u8>) -> (r: Error)
    ensures
        r matches Error::Malformed { expected: e, token: t } && e@ == expected@ && t@ == token@,
{
    Error::Malformed { expected: String::from_str(expected), token }
}

} // verus!
