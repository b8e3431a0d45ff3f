//! Error types of the trust layer and of the session layer.

use vstd::prelude::*;

verus! {

/// Errors of the trust layer.
#[derive(Clone, Copy, Debug, PartialEq, Eq, Structural)]
pub enum TrustError {
    InvalidPublicKey,
    UnknownPeer,
    /// The operating system's random source could not supply a new key.
    RandomSourceFailed,
}

impl TrustError {
    /// The human-readable message of this error.
    pub fn message(&self) -> (r: &'static str)
        ensures
            r@ == trust_error_message(*self),
    {
        match self {
            TrustError::InvalidPublicKey => "invalid public key",
            TrustError::UnknownPeer => "unknown peer",
            TrustError::RandomSourceFailed => "random source failed",
        }
    }
}

/// The message text of each trust error.
pub open spec fn trust_error_message(e: TrustError) -> Seq<char> {
    match e {
        TrustError::InvalidPublicKey => "invalid public key"@,
        TrustError::UnknownPeer => "unknown peer"@,
        TrustError::RandomSourceFailed => "random source failed"@,
    }
}

/// Errors of the session layer.
#[derive(Clone, Copy, Debug, PartialEq, Eq, Structural)]
pub enum Error {
    Bind,
    InvalidRelayUrl,
    Trust(TrustError),
}

impl Error {
    /// The human-readable message of this error; a trust error reads as its own message.
    pub fn message(&self) -> (r: &'static str)
        ensures
            r@ == error_message(*self),
    {
        match self {
            Error::Bind => "failed to bind endpoint",
            Error::InvalidRelayUrl => "invalid relay url",
            Error::Trust(e) => e.message(),
        }
    }
}

/// The message text of each session error.
pub open spec fn error_message(e: Error) -> Seq<char> {
    match e {
        Error::Bind => "failed to bind endpoint"@,
        Error::InvalidRelayUrl => "invalid relay url"@,
        Error::Trust(t) => trust_error_message(t),
    }
}

} // verus!
