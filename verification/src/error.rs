//! Errors surfaced synchronously to callers.
//!
//! Only identity and parse errors (malformed key material, malformed feed
//! identifiers) and foreign-callback failures become errors. Transient
//! stream conditions (lag) and terminal ones (source or sink closed) are
//! absorbed by the bridge and never reach this type.

use vstd::prelude::*;
use vstd::string::StringExecFns;

verus! {

/// An error returned to the immediate caller; never retried, never
/// propagated further than one level.
#[derive(Debug, Clone)]
pub enum ApiError {
    /// The supplied public key does not parse.
    InvalidPublicKey,
    /// A feed identifier was not a valid hex string.
    InvalidGroupId,
    /// A relay URL did not parse.
    InvalidRelayUrl,
    /// A tag had no entries.
    InvalidTag,
    /// The foreign signer returned something that is not a signed event.
    SignerFailure,
    /// Any other failure reported by the collaborator.
    Other { message: String },
}

impl ApiError {
    /// A human-readable description of the error.
    pub fn message(&self) -> (r: String)
        ensures
            self is InvalidPublicKey ==> r@ == "invalid public key"@,
            self is InvalidGroupId ==> r@ == "invalid group id"@,
            self is InvalidRelayUrl ==> r@ == "invalid relay url"@,
            self is InvalidTag ==> r@ == "empty tag"@,
            self is SignerFailure ==> r@ == "foreign signer returned no valid signed event"@,
            self matches ApiError::Other { message } ==> r@ == message@,
    {
        match self {
            ApiError::InvalidPublicKey => String::from_str("invalid public key"),
            ApiError::InvalidGroupId => String::from_str("invalid group id"),
            ApiError::InvalidRelayUrl => String::from_str("invalid relay url"),
            ApiError::InvalidTag => String::from_str("empty tag"),
            ApiError::SignerFailure => String::from_str(
                "foreign signer returned no valid signed event",
            ),
            ApiError::Other { message } => message.clone(),
        }
    }
}

} // verus!
