use vstd::prelude::*;

verus! {

/// Why a signing request failed.
#[derive(Debug, Clone, Copy, PartialEq, Eq, Structural)]
pub enum SigningError {
    /// The transaction could not be canonically encoded.
    SerializationError,
    /// The remote signer could not be reached, answered with a non-success
    /// status, or the exchange failed part way.
    NetworkError,
    /// The bytes received do not form a signature of a known scheme.
    InvalidSignatureEncoding,
    /// A caller asserted a sponsor address that the signer does not hold.
    AuthorizationMismatch,
}

} // verus!
