//! The tagged error kinds that every fallible operation of the crate reports.

use vstd::prelude::*;

verus! {

/// Every failure of the coordination layer, as a tagged kind so that callers
/// can handle each programmatically.
#[derive(Clone, Copy, Debug, PartialEq, Eq, Structural)]
pub enum Error {
    /// Bad hex, or a byte string of the wrong length.
    MalformedEncoding,
    /// The `min_signers`/`max_signers` constraint was violated.
    ThresholdInvalid,
    /// A round's input set lacks a package from an expected participant.
    MissingParticipant,
    /// A signature share is missing for a committed signer.
    MissingShare,
    /// A received package failed a cryptographic consistency check.
    InconsistentPackage,
    /// A signature share failed its consistency check.
    InvalidShare,
    /// An unknown or already-consumed secret reference.
    InvalidHandle,
    /// The seed derived to the zero identifier.
    InvalidSeed,
    /// An internal precondition of the curve library was violated.
    CryptoFailure,
    /// The signature does not validate against the key and message.
    VerificationFailed,
    /// A collaborator failed to read or write persistent storage.
    IOFailure,
}

impl Error {
    /// A short human-readable description of the error kind.
    pub fn describe(&self) -> &'static str {
        match self {
            Error::MalformedEncoding => "malformed encoding",
            Error::ThresholdInvalid => "invalid signing threshold",
            Error::MissingParticipant => "missing participant package",
            Error::MissingShare => "missing signature share",
            Error::InconsistentPackage => "inconsistent package",
            Error::InvalidShare => "invalid signature share",
            Error::InvalidHandle => "unknown or consumed secret handle",
            Error::InvalidSeed => "seed derives to the zero identifier",
            Error::CryptoFailure => "internal cryptographic failure",
            Error::VerificationFailed => "signature verification failed",
            Error::IOFailure => "storage failure",
        }
    }
}

} // verus!
