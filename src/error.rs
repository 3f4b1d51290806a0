use vstd::prelude::*;

verus! {

/// Why a credential was rejected. Every rejection carries exactly one reason:
/// the first check that failed.
#[derive(Clone, Copy, Debug, PartialEq, Eq, Structural)]
pub enum ErrorCode {
    /// The message bytes do not decode into the fields its format requires.
    MalformedPayload,
    /// The presenting party did not authorize the call.
    SubjectIsNotSigner,
    /// The presenting party is not the credential's subject.
    SubjectMismatch,
    /// The current time is not strictly before the credential's expiration.
    Expired,
    /// The credential's schema is not the accepted one.
    InvalidSchema,
    /// No public key could be recovered from the signature.
    RecoveryNotOk,
    /// A key was recovered, but it is not the trusted issuer's.
    UntrustedSigner,
}

} // verus!
