use vstd::prelude::*;

verus! {

/// The error taxonomy of the text-processing core.
///
/// Every fallible operation of the library reports one of these kinds;
/// nothing is retried or recovered silently.
#[derive(Clone, Copy, Debug, PartialEq, Eq, Structural)]
pub enum CryptoError {
    /// The key source held fewer bytes than the algorithm requires,
    /// or the bytes do not form a key of the required shape.
    KeyLoadError,
    /// The selected algorithm variant does not offer the requested
    /// capability (for example, encrypting with a keyed hash).
    UnsupportedOperation,
    /// A failure surfaced by an underlying primitive: an authentication
    /// tag that does not verify, or malformed signature bytes.
    CryptoFailure,
    /// The text-encoding boundary was given non-conforming input.
    EncodingError,
}

/// Whether `r` failed with exactly the error `e`.
pub open spec fn fails_with<T>(r: Result<T, CryptoError>, e: CryptoError) -> bool {
    r matches Err(a) && a == e
}

impl CryptoError {
    /// A short description, for callers that render errors as text.
    pub fn message(self) -> (r: &'static str)
        ensures
            self is KeyLoadError ==> r@ == "key source too short or malformed"@,
            self is UnsupportedOperation ==> r@ == "operation not supported by this format"@,
            self is CryptoFailure ==> r@ == "cryptographic operation failed"@,
            self is EncodingError ==> r@ == "invalid text encoding"@,
    {
        match self {
            CryptoError::KeyLoadError => "key source too short or malformed",
            CryptoError::UnsupportedOperation => "operation not supported by this format",
            CryptoError::CryptoFailure => "cryptographic operation failed",
            CryptoError::EncodingError => "invalid text encoding",
        }
    }
}

} // verus!
