//! Failure values of the key-management layer.
//!
//! Every fallible operation returns an [`Error`]. Each variant names one
//! cause, and [`Error::kind`] sorts the causes into the three classes that
//! callers branch on.

use vstd::prelude::*;

verus! {

/// The class of a failure.
#[derive(Clone, Copy, Debug, PartialEq, Eq, Hash, Structural)]
pub enum ErrorKind {
    /// The caller supplied a key of the wrong concrete type, a key without the
    /// part that the operation needs, or data of a malformed length.
    Input,
    /// The requested algorithm or signature type is not implemented for the
    /// key or operation at hand.
    Unsupported,
    /// A cryptographic step failed: an authentication tag did not match, or a
    /// primitive reported an error.
    Crypto,
}

/// One cause of failure.
#[derive(Clone, Copy, Debug, PartialEq, Eq, Hash, Structural)]
pub enum Error {
    /// The key handle does not wrap the concrete key type that the operation
    /// narrows to.
    WrongKeyType,
    /// The key holds no private part, and the operation needs one.
    MissingSecretKey,
    /// Key material of a length other than the algorithm's.
    InvalidKeyLength,
    /// A nonce of a length other than the cipher's.
    InvalidNonce,
    /// A signature of a length other than the signature type's.
    InvalidSignatureLength,
    /// Ciphertext too short to hold what the format requires.
    InvalidCiphertextLength,
    /// An input whose length cannot be encoded in the field that carries it,
    /// or that leaves no room for what must be appended.
    OversizedInput,
    /// The algorithm name is not a known token.
    UnknownAlgorithm,
    /// The algorithm cannot be the target of the requested operation.
    UnsupportedAlgorithm,
    /// The key size of the target algorithm is more than the derivation
    /// produces.
    UnsupportedKeySize,
    /// The signature type does not belong to the key's algorithm family.
    UnsupportedSignatureType,
    /// The output sink has no room for the bytes written to it.
    ExceededBuffer,
    /// An authentication tag did not match the ciphertext.
    Authentication,
    /// The cipher refused to encrypt.
    Encryption,
    /// The signing primitive reported an error.
    Signing,
    /// The system's random source reported an error.
    RandomSource,
}

impl Error {
    /// The class of `self`, as a specification.
    pub open spec fn spec_kind(self) -> ErrorKind {
        match self {
            Error::WrongKeyType => ErrorKind::Input,
            Error::MissingSecretKey => ErrorKind::Input,
            Error::InvalidKeyLength => ErrorKind::Input,
            Error::InvalidNonce => ErrorKind::Input,
            Error::InvalidSignatureLength => ErrorKind::Input,
            Error::InvalidCiphertextLength => ErrorKind::Input,
            Error::OversizedInput => ErrorKind::Input,
            Error::ExceededBuffer => ErrorKind::Input,
            Error::UnknownAlgorithm => ErrorKind::Unsupported,
            Error::UnsupportedAlgorithm => ErrorKind::Unsupported,
            Error::UnsupportedKeySize => ErrorKind::Unsupported,
            Error::UnsupportedSignatureType => ErrorKind::Unsupported,
            Error::Authentication => ErrorKind::Crypto,
            Error::Encryption => ErrorKind::Crypto,
            Error::Signing => ErrorKind::Crypto,
            Error::RandomSource => ErrorKind::Crypto,
        }
    }

    /// The human-readable message of `self`, as a specification.
    pub open spec fn spec_message(self) -> Seq<char> {
        match self {
            Error::WrongKeyType => "x25519 keypair required"@,
            Error::MissingSecretKey => "missing secret key"@,
            Error::InvalidKeyLength => "invalid key length"@,
            Error::InvalidNonce => "invalid nonce length"@,
            Error::InvalidSignatureLength => "invalid signature length"@,
            Error::InvalidCiphertextLength => "invalid size for encrypted data"@,
            Error::OversizedInput => "input too long"@,
            Error::ExceededBuffer => "exceeded buffer size"@,
            Error::UnknownAlgorithm => "unknown key algorithm"@,
            Error::UnsupportedAlgorithm => "unsupported algorithm for this operation"@,
            Error::UnsupportedKeySize => "exceeded maximum output size"@,
            Error::UnsupportedSignatureType => "unsupported signature type"@,
            Error::Authentication => "authentication failed"@,
            Error::Encryption => "encryption error"@,
            Error::Signing => "signing error"@,
            Error::RandomSource => "random source unavailable"@,
        }
    }

    /// The class of `self`.
    pub fn kind(&self) -> (kind: ErrorKind)
        ensures
            kind == self.spec_kind(),
    {
        match self {
            Error::WrongKeyType => ErrorKind::Input,
            Error::MissingSecretKey => ErrorKind::Input,
            Error::InvalidKeyLength => ErrorKind::Input,
            Error::InvalidNonce => ErrorKind::Input,
            Error::InvalidSignatureLength => ErrorKind::Input,
            Error::InvalidCiphertextLength => ErrorKind::Input,
            Error::OversizedInput => ErrorKind::Input,
            Error::ExceededBuffer => ErrorKind::Input,
            Error::UnknownAlgorithm => ErrorKind::Unsupported,
            Error::UnsupportedAlgorithm => ErrorKind::Unsupported,
            Error::UnsupportedKeySize => ErrorKind::Unsupported,
            Error::UnsupportedSignatureType => ErrorKind::Unsupported,
            Error::Authentication => ErrorKind::Crypto,
            Error::Encryption => ErrorKind::Crypto,
            Error::Signing => ErrorKind::Crypto,
            Error::RandomSource => ErrorKind::Crypto,
        }
    }

    /// The human-readable message of `self`.
    pub fn message(&self) -> (text: &'static str)
        ensures
            text@ == self.spec_message(),
    {
        match self {
            Error::WrongKeyType => "x25519 keypair required",
            Error::MissingSecretKey => "missing secret key",
            Error::InvalidKeyLength => "invalid key length",
            Error::InvalidNonce => "invalid nonce length",
            Error::InvalidSignatureLength => "invalid signature length",
            Error::InvalidCiphertextLength => "invalid size for encrypted data",
            Error::OversizedInput => "input too long",
            Error::ExceededBuffer => "exceeded buffer size",
            Error::UnknownAlgorithm => "unknown key algorithm",
            Error::UnsupportedAlgorithm => "unsupported algorithm for this operation",
            Error::UnsupportedKeySize => "exceeded maximum output size",
            Error::UnsupportedSignatureType => "unsupported signature type",
            Error::Authentication => "authentication failed",
            Error::Encryption => "encryption error",
            Error::Signing => "signing error",
            Error::RandomSource => "random source unavailable",
        }
    }
}

} // verus!
