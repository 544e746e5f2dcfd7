//! Signature types and the two capabilities of a signing key.

use vstd::prelude::*;

use crate::alg::BlsGroups;
use crate::buffer::{secret_result, SecretBytes, WriteBuffer};
use crate::error::Error;

verus! {

/// An algorithm and curve under which signatures are made, with the fixed
/// length of its signatures.
#[derive(Clone, Copy, Debug, PartialEq, Eq, PartialOrd, Ord, Hash, Structural)]
pub enum SignatureType {
    /// BLS12-381 signatures in the given group.
    Bls12_1381(BlsGroups),
    /// Standard signature output for Ed25519.
    EdDSA,
    /// Elliptic curve DSA using P-256 and SHA-256.
    ES256,
    /// Elliptic curve DSA using K-256 and SHA-256.
    ES256K,
}

impl SignatureType {
    /// The length in bytes of every signature of this type.
    pub open spec fn spec_signature_size(self) -> nat {
        match self {
            SignatureType::Bls12_1381(BlsGroups::G1) => 48,
            SignatureType::Bls12_1381(BlsGroups::G2) => 96,
            SignatureType::EdDSA => 64,
            SignatureType::ES256 => 64,
            SignatureType::ES256K => 64,
        }
    }

    /// The length in bytes of every signature of this type.
    pub fn signature_size(&self) -> (size: usize)
        ensures
            size == self.spec_signature_size(),
    {
        match self {
            SignatureType::Bls12_1381(BlsGroups::G1) => 48,
            SignatureType::Bls12_1381(BlsGroups::G2) => 96,
            SignatureType::EdDSA => 64,
            SignatureType::ES256 => 64,
            SignatureType::ES256K => 64,
        }
    }
}

/// The largest signature of any type fits in this many bytes.
pub const MAX_SIGNATURE_SIZE: usize = 128;

/// No signature type has signatures longer than [`MAX_SIGNATURE_SIZE`].
pub proof fn lemma_signature_size_bounded(sig_type: SignatureType)
    ensures
        0 < sig_type.spec_signature_size() <= MAX_SIGNATURE_SIZE,
{
}

/// The capability to verify signatures.
pub trait KeySigVerify {
    /// The signature type under which the key handles a request: the one
    /// asked for where the key's algorithm has it, the key's own where none
    /// is asked for, and `None` where the key handles no such request.
    spec fn sig_type_for(&self, requested: Option<SignatureType>) -> Option<SignatureType>;

    /// Whether `signature` is a valid signature of `message` under this key
    /// and `sig_type`.
    spec fn accepts(&self, message: Seq<u8>, signature: Seq<u8>, sig_type: SignatureType) -> bool;

    /// Verifies `signature` over `message`.
    ///
    /// A request that the key cannot handle at all, or a signature of the
    /// wrong length for its type, is an error. A signature of the right
    /// length that is not valid is the normal result `Ok(false)`.
    fn verify_signature(
        &self,
        message: &[u8],
        signature: &[u8],
        sig_type: Option<SignatureType>,
    ) -> (r: Result<bool, Error>)
        ensures
            r == match self.sig_type_for(sig_type) {
                None => Err::<bool, Error>(Error::UnsupportedSignatureType),
                Some(t) => if signature@.len() != t.spec_signature_size() {
                    Err(Error::InvalidSignatureLength)
                } else {
                    Ok(self.accepts(message@, signature@, t))
                },
            },
    ;
}

/// What [`KeySigVerify::verify_signature`] returns.
pub open spec fn verify_signature_result<K: KeySigVerify + ?Sized>(
    key: &K,
    message: Seq<u8>,
    signature: Seq<u8>,
    requested: Option<SignatureType>,
) -> Result<bool, Error> {
    match key.sig_type_for(requested) {
        None => Err(Error::UnsupportedSignatureType),
        Some(t) => if signature.len() != t.spec_signature_size() {
            Err(Error::InvalidSignatureLength)
        } else {
            Ok(key.accepts(message, signature, t))
        },
    }
}

/// The capability to sign.
pub trait KeySign: KeySigVerify {
    /// The signature of `message` under this key and `sig_type`, or the
    /// error that keeps the key from signing.
    spec fn signature_of(&self, message: Seq<u8>, sig_type: SignatureType) -> Result<
        Seq<u8>,
        Error,
    >;

    /// Signs `message` and appends the signature to `out`.
    ///
    /// Where the key signs, the signature has the length of its type and is
    /// one that `verify_signature` accepts. Nothing is written where the key
    /// cannot sign, or where `out` has no room for the whole signature.
    fn write_signature<W: WriteBuffer>(
        &self,
        message: &[u8],
        sig_type: Option<SignatureType>,
        out: &mut W,
    ) -> (r: Result<(), Error>)
        ensures
            match self.sig_type_for(sig_type) {
                None => {
                    &&& r == Err::<(), Error>(Error::UnsupportedSignatureType)
                    &&& final(out).written() == old(out).written()
                },
                Some(t) => match self.signature_of(message@, t) {
                    Err(e) => {
                        &&& r == Err::<(), Error>(e)
                        &&& final(out).written() == old(out).written()
                    },
                    Ok(signature) => {
                        &&& signature.len() == t.spec_signature_size()
                        &&& self.accepts(message@, signature, t)
                        &&& if signature.len() <= old(out).room() {
                            r is Ok && final(out).written() == old(out).written() + signature
                        } else {
                            r == Err::<(), Error>(Error::ExceededBuffer) && final(out).written()
                                == old(out).written()
                        }
                    },
                },
            },
    ;

    /// Signs `message` into a fresh secret buffer, made with room for
    /// [`MAX_SIGNATURE_SIZE`] bytes so that no signature makes it grow.
    fn create_signature(&self, message: &[u8], sig_type: Option<SignatureType>) -> (r: Result<
        SecretBytes,
        Error,
    >)
        ensures
            match self.sig_type_for(sig_type) {
                None => (r matches Err(e) && e == Error::UnsupportedSignatureType),
                Some(t) => match self.signature_of(message@, t) {
                    Err(e) => (r matches Err(f) && f == e),
                    Ok(signature) => {
                        &&& signature.len() == t.spec_signature_size()
                        &&& self.accepts(message@, signature, t)
                        &&& (r matches Ok(buffer) && buffer@ == signature)
                    },
                },
            },
    {
        let mut buf = SecretBytes::with_capacity(MAX_SIGNATURE_SIZE);
        proof {
            if let Some(t) = self.sig_type_for(sig_type) {
                lemma_signature_size_bounded(t);
            }
        }
        match self.write_signature(message, sig_type, &mut buf) {
            Ok(()) => Ok(buf),
            Err(e) => Err(e),
        }
    }
}

/// The signature that a key makes on a request, or the error: a request
/// that the key's algorithm does not handle is unsupported.
pub open spec fn signed<K: KeySign + ?Sized>(
    key: &K,
    message: Seq<u8>,
    requested: Option<SignatureType>,
) -> Result<Seq<u8>, Error> {
    match key.sig_type_for(requested) {
        None => Err(Error::UnsupportedSignatureType),
        Some(t) => key.signature_of(message, t),
    }
}

/// Whatever the key signs on a request has the length of the signature type
/// used, and the key accepts it as a signature of the message.
pub open spec fn signs_well<K: KeySign + ?Sized>(
    key: &K,
    message: Seq<u8>,
    requested: Option<SignatureType>,
) -> bool {
    match key.sig_type_for(requested) {
        None => true,
        Some(t) => match key.signature_of(message, t) {
            Err(_) => true,
            Ok(signature) => signature.len() == t.spec_signature_size() && key.accepts(
                message,
                signature,
                t,
            ),
        },
    }
}

/// The contract of [`KeySign::create_signature`]: the result is what the key
/// signs, and that is signed well.
pub open spec fn create_signature_post<K: KeySign + ?Sized>(
    key: &K,
    message: Seq<u8>,
    requested: Option<SignatureType>,
    r: Result<Seq<u8>, Error>,
) -> bool {
    r == signed(key, message, requested) && signs_well(key, message, requested)
}

/// Verifies `signature` over `message` with any key that can verify. This
/// is [`KeySigVerify::verify_signature`], with its contract as one function
/// of the key.
pub fn verify_signature<K: KeySigVerify>(
    key: &K,
    message: &[u8],
    signature: &[u8],
    sig_type: Option<SignatureType>,
) -> (r: Result<bool, Error>)
    ensures
        r == verify_signature_result(key, message@, signature@, sig_type),
{
    key.verify_signature(message, signature, sig_type)
}

/// Signs `message` with any key that can sign. This is
/// [`KeySign::create_signature`], with its contract as one predicate of the
/// key.
pub fn create_signature<K: KeySign>(key: &K, message: &[u8], sig_type: Option<SignatureType>) -> (r:
    Result<SecretBytes, Error>)
    ensures
        create_signature_post(key, message@, sig_type, secret_result(r)),
{
    key.create_signature(message, sig_type)
}

/// A signature has the length of its type: whatever
/// [`KeySign::create_signature`] returns for a request has as many bytes as
/// `signature_size` says of the type that the key used.
pub proof fn lemma_signature_has_size_of_type<K: KeySign + ?Sized>(
    key: &K,
    message: Seq<u8>,
    requested: Option<SignatureType>,
    signature: Seq<u8>,
)
    requires
        create_signature_post(key, message, requested, Ok(signature)),
    ensures
        key.sig_type_for(requested) matches Some(t) && signature.len() == t.spec_signature_size(),
{
}

/// A key verifies what it signed: whatever
/// [`KeySigVerify::verify_signature`] returns on a message and the signature
/// that [`KeySign::create_signature`] returned for it, under the same
/// request, is `Ok(true)`.
pub proof fn lemma_sign_verify_round_trip<K: KeySign + ?Sized>(
    key: &K,
    message: Seq<u8>,
    requested: Option<SignatureType>,
    signature: Seq<u8>,
    verified: Result<bool, Error>,
)
    requires
        create_signature_post(key, message, requested, Ok(signature)),
        verified == verify_signature_result(key, message, signature, requested),
    ensures
        verified == Ok::<bool, Error>(true),
{
}

} // verus!
