//! Concrete keys and the handle that stands for any of them.
//!
//! A [`LocalKey`] wraps exactly one concrete key. The concrete type is fixed
//! when the handle is made. An operation that needs one family narrows the
//! handle with a checked match and fails where the type is another; no
//! operation reads a key's bytes as those of another family. A handle owns
//! its key and cannot be cloned: to duplicate a key, export its bytes and
//! import them.

use vstd::prelude::*;

use crate::alg::KeyAlg;
use crate::buffer::{SecretBytes, WriteBuffer};
use crate::bytes::{to_array, wipe};
use crate::error::Error;
use crate::kdf::KeyDerivation;
use crate::primitives::{
    ed25519_accepts,
    ed25519_public,
    ed25519_public_key,
    ed25519_sign,
    ed25519_signed,
    ed25519_verify,
    random_array,
    x25519_output,
    x25519_public,
    x25519_public_key,
    ED25519_KEY_LENGTH,
    ED25519_SIGNATURE_LENGTH,
    X25519_KEY_LENGTH,
};
use crate::sign::{KeySigVerify, KeySign, SignatureType};

verus! {

/// An X25519 key-agreement key: a public key, and the private key where the
/// holder has it.
pub struct X25519KeyPair {
    secret: Option<SecretBytes>,
    public: [u8; 32],
}

impl X25519KeyPair {
    /// The private key, where the pair holds one.
    pub closed spec fn secret_bytes(&self) -> Option<Seq<u8>> {
        match self.secret {
            Some(secret) => Some(secret@),
            None => None,
        }
    }

    /// The public key.
    pub closed spec fn public_bytes(&self) -> Seq<u8> {
        self.public@
    }

    /// Both keys have 32 bytes, and the public key is the one that belongs
    /// to the private key.
    #[verifier::type_invariant]
    pub open spec fn wf(&self) -> bool {
        &&& self.public_bytes().len() == X25519_KEY_LENGTH
        &&& match self.secret_bytes() {
            Some(secret) => {
                &&& secret.len() == X25519_KEY_LENGTH
                &&& self.public_bytes() == x25519_public(secret)
            },
            None => true,
        }
    }

    /// The pair of the private key `secret` and its public key.
    pub fn from_secret_bytes(secret: &[u8]) -> (r: Result<Self, Error>)
        ensures
            match r {
                Ok(pair) => {
                    &&& secret@.len() == X25519_KEY_LENGTH
                    &&& pair.secret_bytes() == Some(secret@)
                    &&& pair.public_bytes() == x25519_public(secret@)
                    &&& pair.wf()
                },
                Err(e) => secret@.len() != X25519_KEY_LENGTH && e == Error::InvalidKeyLength,
            },
    {
        if secret.len() != X25519_KEY_LENGTH {
            return Err(Error::InvalidKeyLength);
        }
        let mut scalar: [u8; 32] = to_array(secret);
        let public = x25519_public_key(&scalar);
        wipe(&mut scalar);
        Ok(X25519KeyPair { secret: Some(SecretBytes::from_slice(secret)), public })
    }

    /// A pair that holds the public key `public` and no private key.
    pub fn from_public_bytes(public: &[u8]) -> (r: Result<Self, Error>)
        ensures
            match r {
                Ok(pair) => public@.len() == X25519_KEY_LENGTH && pair.secret_bytes() is None
                    && pair.public_bytes() == public@ && pair.wf(),
                Err(e) => public@.len() != X25519_KEY_LENGTH && e == Error::InvalidKeyLength,
            },
    {
        if public.len() != X25519_KEY_LENGTH {
            return Err(Error::InvalidKeyLength);
        }
        Ok(X25519KeyPair { secret: None, public: to_array(public) })
    }

    /// A pair with a private key drawn from the system's random source.
    pub fn generate() -> (r: Result<Self, Error>)
        ensures
            match r {
                Ok(pair) => pair.secret_bytes() is Some && pair.wf(),
                Err(e) => e == Error::RandomSource,
            },
    {
        match random_array::<32>() {
            Ok(secret) => {
                let mut secret = secret;
                let public = x25519_public_key(&secret);
                let pair = X25519KeyPair { secret: Some(SecretBytes::from_slice(&secret)), public };
                wipe(&mut secret);
                Ok(pair)
            },
            Err(e) => Err(e),
        }
    }

    /// The public key.
    pub fn public_key(&self) -> (public: &[u8; 32])
        ensures
            public@ == self.public_bytes(),
    {
        &self.public
    }

    /// The private key, where the pair holds one.
    pub fn secret_key(&self) -> (secret: Option<&SecretBytes>)
        ensures
            match secret {
                Some(bytes) => {
                    &&& self.secret_bytes() == Some(bytes@)
                    &&& bytes@.len() == X25519_KEY_LENGTH
                },
                None => self.secret_bytes() is None,
            },
    {
        proof {
            use_type_invariant(self);
        }
        self.secret.as_ref()
    }

    /// A copy of the private key as an array, where the pair holds one. The
    /// caller wipes the copy after use.
    pub(crate) fn secret_array(&self) -> (secret: Option<[u8; 32]>)
        ensures
            match secret {
                Some(bytes) => self.secret_bytes() == Some(bytes@),
                None => self.secret_bytes() is None,
            },
    {
        match self.secret_key() {
            Some(bytes) => Some(to_array(bytes.as_slice())),
            None => None,
        }
    }

    /// The secret shared between this pair's private key and `other`'s
    /// public key.
    pub fn key_exchange(&self, other: &X25519KeyPair) -> (r: Result<SecretBytes, Error>)
        ensures
            match r {
                Ok(shared) => self.secret_bytes() matches Some(secret) && shared@ == x25519_output(
                    secret,
                    other.public_bytes(),
                ) && shared@.len() == X25519_KEY_LENGTH,
                Err(e) => self.secret_bytes() is None && e == Error::MissingSecretKey,
            },
    {
        match self.secret_array() {
            Some(secret) => {
                let mut secret = secret;
                let mut shared = x25519_dalek::x25519(secret, other.public);
                wipe(&mut secret);
                let agreed = SecretBytes::from_slice(&shared);
                wipe(&mut shared);
                Ok(agreed)
            },
            None => Err(Error::MissingSecretKey),
        }
    }
}

/// An Ed25519 signature key: a public key, and the seed where the holder has
/// it.
pub struct Ed25519KeyPair {
    secret: Option<SecretBytes>,
    public: [u8; 32],
}

impl Ed25519KeyPair {
    /// The seed, where the pair holds one.
    pub closed spec fn secret_bytes(&self) -> Option<Seq<u8>> {
        match self.secret {
            Some(secret) => Some(secret@),
            None => None,
        }
    }

    /// The public key.
    pub closed spec fn public_bytes(&self) -> Seq<u8> {
        self.public@
    }

    /// Both keys have 32 bytes, and the public key is the one that belongs
    /// to the seed.
    #[verifier::type_invariant]
    pub open spec fn wf(&self) -> bool {
        &&& self.public_bytes().len() == ED25519_KEY_LENGTH
        &&& match self.secret_bytes() {
            Some(secret) => {
                &&& secret.len() == ED25519_KEY_LENGTH
                &&& self.public_bytes() == ed25519_public(secret)
            },
            None => true,
        }
    }

    /// The pair of the seed `secret` and its public key.
    pub fn from_secret_bytes(secret: &[u8]) -> (r: Result<Self, Error>)
        ensures
            match r {
                Ok(pair) => {
                    &&& secret@.len() == ED25519_KEY_LENGTH
                    &&& pair.secret_bytes() == Some(secret@)
                    &&& pair.public_bytes() == ed25519_public(secret@)
                    &&& pair.wf()
                },
                Err(e) => secret@.len() != ED25519_KEY_LENGTH && e == Error::InvalidKeyLength,
            },
    {
        if secret.len() != ED25519_KEY_LENGTH {
            return Err(Error::InvalidKeyLength);
        }
        let mut seed: [u8; 32] = to_array(secret);
        let public = ed25519_public_key(&seed);
        wipe(&mut seed);
        Ok(Ed25519KeyPair { secret: Some(SecretBytes::from_slice(secret)), public })
    }

    /// A pair that holds the public key `public` and no seed. The bytes are
    /// taken as they are: bytes that encode no curve point make a key that
    /// accepts no signature.
    pub fn from_public_bytes(public: &[u8]) -> (r: Result<Self, Error>)
        ensures
            match r {
                Ok(pair) => public@.len() == ED25519_KEY_LENGTH && pair.secret_bytes() is None
                    && pair.public_bytes() == public@ && pair.wf(),
                Err(e) => public@.len() != ED25519_KEY_LENGTH && e == Error::InvalidKeyLength,
            },
    {
        if public.len() != ED25519_KEY_LENGTH {
            return Err(Error::InvalidKeyLength);
        }
        Ok(Ed25519KeyPair { secret: None, public: to_array(public) })
    }

    /// A pair with a seed drawn from the system's random source.
    pub fn generate() -> (r: Result<Self, Error>)
        ensures
            match r {
                Ok(pair) => pair.secret_bytes() is Some && pair.wf(),
                Err(e) => e == Error::RandomSource,
            },
    {
        match random_array::<32>() {
            Ok(seed) => {
                let mut seed = seed;
                let public = ed25519_public_key(&seed);
                let pair = Ed25519KeyPair { secret: Some(SecretBytes::from_slice(&seed)), public };
                wipe(&mut seed);
                Ok(pair)
            },
            Err(e) => Err(e),
        }
    }

    /// The public key.
    pub fn public_key(&self) -> (public: &[u8; 32])
        ensures
            public@ == self.public_bytes(),
    {
        &self.public
    }

    /// The seed, where the pair holds one.
    pub fn secret_key(&self) -> (secret: Option<&SecretBytes>)
        ensures
            match secret {
                Some(bytes) => {
                    &&& self.secret_bytes() == Some(bytes@)
                    &&& bytes@.len() == ED25519_KEY_LENGTH
                },
                None => self.secret_bytes() is None,
            },
    {
        proof {
            use_type_invariant(self);
        }
        self.secret.as_ref()
    }
}

/// Finishes a signing: writes the signature that the signer gave to `out`,
/// or reports that the signer gave none.
pub fn write_ed25519_signature<W: WriteBuffer>(signature: Option<[u8; 64]>, out: &mut W) -> (r:
    Result<(), Error>)
    ensures
        match signature {
            None => {
                &&& r == Err::<(), Error>(Error::Signing)
                &&& final(out).written() == old(out).written()
            },
            Some(s) => if ED25519_SIGNATURE_LENGTH <= old(out).room() {
                r is Ok && final(out).written() == old(out).written() + s@
            } else {
                &&& r == Err::<(), Error>(Error::ExceededBuffer)
                &&& final(out).written() == old(out).written()
            },
        },
{
    match signature {
        Some(signature) => out.buffer_write(&signature),
        None => Err(Error::Signing),
    }
}

/// The signature type that an Ed25519 key uses for a request, if any.
pub open spec fn eddsa_for(requested: Option<SignatureType>) -> Option<SignatureType> {
    match requested {
        None => Some(SignatureType::EdDSA),
        Some(SignatureType::EdDSA) => Some(SignatureType::EdDSA),
        Some(_) => None,
    }
}

impl KeySigVerify for Ed25519KeyPair {
    open spec fn sig_type_for(&self, requested: Option<SignatureType>) -> Option<SignatureType> {
        eddsa_for(requested)
    }

    open spec fn accepts(
        &self,
        message: Seq<u8>,
        signature: Seq<u8>,
        sig_type: SignatureType,
    ) -> bool {
        sig_type == SignatureType::EdDSA && ed25519_accepts(self.public_bytes(), message, signature)
    }

    fn verify_signature(
        &self,
        message: &[u8],
        signature: &[u8],
        sig_type: Option<SignatureType>,
    ) -> (r: Result<bool, Error>) {
        match sig_type {
            None | Some(SignatureType::EdDSA) => {
                if signature.len() != ED25519_SIGNATURE_LENGTH {
                    Err(Error::InvalidSignatureLength)
                } else {
                    let sig: [u8; 64] = to_array(signature);
                    Ok(ed25519_verify(&self.public, message, &sig))
                }
            },
            Some(_) => Err(Error::UnsupportedSignatureType),
        }
    }
}

impl KeySign for Ed25519KeyPair {
    open spec fn signature_of(&self, message: Seq<u8>, sig_type: SignatureType) -> Result<
        Seq<u8>,
        Error,
    > {
        match self.secret_bytes() {
            None => Err(Error::MissingSecretKey),
            Some(seed) => match ed25519_signed(seed, message) {
                Some(signature) => Ok(signature),
                None => Err(Error::Signing),
            },
        }
    }

    fn write_signature<W: WriteBuffer>(
        &self,
        message: &[u8],
        sig_type: Option<SignatureType>,
        out: &mut W,
    ) -> (r: Result<(), Error>) {
        proof {
            use_type_invariant(self);
        }
        match sig_type {
            None | Some(SignatureType::EdDSA) => {
                match self.secret_key() {
                    None => Err(Error::MissingSecretKey),
                    Some(secret) => {
                        let mut seed: [u8; 32] = to_array(secret.as_slice());
                        let signature = ed25519_sign(&seed, message);
                        wipe(&mut seed);
                        write_ed25519_signature(signature, out)
                    },
                }
            },
            Some(_) => Err(Error::UnsupportedSignatureType),
        }
    }
}

/// A symmetric key of a named algorithm.
pub struct SymmetricKey {
    alg: KeyAlg,
    key: SecretBytes,
}

impl SymmetricKey {
    /// The key's algorithm.
    pub closed spec fn spec_algorithm(&self) -> KeyAlg {
        self.alg
    }

    /// The key's bytes.
    pub closed spec fn key_bytes(&self) -> Seq<u8> {
        self.key@
    }

    /// The algorithm is a symmetric one, and the key has its length.
    #[verifier::type_invariant]
    pub open spec fn wf(&self) -> bool {
        self.spec_algorithm().spec_symmetric_key_length() == Some(self.key_bytes().len())
    }

    /// The key of algorithm `alg` with the bytes `key`.
    pub fn from_secret_bytes(alg: KeyAlg, key: &[u8]) -> (r: Result<Self, Error>)
        ensures
            match r {
                Ok(k) => k.spec_algorithm() == alg && k.key_bytes() == key@ && k.wf(),
                Err(e) => match alg.spec_symmetric_key_length() {
                    None => e == Error::UnsupportedAlgorithm,
                    Some(n) => n != key@.len() && e == Error::InvalidKeyLength,
                },
            },
    {
        match alg.symmetric_key_length() {
            None => Err(Error::UnsupportedAlgorithm),
            Some(n) => if key.len() != n {
                Err(Error::InvalidKeyLength)
            } else {
                Ok(SymmetricKey { alg, key: SecretBytes::from_slice(key) })
            },
        }
    }

    /// The key's algorithm.
    pub fn algorithm(&self) -> (alg: KeyAlg)
        ensures
            alg == self.spec_algorithm(),
    {
        self.alg
    }

    /// The key's bytes.
    pub fn secret_key(&self) -> (key: &SecretBytes)
        ensures
            key@ == self.key_bytes(),
    {
        &self.key
    }
}

/// What a key handle stands for: the family of its key and the key's bytes.
pub enum KeyView {
    /// An X25519 key.
    X25519 { secret: Option<Seq<u8>>, public: Seq<u8> },
    /// An Ed25519 key.
    Ed25519 { secret: Option<Seq<u8>>, public: Seq<u8> },
    /// A symmetric key.
    Symmetric { alg: KeyAlg, key: Seq<u8> },
}

/// A handle for one key of any supported family.
pub enum LocalKey {
    /// An X25519 key-agreement key.
    X25519(X25519KeyPair),
    /// An Ed25519 signature key.
    Ed25519(Ed25519KeyPair),
    /// A symmetric key.
    Symmetric(SymmetricKey),
}

impl View for LocalKey {
    type V = KeyView;

    open spec fn view(&self) -> KeyView {
        match self {
            LocalKey::X25519(pair) => KeyView::X25519 {
                secret: pair.secret_bytes(),
                public: pair.public_bytes(),
            },
            LocalKey::Ed25519(pair) => KeyView::Ed25519 {
                secret: pair.secret_bytes(),
                public: pair.public_bytes(),
            },
            LocalKey::Symmetric(key) => KeyView::Symmetric {
                alg: key.spec_algorithm(),
                key: key.key_bytes(),
            },
        }
    }
}

impl LocalKey {
    /// The concrete key meets its own invariant.
    pub open spec fn wf(&self) -> bool {
        match self {
            LocalKey::X25519(pair) => pair.wf(),
            LocalKey::Ed25519(pair) => pair.wf(),
            LocalKey::Symmetric(key) => key.wf(),
        }
    }

    /// The algorithm of the wrapped key.
    pub open spec fn spec_algorithm(&self) -> KeyAlg {
        match self {
            LocalKey::X25519(_) => KeyAlg::X25519,
            LocalKey::Ed25519(_) => KeyAlg::Ed25519,
            LocalKey::Symmetric(key) => key.spec_algorithm(),
        }
    }

    /// The algorithm of the wrapped key.
    pub fn algorithm(&self) -> (alg: KeyAlg)
        ensures
            alg == self.spec_algorithm(),
    {
        match self {
            LocalKey::X25519(_) => KeyAlg::X25519,
            LocalKey::Ed25519(_) => KeyAlg::Ed25519,
            LocalKey::Symmetric(key) => key.algorithm(),
        }
    }

    /// What importing `secret` as a private key of `alg` gives: the view of
    /// the new handle, or the error.
    pub open spec fn imported_secret(alg: KeyAlg, secret: Seq<u8>) -> Result<KeyView, Error> {
        match alg {
            KeyAlg::X25519 => if secret.len() == X25519_KEY_LENGTH {
                Ok(KeyView::X25519 { secret: Some(secret), public: x25519_public(secret) })
            } else {
                Err(Error::InvalidKeyLength)
            },
            KeyAlg::Ed25519 => if secret.len() == ED25519_KEY_LENGTH {
                Ok(KeyView::Ed25519 { secret: Some(secret), public: ed25519_public(secret) })
            } else {
                Err(Error::InvalidKeyLength)
            },
            _ => match alg.spec_symmetric_key_length() {
                Some(n) => if secret.len() == n {
                    Ok(KeyView::Symmetric { alg, key: secret })
                } else {
                    Err(Error::InvalidKeyLength)
                },
                None => Err(Error::UnsupportedAlgorithm),
            },
        }
    }

    /// Imports `secret` as a private key of `alg`.
    pub fn from_secret_bytes(alg: KeyAlg, secret: &[u8]) -> (r: Result<LocalKey, Error>)
        ensures
            match r {
                Ok(key) => Self::imported_secret(alg, secret@) == Ok::<KeyView, Error>(key@)
                    && key.wf(),
                Err(e) => Self::imported_secret(alg, secret@) == Err::<KeyView, Error>(e),
            },
    {
        match alg {
            KeyAlg::X25519 => match X25519KeyPair::from_secret_bytes(secret) {
                Ok(pair) => Ok(LocalKey::X25519(pair)),
                Err(e) => Err(e),
            },
            KeyAlg::Ed25519 => match Ed25519KeyPair::from_secret_bytes(secret) {
                Ok(pair) => Ok(LocalKey::Ed25519(pair)),
                Err(e) => Err(e),
            },
            _ => match SymmetricKey::from_secret_bytes(alg, secret) {
                Ok(key) => Ok(LocalKey::Symmetric(key)),
                Err(e) => Err(e),
            },
        }
    }

    /// What importing `public` as a public key of `alg` gives.
    pub open spec fn imported_public(alg: KeyAlg, public: Seq<u8>) -> Result<KeyView, Error> {
        match alg {
            KeyAlg::X25519 => if public.len() == X25519_KEY_LENGTH {
                Ok(KeyView::X25519 { secret: None, public })
            } else {
                Err(Error::InvalidKeyLength)
            },
            KeyAlg::Ed25519 => if public.len() == ED25519_KEY_LENGTH {
                Ok(KeyView::Ed25519 { secret: None, public })
            } else {
                Err(Error::InvalidKeyLength)
            },
            _ => Err(Error::UnsupportedAlgorithm),
        }
    }

    /// Imports `public` as a public key of `alg`.
    pub fn from_public_bytes(alg: KeyAlg, public: &[u8]) -> (r: Result<LocalKey, Error>)
        ensures
            match r {
                Ok(key) => Self::imported_public(alg, public@) == Ok::<KeyView, Error>(key@)
                    && key.wf(),
                Err(e) => Self::imported_public(alg, public@) == Err::<KeyView, Error>(e),
            },
    {
        match alg {
            KeyAlg::X25519 => match X25519KeyPair::from_public_bytes(public) {
                Ok(pair) => Ok(LocalKey::X25519(pair)),
                Err(e) => Err(e),
            },
            KeyAlg::Ed25519 => match Ed25519KeyPair::from_public_bytes(public) {
                Ok(pair) => Ok(LocalKey::Ed25519(pair)),
                Err(e) => Err(e),
            },
            _ => Err(Error::UnsupportedAlgorithm),
        }
    }

    /// A fresh key of `alg`, from the system's random source. Only the
    /// asymmetric families that the handle wraps can be generated.
    pub fn generate(alg: KeyAlg) -> (r: Result<LocalKey, Error>)
        ensures
            match r {
                Ok(key) => (alg == KeyAlg::X25519 || alg == KeyAlg::Ed25519)
                    && key.spec_algorithm() == alg && key.wf() && match key@ {
                    KeyView::X25519 { secret, public } => secret is Some,
                    KeyView::Ed25519 { secret, public } => secret is Some,
                    KeyView::Symmetric { alg, key } => false,
                },
                Err(e) => if alg == KeyAlg::X25519 || alg == KeyAlg::Ed25519 {
                    e == Error::RandomSource
                } else {
                    e == Error::UnsupportedAlgorithm
                },
            },
    {
        match alg {
            KeyAlg::X25519 => match X25519KeyPair::generate() {
                Ok(pair) => Ok(LocalKey::X25519(pair)),
                Err(e) => Err(e),
            },
            KeyAlg::Ed25519 => match Ed25519KeyPair::generate() {
                Ok(pair) => Ok(LocalKey::Ed25519(pair)),
                Err(e) => Err(e),
            },
            _ => Err(Error::UnsupportedAlgorithm),
        }
    }

    /// What a derivation into `alg` gives: the view of the new handle, or the
    /// error. The target must be a symmetric algorithm, and the derivation
    /// must produce a key of its length.
    pub open spec fn derived_key<D: KeyDerivation>(alg: KeyAlg, derive: D) -> Result<
        KeyView,
        Error,
    > {
        match alg.spec_symmetric_key_length() {
            None => Err(Error::UnsupportedAlgorithm),
            Some(n) => match derive.derived(n) {
                Ok(key) => Ok(KeyView::Symmetric { alg, key }),
                Err(e) => Err(e),
            },
        }
    }

    /// Runs the derivation `derive` and wraps the bytes it produces as a key
    /// of `alg`.
    pub fn from_key_derivation<D: KeyDerivation>(alg: KeyAlg, derive: D) -> (r: Result<
        LocalKey,
        Error,
    >)
        ensures
            match r {
                Ok(key) => Self::derived_key(alg, derive) == Ok::<KeyView, Error>(key@)
                    && key.wf(),
                Err(e) => Self::derived_key(alg, derive) == Err::<KeyView, Error>(e),
            },
    {
        match alg.symmetric_key_length() {
            None => Err(Error::UnsupportedAlgorithm),
            Some(n) => match derive.derive_key_bytes(n) {
                Ok(key) => Ok(LocalKey::Symmetric(SymmetricKey { alg, key })),
                Err(e) => Err(e),
            },
        }
    }

    /// The private bytes of the wrapped key, in a buffer of the caller's own.
    pub fn to_secret_bytes(&self) -> (r: Result<SecretBytes, Error>)
        ensures
            match r {
                Ok(bytes) => match self@ {
                    KeyView::X25519 { secret, public } => secret == Some(bytes@),
                    KeyView::Ed25519 { secret, public } => secret == Some(bytes@),
                    KeyView::Symmetric { alg, key } => key == bytes@,
                },
                Err(e) => e == Error::MissingSecretKey && match self@ {
                    KeyView::X25519 { secret, public } => secret is None,
                    KeyView::Ed25519 { secret, public } => secret is None,
                    KeyView::Symmetric { alg, key } => false,
                },
            },
    {
        let secret = match self {
            LocalKey::X25519(pair) => pair.secret_key(),
            LocalKey::Ed25519(pair) => pair.secret_key(),
            LocalKey::Symmetric(key) => Some(key.secret_key()),
        };
        match secret {
            Some(bytes) => Ok(SecretBytes::from_slice(bytes.as_slice())),
            None => Err(Error::MissingSecretKey),
        }
    }

    /// The public bytes of the wrapped key. A symmetric key has none.
    pub fn to_public_bytes(&self) -> (r: Result<Vec<u8>, Error>)
        ensures
            match r {
                Ok(bytes) => match self@ {
                    KeyView::X25519 { secret, public } => public == bytes@,
                    KeyView::Ed25519 { secret, public } => public == bytes@,
                    KeyView::Symmetric { alg, key } => false,
                },
                Err(e) => e == Error::UnsupportedAlgorithm && self@ is Symmetric,
            },
    {
        match self {
            LocalKey::X25519(pair) => Ok(vstd::slice::slice_to_vec(pair.public_key().as_slice())),
            LocalKey::Ed25519(pair) => Ok(vstd::slice::slice_to_vec(pair.public_key().as_slice())),
            LocalKey::Symmetric(_) => Err(Error::UnsupportedAlgorithm),
        }
    }
}

impl KeySigVerify for LocalKey {
    open spec fn sig_type_for(&self, requested: Option<SignatureType>) -> Option<SignatureType> {
        match self {
            LocalKey::Ed25519(pair) => pair.sig_type_for(requested),
            _ => None,
        }
    }

    open spec fn accepts(
        &self,
        message: Seq<u8>,
        signature: Seq<u8>,
        sig_type: SignatureType,
    ) -> bool {
        match self {
            LocalKey::Ed25519(pair) => pair.accepts(message, signature, sig_type),
            _ => false,
        }
    }

    fn verify_signature(
        &self,
        message: &[u8],
        signature: &[u8],
        sig_type: Option<SignatureType>,
    ) -> (r: Result<bool, Error>) {
        match self {
            LocalKey::Ed25519(pair) => pair.verify_signature(message, signature, sig_type),
            _ => Err(Error::UnsupportedSignatureType),
        }
    }
}

impl KeySign for LocalKey {
    open spec fn signature_of(&self, message: Seq<u8>, sig_type: SignatureType) -> Result<
        Seq<u8>,
        Error,
    > {
        match self {
            LocalKey::Ed25519(pair) => pair.signature_of(message, sig_type),
            _ => Err(Error::UnsupportedSignatureType),
        }
    }

    fn write_signature<W: WriteBuffer>(
        &self,
        message: &[u8],
        sig_type: Option<SignatureType>,
        out: &mut W,
    ) -> (r: Result<(), Error>) {
        match self {
            LocalKey::Ed25519(pair) => pair.write_signature(message, sig_type, out),
            _ => Err(Error::UnsupportedSignatureType),
        }
    }
}

} // verus!
