//! The cryptographic primitives that the layer builds on.
//!
//! Curve arithmetic, ciphers, hash functions and the random source are not
//! part of this library: they belong to the crates that this file calls.
//! Each primitive has a name in specifications (an uninterpreted function of
//! its inputs) and one entry point whose contract ties the bytes computed to
//! that name. Those contracts are believed, not proved; everything else in
//! the library is proved from them.

use vstd::prelude::*;

use crate::error::Error;

verus! {

/// Length in bytes of an X25519 private or public key.
pub const X25519_KEY_LENGTH: usize = 32;

/// Length in bytes of an Ed25519 seed or public key.
pub const ED25519_KEY_LENGTH: usize = 32;

/// Length in bytes of an Ed25519 signature.
pub const ED25519_SIGNATURE_LENGTH: usize = 64;

/// Length in bytes of a box nonce.
pub const CBOX_NONCE_SIZE: usize = 24;

/// Length in bytes of a box authentication tag.
pub const CBOX_TAG_SIZE: usize = 16;

/// The X25519 function of a scalar and a point's u-coordinate.
pub uninterp spec fn x25519_output(scalar: Seq<u8>, point: Seq<u8>) -> Seq<u8>;

/// `x25519_dalek::x25519`: the byte-oriented X25519 function. It clamps the
/// scalar, multiplies the point by it and encodes the product, so its result
/// depends on the two arguments alone: it is `x25519_output` of them.
pub assume_specification[ x25519_dalek::x25519 ](k: [u8; 32], u: [u8; 32]) -> (r: [u8; 32])
    ensures
        r@ == x25519_output(k@, u@),
;

/// The u-coordinate 9 of the X25519 base point, as 32 little-endian bytes.
pub open spec fn x25519_base_point() -> Seq<u8> {
    Seq::new(32, |i: int| if i == 0 { 9u8 } else { 0u8 })
}

/// The public key that belongs to an X25519 private key.
pub open spec fn x25519_public(secret: Seq<u8>) -> Seq<u8> {
    x25519_output(secret, x25519_base_point())
}

/// The public key that belongs to the private key `secret`.
pub fn x25519_public_key(secret: &[u8; 32]) -> (public: [u8; 32])
    ensures
        public@ == x25519_public(secret@),
{
    let mut base: [u8; 32] = [0u8; 32];
    base[0] = 9;
    assert(base@ =~= x25519_base_point());
    x25519_dalek::x25519(*secret, base)
}

/// What the box cipher makes of a message: the ciphertext, as long as the
/// message, followed by the authentication tag; `None` where the cipher
/// refuses.
pub uninterp spec fn salsa_box_sealed(
    public: Seq<u8>,
    secret: Seq<u8>,
    nonce: Seq<u8>,
    message: Seq<u8>,
) -> Option<Seq<u8>>;

/// What the box cipher makes of a ciphertext followed by its tag: the
/// message, or `None` where the tag does not authenticate the ciphertext.
pub uninterp spec fn salsa_box_opened(
    public: Seq<u8>,
    secret: Seq<u8>,
    nonce: Seq<u8>,
    sealed: Seq<u8>,
) -> Option<Seq<u8>>;

/// Encrypts `buffer` in place and returns the tag. Calls
/// `AeadInPlace::encrypt_in_place_detached` on a `crypto_box::SalsaBox` made
/// of the recipient's public key and the sender's private key, with no
/// associated data. The cipher applies a key stream to the buffer, so the
/// length stays; where it returns an error it has not touched the buffer.
#[verifier::external_body]
pub(crate) fn salsa_box_encrypt(
    public: &[u8; 32],
    secret: &[u8; 32],
    nonce: &[u8; 24],
    buffer: &mut Vec<u8>,
) -> (tag: Option<[u8; 16]>)
    ensures
        final(buffer)@.len() == old(buffer)@.len(),
        match salsa_box_sealed(public@, secret@, nonce@, old(buffer)@) {
            Some(sealed) => (tag matches Some(t) && final(buffer)@ + t@ == sealed),
            None => tag is None && final(buffer)@ == old(buffer)@,
        },
{
    let public = crypto_box::PublicKey::from_bytes(*public);
    let secret = crypto_box::SecretKey::from_bytes(*secret);
    let cipher = crypto_box::SalsaBox::new(&public, &secret);
    let nonce = crypto_box::Nonce::from_slice(nonce);
    match crypto_box::aead::AeadInPlace::encrypt_in_place_detached(&cipher, nonce, &[], buffer) {
        Ok(mac) => {
            let mut tag = [0u8; 16];
            tag.copy_from_slice(mac.as_slice());
            Some(tag)
        },
        Err(_) => None,
    }
}

/// Checks `tag` against `buffer` and, where it matches, decrypts `buffer` in
/// place. Calls `AeadInPlace::decrypt_in_place_detached` on a
/// `crypto_box::SalsaBox` made of the sender's public key and the
/// recipient's private key, with no associated data. The cipher compares the
/// tag first and leaves the buffer as it is where the tag does not match.
///
/// The last clause is the cipher's reason for being: what one side sealed
/// with its private key and the other's public key, the other side opens
/// with its own private key and the first side's public key. Both sides
/// reach the same shared point, because the public key of a private key is
/// that key's multiple of the base point.
#[verifier::external_body]
pub(crate) fn salsa_box_decrypt(
    public: &[u8; 32],
    secret: &[u8; 32],
    nonce: &[u8; 24],
    buffer: &mut Vec<u8>,
    tag: &[u8; 16],
) -> (ok: bool)
    ensures
        final(buffer)@.len() == old(buffer)@.len(),
        match salsa_box_opened(public@, secret@, nonce@, old(buffer)@ + tag@) {
            Some(message) => ok && final(buffer)@ == message,
            None => !ok && final(buffer)@ == old(buffer)@,
        },
        forall|peer_secret: Seq<u8>, message: Seq<u8>|
            peer_secret.len() == 32 && public@ == x25519_public(peer_secret)
                && #[trigger] salsa_box_sealed(
                x25519_public(secret@),
                peer_secret,
                nonce@,
                message,
            ) == Some(old(buffer)@ + tag@) ==> ok && final(buffer)@ == message,
{
    let public = crypto_box::PublicKey::from_bytes(*public);
    let secret = crypto_box::SecretKey::from_bytes(*secret);
    let cipher = crypto_box::SalsaBox::new(&public, &secret);
    let nonce = crypto_box::Nonce::from_slice(nonce);
    let tag = crypto_box::Tag::from_slice(tag);
    crypto_box::aead::AeadInPlace::decrypt_in_place_detached(&cipher, nonce, &[], buffer, tag)
        .is_ok()
}

/// The BLAKE2b digest of 24 bytes.
pub uninterp spec fn blake2b_24(data: Seq<u8>) -> Seq<u8>;

/// Calls `Digest::digest` of `blake2::Blake2b` with an output of 24 bytes:
/// the unkeyed BLAKE2b hash of `data`.
#[verifier::external_body]
pub(crate) fn blake2b_24_digest(data: &[u8]) -> (digest: [u8; 24])
    ensures
        digest@ == blake2b_24(data@),
{
    let hash = <blake2::Blake2b<blake2::digest::consts::U24> as blake2::Digest>::digest(data);
    let mut digest = [0u8; 24];
    digest.copy_from_slice(hash.as_slice());
    digest
}

/// The SHA-256 digest.
pub uninterp spec fn sha256(data: Seq<u8>) -> Seq<u8>;

/// Calls `Digest::digest` of `sha2::Sha256`: the SHA-256 hash of `data`.
#[verifier::external_body]
pub(crate) fn sha256_digest(data: &[u8]) -> (digest: [u8; 32])
    ensures
        digest@ == sha256(data@),
{
    let hash = <sha2::Sha256 as sha2::Digest>::digest(data);
    let mut digest = [0u8; 32];
    digest.copy_from_slice(hash.as_slice());
    digest
}

/// Calls `getrandom::getrandom` on an array of `N` bytes: bytes from the
/// system's random source, or `None` where the source reports an error.
/// Nothing is known of the bytes.
#[verifier::external_body]
pub(crate) fn random_bytes<const N: usize>() -> (bytes: Option<[u8; N]>) {
    let mut bytes = [0u8; N];
    match getrandom::getrandom(&mut bytes) {
        Ok(()) => Some(bytes),
        Err(_) => None,
    }
}

/// What a draw from the random source comes to: the bytes drawn, or the
/// failure of the source.
pub fn drawn<const N: usize>(bytes: Option<[u8; N]>) -> (r: Result<[u8; N], Error>)
    ensures
        r == match bytes {
            Some(b) => Ok::<[u8; N], Error>(b),
            None => Err(Error::RandomSource),
        },
{
    match bytes {
        Some(bytes) => Ok(bytes),
        None => Err(Error::RandomSource),
    }
}

/// Draws `N` bytes from the system's random source.
pub fn random_array<const N: usize>() -> (r: Result<[u8; N], Error>)
    ensures
        r matches Err(e) ==> e == Error::RandomSource,
{
    drawn(random_bytes::<N>())
}

/// Overwrites `bytes` with zeros. Calls `Zeroize::zeroize` of the array,
/// which writes a zero over every element with a write that the compiler
/// may not remove.
#[verifier::external_body]
pub(crate) fn wipe_array<const N: usize>(bytes: &mut [u8; N])
    ensures
        final(bytes)@ == Seq::new(N as nat, |i: int| 0u8),
{
    zeroize::Zeroize::zeroize(bytes);
}

/// The Ed25519 public key that belongs to a seed.
pub uninterp spec fn ed25519_public(seed: Seq<u8>) -> Seq<u8>;

/// The Ed25519 signature of a message under a seed; `None` where the signer
/// reports an error.
pub uninterp spec fn ed25519_signed(seed: Seq<u8>, message: Seq<u8>) -> Option<Seq<u8>>;

/// Whether the Ed25519 verifier accepts a signature of a message under a
/// public key.
pub uninterp spec fn ed25519_accepts(
    public: Seq<u8>,
    message: Seq<u8>,
    signature: Seq<u8>,
) -> bool;

/// Calls `ed25519_dalek::SigningKey::from_bytes` and `verifying_key`: the
/// public key derived from `seed`.
#[verifier::external_body]
pub(crate) fn ed25519_public_key(seed: &[u8; 32]) -> (public: [u8; 32])
    ensures
        public@ == ed25519_public(seed@),
{
    ed25519_dalek::SigningKey::from_bytes(seed).verifying_key().to_bytes()
}

/// Calls `Signer::try_sign` of `ed25519_dalek::SigningKey`. Signing is
/// deterministic: the signature depends on the seed and the message alone.
/// The second clause says that the verifier accepts what the signer made,
/// under the public key of the same seed: it recomputes the commitment from
/// the response and finds the one that the signer encoded.
#[verifier::external_body]
pub(crate) fn ed25519_sign(seed: &[u8; 32], message: &[u8]) -> (signature: Option<[u8; 64]>)
    ensures
        match ed25519_signed(seed@, message@) {
            Some(bytes) => signature matches Some(s) && s@ == bytes,
            None => signature is None,
        },
        signature matches Some(s) ==> ed25519_accepts(ed25519_public(seed@), message@, s@),
{
    let key = ed25519_dalek::SigningKey::from_bytes(seed);
    match ed25519_dalek::Signer::try_sign(&key, message) {
        Ok(signature) => Some(signature.to_bytes()),
        Err(_) => None,
    }
}

/// Calls `Verifier::verify` of `ed25519_dalek::VerifyingKey`. Bytes that
/// decode to no public key verify nothing.
#[verifier::external_body]
pub(crate) fn ed25519_verify(public: &[u8; 32], message: &[u8], signature: &[u8; 64]) -> (ok: bool)
    ensures
        ok == ed25519_accepts(public@, message@, signature@),
{
    let signature = ed25519_dalek::Signature::from_bytes(signature);
    match ed25519_dalek::VerifyingKey::from_bytes(public) {
        Ok(key) => ed25519_dalek::Verifier::verify(&key, message, &signature).is_ok(),
        Err(_) => false,
    }
}

} // verus!
