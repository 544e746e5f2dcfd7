//! Box encryption and key derivation on key handles.
//!
//! Every operation here takes [`LocalKey`] handles and needs X25519 keys. It
//! narrows each handle with [`cast_x25519`] before anything else, so a
//! handle of another family is refused with [`Error::WrongKeyType`] whatever
//! the other arguments are.

use vstd::prelude::*;
use vstd::string::StringSliceAdditionalSpecFns;

use crate::alg::{alg_of_name, KeyAlg};
use crate::buffer::{secret_result, vec_result, SecretBytes};
use crate::error::{Error, ErrorKind};
use crate::kdf::{ecdh_1pu_derived, ecdh_es_derived, Ecdh1PU, EcdhEs};
use crate::key::{KeyView, LocalKey, X25519KeyPair};
use crate::nacl_box::{
    box_decrypt,
    box_decrypted,
    box_encrypt,
    box_encrypted,
    box_seal,
    box_seal_open,
    box_seal_opened,
    is_some_sealed_box,
    opens_sealed,
    opens_sealed_box,
    CBOX_SEAL_OVERHEAD,
};
use crate::primitives::{random_array, CBOX_NONCE_SIZE, CBOX_TAG_SIZE};

verus! {

/// Narrows a handle to the X25519 key that it wraps.
pub fn cast_x25519(key: &LocalKey) -> (r: Result<&X25519KeyPair, Error>)
    ensures
        match *key {
            LocalKey::X25519(pair) => r == Ok::<&X25519KeyPair, Error>(&pair),
            _ => r == Err::<&X25519KeyPair, Error>(Error::WrongKeyType),
        },
{
    if let LocalKey::X25519(pair) = key {
        Ok(pair)
    } else {
        Err(Error::WrongKeyType)
    }
}

/// Generates a new random nonce for [`crypto_box`]. Nothing is known of the
/// bytes; the only failure is that of the random source.
pub fn crypto_box_random_nonce() -> (r: Result<[u8; CBOX_NONCE_SIZE], Error>)
    ensures
        match r {
            Ok(nonce) => nonce@.len() == CBOX_NONCE_SIZE,
            Err(e) => e == Error::RandomSource,
        },
{
    random_array::<CBOX_NONCE_SIZE>()
}

/// What [`crypto_box`] returns.
pub open spec fn crypto_box_result(
    recip: LocalKey,
    sender: LocalKey,
    message: Seq<u8>,
    nonce: Seq<u8>,
) -> Result<Seq<u8>, Error> {
    match recip {
        LocalKey::X25519(recip_pk) => match sender {
            LocalKey::X25519(sender_sk) => if message.len() + CBOX_TAG_SIZE > usize::MAX {
                Err(Error::OversizedInput)
            } else {
                box_encrypted(recip_pk, sender_sk, message, nonce)
            },
            _ => Err(Error::WrongKeyType),
        },
        _ => Err(Error::WrongKeyType),
    }
}

/// The contract of [`crypto_box`]: the result, and the length of a box.
pub open spec fn crypto_box_post(
    recip: LocalKey,
    sender: LocalKey,
    message: Seq<u8>,
    nonce: Seq<u8>,
    r: Result<Seq<u8>, Error>,
) -> bool {
    &&& r == crypto_box_result(recip, sender, message, nonce)
    &&& r matches Ok(sealed) ==> sealed.len() == message.len() + CBOX_TAG_SIZE
}

/// Encrypts a message with the box cipher and a detached nonce, for
/// `recip_x25519` (whose public key is used) from `sender_x25519` (whose
/// private key is used). Returns the ciphertext followed by the tag.
///
/// The message is encrypted in place in a secret buffer made with room for
/// the tag. A pair of keys must not seal two different messages under one
/// nonce.
pub fn crypto_box(
    recip_x25519: &LocalKey,
    sender_x25519: &LocalKey,
    message: &[u8],
    nonce: &[u8],
) -> (r: Result<Vec<u8>, Error>)
    ensures
        crypto_box_post(*recip_x25519, *sender_x25519, message@, nonce@, vec_result(r)),
{
    let recip_pk = match cast_x25519(recip_x25519) {
        Ok(recip_pk) => recip_pk,
        Err(e) => {
            return Err(e);
        },
    };
    let sender_sk = match cast_x25519(sender_x25519) {
        Ok(sender_sk) => sender_sk,
        Err(e) => {
            return Err(e);
        },
    };
    if message.len() > usize::MAX - CBOX_TAG_SIZE {
        return Err(Error::OversizedInput);
    }
    let mut buffer = SecretBytes::from_slice_reserve(message, CBOX_TAG_SIZE);
    match box_encrypt(recip_pk, sender_sk, &mut buffer, nonce) {
        Ok(()) => Ok(buffer.into_vec()),
        Err(e) => Err(e),
    }
}

/// What [`crypto_box_open`] returns.
pub open spec fn crypto_box_open_result(
    recip: LocalKey,
    sender: LocalKey,
    sealed: Seq<u8>,
    nonce: Seq<u8>,
) -> Result<Seq<u8>, Error> {
    match recip {
        LocalKey::X25519(recip_sk) => match sender {
            LocalKey::X25519(sender_pk) => box_decrypted(recip_sk, sender_pk, sealed, nonce),
            _ => Err(Error::WrongKeyType),
        },
        _ => Err(Error::WrongKeyType),
    }
}

/// The contract of [`crypto_box_open`]: the result, that it is the message
/// of whatever box the input is, and the length of a message.
pub open spec fn crypto_box_open_post(
    recip: LocalKey,
    sender: LocalKey,
    sealed: Seq<u8>,
    nonce: Seq<u8>,
    r: Result<Seq<u8>, Error>,
) -> bool {
    &&& r == crypto_box_open_result(recip, sender, sealed, nonce)
    &&& match (recip, sender) {
        (LocalKey::X25519(recip_sk), LocalKey::X25519(sender_pk)) => opens_sealed(
            recip_sk,
            sender_pk.public_bytes(),
            sealed,
            nonce,
            r,
        ),
        _ => true,
    }
    &&& r matches Ok(message) ==> message.len() + CBOX_TAG_SIZE == sealed.len()
}

/// Decrypts a message with the box cipher and a detached nonce, for
/// `recip_x25519` (whose private key is used) from `sender_x25519` (whose
/// public key is used). `message` is the ciphertext followed by the tag.
///
/// Where the tag does not match the result is [`Error::Authentication`]: no
/// byte of the attempt is returned, and the buffer that held it is wiped.
pub fn crypto_box_open(
    recip_x25519: &LocalKey,
    sender_x25519: &LocalKey,
    message: &[u8],
    nonce: &[u8],
) -> (r: Result<SecretBytes, Error>)
    ensures
        crypto_box_open_post(*recip_x25519, *sender_x25519, message@, nonce@, secret_result(r)),
        r matches Ok(opened) ==> opened.wf(),
{
    let recip_sk = match cast_x25519(recip_x25519) {
        Ok(recip_sk) => recip_sk,
        Err(e) => {
            return Err(e);
        },
    };
    let sender_pk = match cast_x25519(sender_x25519) {
        Ok(sender_pk) => sender_pk,
        Err(e) => {
            return Err(e);
        },
    };
    box_decrypt(recip_sk, sender_pk, message, nonce)
}

/// The contract of [`crypto_box_seal`]: a handle of another family is
/// refused, and so is a message too long to seal; otherwise the result is a
/// sealed box of the message from some ephemeral key, unless the random
/// source or the cipher fails.
pub open spec fn crypto_box_seal_post(
    recip: LocalKey,
    message: Seq<u8>,
    r: Result<Seq<u8>, Error>,
) -> bool {
    match recip {
        LocalKey::X25519(recip_pk) => match r {
            Ok(sealed) => is_some_sealed_box(recip_pk.public_bytes(), message, sealed),
            Err(e) => if message.len() + CBOX_SEAL_OVERHEAD > usize::MAX {
                e == Error::OversizedInput
            } else {
                e == Error::RandomSource || e == Error::Encryption
            },
        },
        _ => r == Err::<Seq<u8>, Error>(Error::WrongKeyType),
    }
}

/// Seals a message for `recip_x25519` alone, from no named sender: the box
/// of a fresh ephemeral key, whose public key stands in front of the
/// ciphertext and the tag.
pub fn crypto_box_seal(recip_x25519: &LocalKey, message: &[u8]) -> (r: Result<Vec<u8>, Error>)
    ensures
        crypto_box_seal_post(*recip_x25519, message@, vec_result(r)),
{
    let kp = match cast_x25519(recip_x25519) {
        Ok(kp) => kp,
        Err(e) => {
            return Err(e);
        },
    };
    let sealed = match box_seal(kp, message) {
        Ok(sealed) => sealed,
        Err(e) => {
            return Err(e);
        },
    };
    Ok(sealed.into_vec())
}

/// What [`crypto_box_seal_open`] returns.
pub open spec fn crypto_box_seal_open_result(
    recip: LocalKey,
    sealed: Seq<u8>,
) -> Result<Seq<u8>, Error> {
    match recip {
        LocalKey::X25519(recip_sk) => box_seal_opened(recip_sk, sealed),
        _ => Err(Error::WrongKeyType),
    }
}

/// The contract of [`crypto_box_seal_open`]: the result, that it is the
/// message of whatever sealed box the input is, and the length of a
/// message.
pub open spec fn crypto_box_seal_open_post(
    recip: LocalKey,
    sealed: Seq<u8>,
    r: Result<Seq<u8>, Error>,
) -> bool {
    &&& r == crypto_box_seal_open_result(recip, sealed)
    &&& match recip {
        LocalKey::X25519(recip_sk) => opens_sealed_box(recip_sk, sealed, r),
        _ => true,
    }
    &&& r matches Ok(message) ==> message.len() + CBOX_SEAL_OVERHEAD == sealed.len()
}

/// Opens a sealed box with the recipient's private key.
///
/// Where the tag does not match the result is [`Error::Authentication`]: no
/// byte of the attempt is returned, and the buffer that held it is wiped.
pub fn crypto_box_seal_open(recip_x25519: &LocalKey, ciphertext: &[u8]) -> (r: Result<
    SecretBytes,
    Error,
>)
    ensures
        crypto_box_seal_open_post(*recip_x25519, ciphertext@, secret_result(r)),
        r matches Ok(opened) ==> opened.wf(),
{
    let kp = match cast_x25519(recip_x25519) {
        Ok(kp) => kp,
        Err(e) => {
            return Err(e);
        },
    };
    box_seal_open(kp, ciphertext)
}

/// What a result that carries a key handle holds.
pub open spec fn key_result(r: Result<LocalKey, Error>) -> Result<KeyView, Error> {
    match r {
        Ok(key) => Ok(key@),
        Err(e) => Err(e),
    }
}

/// The key of algorithm `alg` with the bytes that a derivation gave, or the
/// derivation's error.
pub open spec fn symmetric_key_of(
    alg: KeyAlg,
    derived: Result<Seq<u8>, Error>,
) -> Result<KeyView, Error> {
    match derived {
        Ok(key) => Ok(KeyView::Symmetric { alg, key }),
        Err(e) => Err(e),
    }
}

/// What [`derive_key_ecdh_1pu`] returns. The handles are narrowed first,
/// then the algorithm is parsed; the target must be a symmetric algorithm
/// with a key of at most 32 bytes.
pub open spec fn derive_key_ecdh_1pu_result(
    ephem: LocalKey,
    sender: LocalKey,
    recip: LocalKey,
    alg: Seq<u8>,
    apu: Seq<u8>,
    apv: Seq<u8>,
) -> Result<KeyView, Error> {
    match (ephem, sender, recip) {
        (LocalKey::X25519(e), LocalKey::X25519(s), LocalKey::X25519(r)) => match alg_of_name(alg) {
            None => Err(Error::UnknownAlgorithm),
            Some(key_alg) => match key_alg.spec_symmetric_key_length() {
                None => Err(Error::UnsupportedAlgorithm),
                Some(len) => symmetric_key_of(
                    key_alg,
                    ecdh_1pu_derived(e, s, r, alg, apu, apv, len),
                ),
            },
        },
        _ => Err(Error::WrongKeyType),
    }
}

/// Derives an ECDH-1PU shared key for authenticated encryption.
///
/// The order of the keys is fixed: the ephemeral key, the sender's static
/// key, the recipient's key. The bytes of `alg` as given, `apu` and `apv`
/// enter the derivation, each with its length.
pub fn derive_key_ecdh_1pu(
    ephem_key: &LocalKey,
    sender_key: &LocalKey,
    recip_key: &LocalKey,
    alg: &str,
    apu: &[u8],
    apv: &[u8],
) -> (r: Result<LocalKey, Error>)
    ensures
        key_result(r) == derive_key_ecdh_1pu_result(
            *ephem_key,
            *sender_key,
            *recip_key,
            alg.spec_bytes(),
            apu@,
            apv@,
        ),
        r matches Ok(key) ==> key.wf(),
{
    let ephem = match cast_x25519(ephem_key) {
        Ok(ephem) => ephem,
        Err(e) => {
            return Err(e);
        },
    };
    let sender = match cast_x25519(sender_key) {
        Ok(sender) => sender,
        Err(e) => {
            return Err(e);
        },
    };
    let recip = match cast_x25519(recip_key) {
        Ok(recip) => recip,
        Err(e) => {
            return Err(e);
        },
    };
    let key_alg = match KeyAlg::from_str(alg) {
        Ok(key_alg) => key_alg,
        Err(e) => {
            return Err(e);
        },
    };
    let derive = Ecdh1PU::new(ephem, sender, recip, alg.as_bytes(), apu, apv);
    LocalKey::from_key_derivation(key_alg, derive)
}

/// What [`derive_key_ecdh_es`] returns. The handles are narrowed first, then
/// the algorithm is parsed; the target must be a symmetric algorithm with a
/// key of at most 32 bytes.
pub open spec fn derive_key_ecdh_es_result(
    ephem: LocalKey,
    recip: LocalKey,
    alg: Seq<u8>,
    apu: Seq<u8>,
    apv: Seq<u8>,
) -> Result<KeyView, Error> {
    match (ephem, recip) {
        (LocalKey::X25519(e), LocalKey::X25519(r)) => match alg_of_name(alg) {
            None => Err(Error::UnknownAlgorithm),
            Some(key_alg) => match key_alg.spec_symmetric_key_length() {
                None => Err(Error::UnsupportedAlgorithm),
                Some(len) => symmetric_key_of(key_alg, ecdh_es_derived(e, r, alg, apu, apv, len)),
            },
        },
        _ => Err(Error::WrongKeyType),
    }
}

/// Derives an ECDH-ES shared key for anonymous encryption.
///
/// The bytes of `alg` as given, `apu` and `apv` enter the derivation, each
/// with its length.
pub fn derive_key_ecdh_es(
    ephem_key: &LocalKey,
    recip_key: &LocalKey,
    alg: &str,
    apu: &[u8],
    apv: &[u8],
) -> (r: Result<LocalKey, Error>)
    ensures
        key_result(r) == derive_key_ecdh_es_result(
            *ephem_key,
            *recip_key,
            alg.spec_bytes(),
            apu@,
            apv@,
        ),
        r matches Ok(key) ==> key.wf(),
{
    let ephem = match cast_x25519(ephem_key) {
        Ok(ephem) => ephem,
        Err(e) => {
            return Err(e);
        },
    };
    let recip = match cast_x25519(recip_key) {
        Ok(recip) => recip,
        Err(e) => {
            return Err(e);
        },
    };
    let key_alg = match KeyAlg::from_str(alg) {
        Ok(key_alg) => key_alg,
        Err(e) => {
            return Err(e);
        },
    };
    let derive = EcdhEs::new(ephem, recip, alg.as_bytes(), apu, apv);
    LocalKey::from_key_derivation(key_alg, derive)
}

/// Whether the handle wraps an X25519 key that holds its private key.
pub open spec fn is_x25519_pair(key: LocalKey) -> bool {
    key matches LocalKey::X25519(pair) && pair.secret_bytes() is Some
}

/// Opening a box gives back the message: whatever [`crypto_box_open`] may
/// return on what [`crypto_box`] returned for two key pairs, a message and
/// a nonce, it is that message.
pub proof fn lemma_crypto_box_round_trip(
    recip: LocalKey,
    sender: LocalKey,
    message: Seq<u8>,
    nonce: Seq<u8>,
    sealed: Seq<u8>,
    opened: Result<Seq<u8>, Error>,
)
    requires
        recip.wf(),
        sender.wf(),
        is_x25519_pair(recip),
        crypto_box_post(recip, sender, message, nonce, Ok(sealed)),
        crypto_box_open_post(recip, sender, sealed, nonce, opened),
    ensures
        opened == Ok::<Seq<u8>, Error>(message),
{
}

/// Opening a sealed box gives back the message: whatever
/// [`crypto_box_seal_open`] may return on what [`crypto_box_seal`] returned
/// for a recipient and a message, it is that message. No sender takes part.
pub proof fn lemma_crypto_box_seal_round_trip(
    recip: LocalKey,
    message: Seq<u8>,
    sealed: Seq<u8>,
    opened: Result<Seq<u8>, Error>,
)
    requires
        recip.wf(),
        is_x25519_pair(recip),
        crypto_box_seal_post(recip, message, Ok(sealed)),
        crypto_box_seal_open_post(recip, sealed, opened),
    ensures
        opened == Ok::<Seq<u8>, Error>(message),
{
}

/// An anonymous derivation is a function of its inputs: two results for the
/// same keys, algorithm name, producer and consumer information are the
/// same algorithm and the same key bytes.
pub proof fn lemma_derive_key_ecdh_es_deterministic(
    ephem: LocalKey,
    recip: LocalKey,
    alg: Seq<u8>,
    apu: Seq<u8>,
    apv: Seq<u8>,
    first: Result<KeyView, Error>,
    second: Result<KeyView, Error>,
)
    requires
        first == derive_key_ecdh_es_result(ephem, recip, alg, apu, apv),
        second == derive_key_ecdh_es_result(ephem, recip, alg, apu, apv),
    ensures
        first == second,
{
}

/// An authenticated derivation is a function of its inputs: two results for
/// the same keys, algorithm name, producer and consumer information are the
/// same algorithm and the same key bytes.
pub proof fn lemma_derive_key_ecdh_1pu_deterministic(
    ephem: LocalKey,
    sender: LocalKey,
    recip: LocalKey,
    alg: Seq<u8>,
    apu: Seq<u8>,
    apv: Seq<u8>,
    first: Result<KeyView, Error>,
    second: Result<KeyView, Error>,
)
    requires
        first == derive_key_ecdh_1pu_result(ephem, sender, recip, alg, apu, apv),
        second == derive_key_ecdh_1pu_result(ephem, sender, recip, alg, apu, apv),
    ensures
        first == second,
{
}

/// A handle that wraps no X25519 key is refused by every box and derivation
/// operation, with an error of the input class, whatever the other
/// arguments are.
pub proof fn lemma_wrong_key_type_refused(
    key: LocalKey,
    other: LocalKey,
    third: LocalKey,
    data: Seq<u8>,
    nonce: Seq<u8>,
    alg: Seq<u8>,
    apu: Seq<u8>,
    apv: Seq<u8>,
    sealed: Result<Seq<u8>, Error>,
)
    requires
        !(key is X25519),
        crypto_box_seal_post(key, data, sealed),
    ensures
        Error::WrongKeyType.spec_kind() == ErrorKind::Input,
        crypto_box_result(key, other, data, nonce) == Err::<Seq<u8>, Error>(Error::WrongKeyType),
        crypto_box_result(other, key, data, nonce) == Err::<Seq<u8>, Error>(Error::WrongKeyType),
        crypto_box_open_result(key, other, data, nonce) == Err::<Seq<u8>, Error>(
            Error::WrongKeyType,
        ),
        crypto_box_open_result(other, key, data, nonce) == Err::<Seq<u8>, Error>(
            Error::WrongKeyType,
        ),
        sealed == Err::<Seq<u8>, Error>(Error::WrongKeyType),
        crypto_box_seal_open_result(key, data) == Err::<Seq<u8>, Error>(Error::WrongKeyType),
        derive_key_ecdh_es_result(key, other, alg, apu, apv) == Err::<KeyView, Error>(
            Error::WrongKeyType,
        ),
        derive_key_ecdh_es_result(other, key, alg, apu, apv) == Err::<KeyView, Error>(
            Error::WrongKeyType,
        ),
        derive_key_ecdh_1pu_result(key, other, third, alg, apu, apv) == Err::<KeyView, Error>(
            Error::WrongKeyType,
        ),
        derive_key_ecdh_1pu_result(other, key, third, alg, apu, apv) == Err::<KeyView, Error>(
            Error::WrongKeyType,
        ),
        derive_key_ecdh_1pu_result(other, third, key, alg, apu, apv) == Err::<KeyView, Error>(
            Error::WrongKeyType,
        ),
{
}

} // verus!
