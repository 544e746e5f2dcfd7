//! Authenticated public-key encryption between X25519 keys.
//!
//! The two-party box encrypts under the recipient's public key and the
//! sender's private key, with a nonce that the caller supplies. A pair of
//! keys must never seal two different messages with one nonce: the caller
//! chooses the nonces, and the caller must see to that.
//!
//! The sealed box needs no sender key: it is a box from an ephemeral key
//! made for the one message, whose public key travels in front of the
//! ciphertext.
//!
//! A sealed message is the ciphertext followed by the tag of 16 bytes.

use vstd::prelude::*;

use crate::buffer::{secret_result, SecretBytes};
use crate::bytes::{to_array, wipe};
use crate::error::Error;
use crate::key::X25519KeyPair;
use crate::primitives::{
    blake2b_24,
    blake2b_24_digest,
    salsa_box_decrypt,
    salsa_box_encrypt,
    salsa_box_opened,
    salsa_box_sealed,
    x25519_public,
    CBOX_NONCE_SIZE,
    CBOX_TAG_SIZE,
    X25519_KEY_LENGTH,
};

verus! {

/// The bytes by which a sealed box is longer than its message: the ephemeral
/// public key and the tag.
pub const CBOX_SEAL_OVERHEAD: usize = 48;

/// The box of `message` from `sender` to `recip` under `nonce`: the
/// ciphertext followed by the tag.
pub open spec fn box_encrypted(
    recip: X25519KeyPair,
    sender: X25519KeyPair,
    message: Seq<u8>,
    nonce: Seq<u8>,
) -> Result<Seq<u8>, Error> {
    match sender.secret_bytes() {
        None => Err(Error::MissingSecretKey),
        Some(secret) => if nonce.len() != CBOX_NONCE_SIZE {
            Err(Error::InvalidNonce)
        } else if message.len() + CBOX_TAG_SIZE > usize::MAX {
            Err(Error::OversizedInput)
        } else {
            match salsa_box_sealed(recip.public_bytes(), secret, nonce, message) {
                Some(sealed) => Ok(sealed),
                None => Err(Error::Encryption),
            }
        },
    }
}

/// The message in the box `sealed` from `sender` to `recip` under `nonce`.
pub open spec fn box_decrypted(
    recip: X25519KeyPair,
    sender: X25519KeyPair,
    sealed: Seq<u8>,
    nonce: Seq<u8>,
) -> Result<Seq<u8>, Error> {
    match recip.secret_bytes() {
        None => Err(Error::MissingSecretKey),
        Some(secret) => if nonce.len() != CBOX_NONCE_SIZE {
            Err(Error::InvalidNonce)
        } else if sealed.len() < CBOX_TAG_SIZE {
            Err(Error::InvalidCiphertextLength)
        } else {
            match salsa_box_opened(sender.public_bytes(), secret, nonce, sealed) {
                Some(message) => Ok(message),
                None => Err(Error::Authentication),
            }
        },
    }
}

/// `opened` is the message of every box that `sealed` can be: whatever
/// private key belongs to `sender_public`, and whatever message it sealed
/// into `sealed` for `recip` under `nonce`, that message is `opened`.
pub open spec fn opens_sealed(
    recip: X25519KeyPair,
    sender_public: Seq<u8>,
    sealed: Seq<u8>,
    nonce: Seq<u8>,
    opened: Result<Seq<u8>, Error>,
) -> bool {
    forall|sender_secret: Seq<u8>, message: Seq<u8>|
        {
            &&& recip.secret_bytes() is Some
            &&& sender_secret.len() == X25519_KEY_LENGTH
            &&& sender_public == x25519_public(sender_secret)
            &&& nonce.len() == CBOX_NONCE_SIZE
            &&& sealed.len() >= CBOX_TAG_SIZE
            &&& #[trigger] salsa_box_sealed(recip.public_bytes(), sender_secret, nonce, message)
                == Some(sealed)
        } ==> opened == Ok::<Seq<u8>, Error>(message)
}

/// Finishes an encryption in place: appends the tag that the cipher gave to
/// the ciphertext, or reports that the cipher gave none.
pub fn append_tag(buffer: &mut SecretBytes, tag: Option<[u8; 16]>) -> (r: Result<(), Error>)
    ensures
        match tag {
            None => r == Err::<(), Error>(Error::Encryption) && final(buffer)@ == old(buffer)@,
            Some(t) => if old(buffer)@.len() + CBOX_TAG_SIZE > usize::MAX {
                r == Err::<(), Error>(Error::OversizedInput) && final(buffer)@ == old(buffer)@
            } else {
                r is Ok && final(buffer)@ == old(buffer)@ + t@
            },
        },
        old(buffer).spec_capacity() >= old(buffer)@.len() + CBOX_TAG_SIZE
            ==> final(buffer).spec_capacity() == old(buffer).spec_capacity(),
        old(buffer).wf() ==> final(buffer).wf(),
{
    match tag {
        None => Err(Error::Encryption),
        Some(tag) => {
            if buffer.len() > usize::MAX - CBOX_TAG_SIZE {
                return Err(Error::OversizedInput);
            }
            buffer.extend_from_slice(&tag);
            Ok(())
        },
    }
}

/// Finishes a decryption in place: hands out the buffer where the cipher
/// found the tag authentic, and otherwise drops it, which wipes it, and
/// reports the failure.
pub fn opened_message(buffer: SecretBytes, authentic: bool) -> (r: Result<SecretBytes, Error>)
    ensures
        secret_result(r) == if authentic {
            Ok::<Seq<u8>, Error>(buffer@)
        } else {
            Err(Error::Authentication)
        },
        r matches Ok(message) ==> (buffer.wf() ==> message.wf()),
{
    if authentic {
        Ok(buffer)
    } else {
        Err(Error::Authentication)
    }
}

/// Encrypts `buffer` in place for `recip`, from `sender`, under `nonce`, and
/// appends the tag. A buffer with room for the tag does not move. On an
/// error the buffer is as it was.
pub fn box_encrypt(
    recip: &X25519KeyPair,
    sender: &X25519KeyPair,
    buffer: &mut SecretBytes,
    nonce: &[u8],
) -> (r: Result<(), Error>)
    ensures
        match box_encrypted(*recip, *sender, old(buffer)@, nonce@) {
            Ok(sealed) => r is Ok && final(buffer)@ == sealed && sealed.len() == old(buffer)@.len()
                + CBOX_TAG_SIZE,
            Err(e) => r == Err::<(), Error>(e) && final(buffer)@ == old(buffer)@,
        },
        old(buffer).spec_capacity() >= old(buffer)@.len() + CBOX_TAG_SIZE
            ==> final(buffer).spec_capacity() == old(buffer).spec_capacity(),
        old(buffer).wf() ==> final(buffer).wf(),
{
    if sender.secret_key().is_none() {
        return Err(Error::MissingSecretKey);
    }
    if nonce.len() != CBOX_NONCE_SIZE {
        return Err(Error::InvalidNonce);
    }
    if buffer.len() > usize::MAX - CBOX_TAG_SIZE {
        return Err(Error::OversizedInput);
    }
    let nonce: [u8; 24] = to_array(nonce);
    let mut secret: [u8; 32] = match sender.secret_array() {
        Some(secret) => secret,
        None => {
            return Err(Error::MissingSecretKey);
        },
    };
    proof {
        if buffer.wf() {
            buffer.lemma_len_within_capacity();
        }
    }
    let bytes = buffer.as_mut_vec();
    let tag = salsa_box_encrypt(recip.public_key(), &secret, &nonce, bytes);
    wipe(&mut secret);
    append_tag(buffer, tag)
}

/// What a box splits into: the ciphertext and the tag of 16 bytes behind
/// it.
pub open spec fn box_parts(sealed: Seq<u8>) -> Result<(Seq<u8>, Seq<u8>), Error> {
    if sealed.len() < CBOX_TAG_SIZE {
        Err(Error::InvalidCiphertextLength)
    } else {
        Ok(
            (
                sealed.subrange(0, sealed.len() - CBOX_TAG_SIZE),
                sealed.subrange(sealed.len() - CBOX_TAG_SIZE, sealed.len() as int),
            ),
        )
    }
}

/// Splits a box into the ciphertext, in a buffer where it can be decrypted
/// in place, and the tag.
pub fn split_box(sealed: &[u8]) -> (r: Result<(SecretBytes, [u8; 16]), Error>)
    ensures
        match r {
            Ok((ciphertext, tag)) => box_parts(sealed@) == Ok::<(Seq<u8>, Seq<u8>), Error>(
                (ciphertext@, tag@),
            ) && ciphertext.wf(),
            Err(e) => box_parts(sealed@) == Err::<(Seq<u8>, Seq<u8>), Error>(e),
        },
{
    if sealed.len() < CBOX_TAG_SIZE {
        return Err(Error::InvalidCiphertextLength);
    }
    let body_len: usize = sealed.len() - CBOX_TAG_SIZE;
    let tag: [u8; 16] = to_array(vstd::slice::slice_subrange(sealed, body_len, sealed.len()));
    let ciphertext = SecretBytes::from_slice(vstd::slice::slice_subrange(sealed, 0, body_len));
    Ok((ciphertext, tag))
}

/// Opens the box `sealed` from `sender` to `recip` under `nonce`. Where the
/// tag does not match, no byte of the attempt is returned, and the buffer
/// that held it is wiped.
pub fn box_decrypt(
    recip: &X25519KeyPair,
    sender: &X25519KeyPair,
    sealed: &[u8],
    nonce: &[u8],
) -> (r: Result<SecretBytes, Error>)
    ensures
        secret_result(r) == box_decrypted(*recip, *sender, sealed@, nonce@),
        opens_sealed(*recip, sender.public_bytes(), sealed@, nonce@, secret_result(r)),
        r matches Ok(message) ==> message@.len() + CBOX_TAG_SIZE == sealed@.len()
            && message.wf(),
{
    proof {
        use_type_invariant(recip);
    }
    if recip.secret_key().is_none() {
        return Err(Error::MissingSecretKey);
    }
    if nonce.len() != CBOX_NONCE_SIZE {
        return Err(Error::InvalidNonce);
    }
    let (mut buffer, tag) = match split_box(sealed) {
        Ok(parts) => parts,
        Err(e) => {
            return Err(e);
        },
    };
    let nonce: [u8; 24] = to_array(nonce);
    assert(buffer@ + tag@ =~= sealed@);
    let mut secret: [u8; 32] = match recip.secret_array() {
        Some(secret) => secret,
        None => {
            return Err(Error::MissingSecretKey);
        },
    };
    proof {
        buffer.lemma_len_within_capacity();
    }
    let bytes = buffer.as_mut_vec();
    let ok = salsa_box_decrypt(sender.public_key(), &secret, &nonce, bytes, &tag);
    wipe(&mut secret);
    opened_message(buffer, ok)
}

/// The nonce of a sealed box: the hash of the ephemeral public key followed
/// by the recipient's.
pub open spec fn seal_nonce(ephem_public: Seq<u8>, recip_public: Seq<u8>) -> Seq<u8> {
    blake2b_24(ephem_public + recip_public)
}

/// The nonce of the sealed box from `ephem_public` to `recip_public`.
pub fn box_seal_nonce(ephem_public: &[u8; 32], recip_public: &[u8; 32]) -> (nonce: [u8; 24])
    ensures
        nonce@ == seal_nonce(ephem_public@, recip_public@),
{
    let mut keys: Vec<u8> = Vec::with_capacity(64);
    keys.extend_from_slice(ephem_public.as_slice());
    keys.extend_from_slice(recip_public.as_slice());
    assert(keys@ =~= ephem_public@ + recip_public@);
    blake2b_24_digest(keys.as_slice())
}

/// `sealed` is the sealed box of `message` for `recip_public` that the
/// ephemeral private key `ephem_secret` makes: the ephemeral public key,
/// then the box under the nonce of the two public keys.
pub open spec fn is_sealed_box(
    recip_public: Seq<u8>,
    ephem_secret: Seq<u8>,
    message: Seq<u8>,
    sealed: Seq<u8>,
) -> bool {
    &&& sealed.len() == message.len() + CBOX_SEAL_OVERHEAD
    &&& sealed.subrange(0, X25519_KEY_LENGTH as int) == x25519_public(ephem_secret)
    &&& salsa_box_sealed(
        recip_public,
        ephem_secret,
        seal_nonce(x25519_public(ephem_secret), recip_public),
        message,
    ) == Some(sealed.subrange(X25519_KEY_LENGTH as int, sealed.len() as int))
}

/// `sealed` is a sealed box of `message` for `recip_public`, made by some
/// ephemeral private key.
pub open spec fn is_some_sealed_box(
    recip_public: Seq<u8>,
    message: Seq<u8>,
    sealed: Seq<u8>,
) -> bool {
    exists|ephem_secret: Seq<u8>|
        ephem_secret.len() == X25519_KEY_LENGTH && #[trigger] is_sealed_box(
            recip_public,
            ephem_secret,
            message,
            sealed,
        )
}

/// The sealed box of `message` for `recip` that the ephemeral key `ephem`
/// makes.
pub open spec fn box_sealed_with(
    recip: X25519KeyPair,
    ephem: X25519KeyPair,
    message: Seq<u8>,
) -> Result<Seq<u8>, Error> {
    match ephem.secret_bytes() {
        None => Err(Error::MissingSecretKey),
        Some(secret) => if message.len() + CBOX_SEAL_OVERHEAD > usize::MAX {
            Err(Error::OversizedInput)
        } else {
            match salsa_box_sealed(
                recip.public_bytes(),
                secret,
                seal_nonce(ephem.public_bytes(), recip.public_bytes()),
                message,
            ) {
                Some(sealed) => Ok(ephem.public_bytes() + sealed),
                None => Err(Error::Encryption),
            }
        },
    }
}

/// Puts the ephemeral public key in front of a box.
pub fn join_sealed_box(ephem_public: &[u8; 32], sealed: &[u8]) -> (r: Result<SecretBytes, Error>)
    ensures
        match r {
            Ok(joined) => joined@ == ephem_public@ + sealed@ && joined.wf(),
            Err(e) => e == Error::OversizedInput && sealed@.len() + X25519_KEY_LENGTH
                > usize::MAX,
        },
{
    if sealed.len() > usize::MAX - X25519_KEY_LENGTH {
        return Err(Error::OversizedInput);
    }
    let mut joined = SecretBytes::with_capacity(sealed.len() + X25519_KEY_LENGTH);
    joined.extend_from_slice(ephem_public.as_slice());
    joined.extend_from_slice(sealed);
    Ok(joined)
}

/// Seals `message` for `recip` with the ephemeral key `ephem`, which must
/// serve for this one message only.
pub fn box_seal_with(
    recip: &X25519KeyPair,
    ephem: &X25519KeyPair,
    message: &[u8],
) -> (r: Result<SecretBytes, Error>)
    ensures
        secret_result(r) == box_sealed_with(*recip, *ephem, message@),
        r matches Ok(sealed) ==> sealed.wf() && (ephem.secret_bytes() matches Some(secret)
            && is_sealed_box(recip.public_bytes(), secret, message@, sealed@)),
{
    proof {
        use_type_invariant(ephem);
        use_type_invariant(recip);
    }
    if ephem.secret_key().is_none() {
        return Err(Error::MissingSecretKey);
    }
    if message.len() > usize::MAX - CBOX_SEAL_OVERHEAD {
        return Err(Error::OversizedInput);
    }
    let nonce = box_seal_nonce(ephem.public_key(), recip.public_key());
    let mut body = SecretBytes::from_slice_reserve(message, CBOX_TAG_SIZE);
    let mut secret: [u8; 32] = match ephem.secret_array() {
        Some(secret) => secret,
        None => {
            return Err(Error::MissingSecretKey);
        },
    };
    let bytes = body.as_mut_vec();
    let tag = salsa_box_encrypt(recip.public_key(), &secret, &nonce, bytes);
    wipe(&mut secret);
    match append_tag(&mut body, tag) {
        Ok(()) => {
            let sealed = match join_sealed_box(ephem.public_key(), body.as_slice()) {
                Ok(sealed) => sealed,
                Err(e) => {
                    return Err(e);
                },
            };
            assert(sealed@.subrange(0, 32) =~= ephem.public_bytes());
            assert(sealed@.subrange(32, sealed@.len() as int) =~= body@);
            Ok(sealed)
        },
        Err(e) => Err(e),
    }
}

/// Seals `message` for `recip` with a fresh ephemeral key, which is
/// discarded: the sealed box names no sender.
pub fn box_seal(recip: &X25519KeyPair, message: &[u8]) -> (r: Result<SecretBytes, Error>)
    ensures
        match r {
            Ok(sealed) => sealed.wf() && is_some_sealed_box(
                recip.public_bytes(),
                message@,
                sealed@,
            ),
            Err(e) => if message@.len() + CBOX_SEAL_OVERHEAD > usize::MAX {
                e == Error::OversizedInput
            } else {
                e == Error::RandomSource || e == Error::Encryption
            },
        },
{
    if message.len() > usize::MAX - CBOX_SEAL_OVERHEAD {
        return Err(Error::OversizedInput);
    }
    let ephem = match X25519KeyPair::generate() {
        Ok(ephem) => ephem,
        Err(e) => {
            return Err(e);
        },
    };
    proof {
        use_type_invariant(&ephem);
    }
    let r = box_seal_with(recip, &ephem, message);
    proof {
        if let Ok(sealed) = &r {
            assert(is_sealed_box(
                recip.public_bytes(),
                ephem.secret_bytes()->0,
                message@,
                sealed@,
            ));
        }
    }
    r
}

/// The message in the sealed box `sealed` for `recip`.
pub open spec fn box_seal_opened(recip: X25519KeyPair, sealed: Seq<u8>) -> Result<Seq<u8>, Error> {
    match recip.secret_bytes() {
        None => Err(Error::MissingSecretKey),
        Some(secret) => if sealed.len() < CBOX_SEAL_OVERHEAD {
            Err(Error::InvalidCiphertextLength)
        } else {
            let ephem_public = sealed.subrange(0, X25519_KEY_LENGTH as int);
            match salsa_box_opened(
                ephem_public,
                secret,
                seal_nonce(ephem_public, recip.public_bytes()),
                sealed.subrange(X25519_KEY_LENGTH as int, sealed.len() as int),
            ) {
                Some(message) => Ok(message),
                None => Err(Error::Authentication),
            }
        },
    }
}

/// `opened` is the message of every sealed box that `sealed` can be:
/// whatever ephemeral key sealed whatever message into `sealed` for
/// `recip`, that message is `opened`.
pub open spec fn opens_sealed_box(
    recip: X25519KeyPair,
    sealed: Seq<u8>,
    opened: Result<Seq<u8>, Error>,
) -> bool {
    forall|ephem_secret: Seq<u8>, message: Seq<u8>|
        {
            &&& recip.secret_bytes() is Some
            &&& ephem_secret.len() == X25519_KEY_LENGTH
            &&& #[trigger] is_sealed_box(recip.public_bytes(), ephem_secret, message, sealed)
        } ==> opened == Ok::<Seq<u8>, Error>(message)
}

/// What a sealed box splits into: the ephemeral public key of 32 bytes,
/// the ciphertext, and the tag of 16 bytes.
pub open spec fn sealed_box_parts(sealed: Seq<u8>) -> Result<(Seq<u8>, Seq<u8>, Seq<u8>), Error> {
    if sealed.len() < CBOX_SEAL_OVERHEAD {
        Err(Error::InvalidCiphertextLength)
    } else {
        Ok(
            (
                sealed.subrange(0, X25519_KEY_LENGTH as int),
                sealed.subrange(X25519_KEY_LENGTH as int, sealed.len() - CBOX_TAG_SIZE),
                sealed.subrange(sealed.len() - CBOX_TAG_SIZE, sealed.len() as int),
            ),
        )
    }
}

/// Splits a sealed box into the ephemeral public key, the ciphertext, in a
/// buffer where it can be decrypted in place, and the tag.
pub fn split_sealed_box(sealed: &[u8]) -> (r: Result<([u8; 32], SecretBytes, [u8; 16]), Error>)
    ensures
        match r {
            Ok((ephem_public, ciphertext, tag)) => sealed_box_parts(sealed@) == Ok::<
                (Seq<u8>, Seq<u8>, Seq<u8>),
                Error,
            >((ephem_public@, ciphertext@, tag@)) && ciphertext.wf(),
            Err(e) => sealed_box_parts(sealed@) == Err::<(Seq<u8>, Seq<u8>, Seq<u8>), Error>(e),
        },
{
    if sealed.len() < CBOX_SEAL_OVERHEAD {
        return Err(Error::InvalidCiphertextLength);
    }
    let ephem_public: [u8; 32] = to_array(
        vstd::slice::slice_subrange(sealed, 0, X25519_KEY_LENGTH),
    );
    let body_end: usize = sealed.len() - CBOX_TAG_SIZE;
    let tag: [u8; 16] = to_array(vstd::slice::slice_subrange(sealed, body_end, sealed.len()));
    let ciphertext = SecretBytes::from_slice(
        vstd::slice::slice_subrange(sealed, X25519_KEY_LENGTH, body_end),
    );
    Ok((ephem_public, ciphertext, tag))
}

/// Opens the sealed box `sealed` with the recipient's key. Where the tag
/// does not match, no byte of the attempt is returned, and the buffer that
/// held it is wiped.
pub fn box_seal_open(recip: &X25519KeyPair, sealed: &[u8]) -> (r: Result<SecretBytes, Error>)
    ensures
        secret_result(r) == box_seal_opened(*recip, sealed@),
        opens_sealed_box(*recip, sealed@, secret_result(r)),
        r matches Ok(message) ==> message@.len() + CBOX_SEAL_OVERHEAD == sealed@.len()
            && message.wf(),
{
    proof {
        use_type_invariant(recip);
    }
    if recip.secret_key().is_none() {
        return Err(Error::MissingSecretKey);
    }
    let (ephem_public, mut buffer, tag) = match split_sealed_box(sealed) {
        Ok(parts) => parts,
        Err(e) => {
            return Err(e);
        },
    };
    let nonce = box_seal_nonce(&ephem_public, recip.public_key());
    assert(buffer@ + tag@ =~= sealed@.subrange(X25519_KEY_LENGTH as int, sealed@.len() as int));
    let mut secret: [u8; 32] = match recip.secret_array() {
        Some(secret) => secret,
        None => {
            return Err(Error::MissingSecretKey);
        },
    };
    proof {
        buffer.lemma_len_within_capacity();
    }
    let bytes = buffer.as_mut_vec();
    let ok = salsa_box_decrypt(&ephem_public, &secret, &nonce, bytes, &tag);
    wipe(&mut secret);
    opened_message(buffer, ok)
}

} // verus!
