use kms_core::alg::KeyAlg;
use kms_core::envelope::{
    cast_x25519, crypto_box, crypto_box_open, crypto_box_random_nonce, crypto_box_seal,
    crypto_box_seal_open, derive_key_ecdh_1pu, derive_key_ecdh_es,
};
use kms_core::error::{Error, ErrorKind};
use kms_core::key::{LocalKey, X25519KeyPair};
use kms_core::nacl_box::{
    append_tag, opened_message, box_decrypt, box_encrypt, box_seal_nonce, box_seal_with, join_sealed_box, split_box,
    split_sealed_box,
};
use kms_core::buffer::SecretBytes;

const ALICE_SK: [u8; 32] = [
    119, 7, 109, 10, 115, 24, 165, 125, 60, 22, 193, 114, 81, 178, 102, 69, 223, 76, 47, 135, 235,
    192, 153, 42, 177, 119, 251, 165, 29, 185, 44, 42,
];
const ALICE_PK: [u8; 32] = [
    133, 32, 240, 9, 137, 48, 167, 84, 116, 139, 125, 220, 180, 62, 247, 90, 13, 191, 58, 13, 38,
    56, 26, 244, 235, 164, 169, 142, 170, 155, 78, 106,
];
const BOB_SK: [u8; 32] = [
    93, 171, 8, 126, 98, 74, 138, 75, 121, 225, 127, 139, 131, 128, 14, 230, 111, 59, 177, 41, 38,
    24, 182, 253, 28, 47, 139, 39, 255, 136, 224, 235,
];
const BOB_PK: [u8; 32] = [
    222, 158, 219, 125, 123, 125, 193, 180, 211, 91, 97, 194, 236, 228, 53, 55, 63, 131, 67, 200,
    91, 120, 103, 77, 173, 252, 126, 20, 111, 136, 43, 79,
];
const CAROL_SK: [u8; 32] = [
    1, 2, 3, 4, 5, 6, 7, 8, 9, 10, 11, 12, 13, 14, 15, 16, 17, 18, 19, 20, 21, 22, 23, 24, 25, 26,
    27, 28, 29, 30, 31, 32,
];
const ED_SEED: [u8; 32] = [
    157, 97, 177, 157, 239, 253, 90, 96, 186, 132, 74, 244, 146, 236, 44, 196, 68, 73, 197, 105,
    123, 50, 105, 25, 112, 59, 172, 3, 28, 174, 127, 96,
];
const NONCE: [u8; 24] = [
    105, 105, 110, 233, 85, 182, 43, 115, 205, 98, 189, 168, 117, 252, 115, 214, 130, 25, 224, 3,
    107, 122, 11, 55,
];
const MESSAGE: &[u8] = b"Top secret message";
const BOX: [u8; 34] = [
    100, 241, 20, 122, 7, 140, 131, 212, 104, 246, 99, 193, 188, 100, 9, 212, 125, 126, 199, 0,
    210, 13, 168, 44, 134, 194, 154, 80, 9, 71, 176, 217, 255, 171,
];
const BOX_EMPTY: [u8; 16] = [
    37, 57, 18, 29, 142, 35, 78, 101, 45, 101, 31, 164, 200, 207, 248, 128,
];
const SEAL_NONCE: [u8; 24] = [
    189, 230, 140, 48, 7, 221, 108, 96, 56, 97, 134, 102, 200, 131, 11, 2, 61, 60, 10, 142, 152,
    138, 141, 56,
];
const SEALED: [u8; 66] = [
    133, 32, 240, 9, 137, 48, 167, 84, 116, 139, 125, 220, 180, 62, 247, 90, 13, 191, 58, 13, 38,
    56, 26, 244, 235, 164, 169, 142, 170, 155, 78, 106, 243, 104, 220, 230, 155, 157, 96, 35, 181,
    18, 107, 23, 136, 8, 90, 42, 8, 61, 247, 191, 16, 113, 178, 211, 82, 200, 132, 120, 246, 169,
    181, 6, 122, 225,
];
const ES_A256GCM: [u8; 32] = [
    47, 54, 54, 145, 141, 219, 87, 254, 11, 53, 105, 17, 63, 25, 196, 182, 197, 24, 194, 132, 63,
    137, 48, 240, 93, 178, 92, 213, 93, 238, 83, 193,
];
const ES_A128GCM: [u8; 16] = [
    166, 227, 84, 253, 252, 137, 176, 6, 96, 115, 107, 111, 16, 89, 81, 18,
];
const ES_A256GCM_OTHER_APV: [u8; 32] = [
    18, 93, 101, 209, 72, 167, 102, 208, 178, 193, 171, 18, 239, 67, 66, 26, 53, 70, 248, 74, 173,
    58, 65, 198, 117, 166, 112, 237, 189, 146, 86, 233,
];
const PU_A256GCM: [u8; 32] = [
    193, 46, 180, 133, 190, 170, 53, 242, 241, 51, 78, 58, 183, 148, 126, 202, 76, 184, 33, 157,
    76, 155, 208, 225, 120, 89, 133, 46, 108, 248, 3, 97,
];
const PU_SWAPPED: [u8; 32] = [
    125, 23, 4, 151, 152, 141, 9, 132, 216, 34, 196, 35, 114, 34, 168, 119, 193, 69, 145, 236, 65,
    31, 165, 195, 198, 210, 236, 114, 206, 245, 161, 36,
];
const PU_C20P_LOWER: [u8; 32] = [
    60, 161, 229, 150, 177, 44, 38, 144, 78, 110, 76, 253, 167, 84, 162, 206, 78, 140, 238, 223,
    51, 88, 20, 193, 217, 109, 82, 205, 177, 5, 30, 129,
];

fn x25519(secret: &[u8]) -> LocalKey {
    LocalKey::from_secret_bytes(KeyAlg::X25519, secret).unwrap()
}

fn x25519_public(public: &[u8]) -> LocalKey {
    LocalKey::from_public_bytes(KeyAlg::X25519, public).unwrap()
}

fn ed25519() -> LocalKey {
    LocalKey::from_secret_bytes(KeyAlg::Ed25519, &ED_SEED).unwrap()
}

fn symmetric() -> LocalKey {
    LocalKey::from_secret_bytes(KeyAlg::from_str("a128gcm").unwrap(), &[7u8; 16]).unwrap()
}

fn opened(r: Result<SecretBytes, Error>) -> Result<Vec<u8>, Error> {
    r.map(|bytes| bytes.into_vec())
}

fn derived(r: Result<LocalKey, Error>) -> Result<(KeyAlg, Vec<u8>), Error> {
    r.map(|key| (key.algorithm(), key.to_secret_bytes().unwrap().into_vec()))
}

#[test]
fn cast_x25519_narrows_only_x25519_keys() {
    let key = x25519(&ALICE_SK);
    let pair: &X25519KeyPair = cast_x25519(&key).unwrap();
    assert_eq!(pair.public_key(), &ALICE_PK);
    assert_eq!(cast_x25519(&ed25519()).err(), Some(Error::WrongKeyType));
    assert_eq!(cast_x25519(&symmetric()).err(), Some(Error::WrongKeyType));
    assert_eq!(Error::WrongKeyType.kind(), ErrorKind::Input);
    assert_eq!(Error::WrongKeyType.message(), "x25519 keypair required");
}

#[test]
fn random_nonce_has_the_nonce_length_and_varies() {
    let a = crypto_box_random_nonce().unwrap();
    let b = crypto_box_random_nonce().unwrap();
    assert_eq!(a.len(), 24);
    assert_ne!(a, b);
}

#[test]
fn crypto_box_known_answer() {
    let sealed = crypto_box(&x25519_public(&BOB_PK), &x25519(&ALICE_SK), MESSAGE, &NONCE);
    assert_eq!(sealed, Ok(BOX.to_vec()));
}

#[test]
fn crypto_box_of_empty_message_is_the_tag() {
    let sealed = crypto_box(&x25519(&BOB_SK), &x25519(&ALICE_SK), b"", &NONCE);
    assert_eq!(sealed, Ok(BOX_EMPTY.to_vec()));
}

#[test]
fn crypto_box_open_known_answer() {
    let message = crypto_box_open(&x25519(&BOB_SK), &x25519_public(&ALICE_PK), &BOX, &NONCE);
    assert_eq!(opened(message), Ok(MESSAGE.to_vec()));
}

#[test]
fn crypto_box_round_trip() {
    let recipient = x25519(&BOB_SK);
    let sender = x25519(&CAROL_SK);
    let nonce = crypto_box_random_nonce().unwrap();
    let message: Vec<u8> = (0u8..200).collect();
    let sealed = crypto_box(&recipient, &sender, &message, &nonce).unwrap();
    assert_eq!(sealed.len(), message.len() + 16);
    assert_ne!(&sealed[..message.len()], &message[..]);
    assert_eq!(opened(crypto_box_open(&recipient, &sender, &sealed, &nonce)), Ok(message));
}

#[test]
fn crypto_box_open_detects_every_flipped_bit() {
    let recipient = x25519(&BOB_SK);
    let sender = x25519_public(&ALICE_PK);
    for index in 0..BOX.len() {
        for bit in 0..8 {
            let mut tampered = BOX.to_vec();
            tampered[index] ^= 1u8 << bit;
            let r = opened(crypto_box_open(&recipient, &sender, &tampered, &NONCE));
            assert_eq!(r, Err(Error::Authentication));
        }
    }
    assert_eq!(Error::Authentication.kind(), ErrorKind::Crypto);
}

#[test]
fn crypto_box_open_rejects_another_nonce_and_another_sender() {
    let recipient = x25519(&BOB_SK);
    let mut nonce = NONCE;
    nonce[0] ^= 1;
    let r = opened(crypto_box_open(&recipient, &x25519_public(&ALICE_PK), &BOX, &nonce));
    assert_eq!(r, Err(Error::Authentication));
    let r = opened(crypto_box_open(&recipient, &x25519(&CAROL_SK), &BOX, &NONCE));
    assert_eq!(r, Err(Error::Authentication));
}

#[test]
fn crypto_box_rejects_malformed_input() {
    let alice = x25519(&ALICE_SK);
    let bob = x25519(&BOB_SK);
    assert_eq!(crypto_box(&bob, &alice, MESSAGE, &NONCE[..23]), Err(Error::InvalidNonce));
    assert_eq!(crypto_box(&bob, &alice, MESSAGE, &[0u8; 25]), Err(Error::InvalidNonce));
    assert_eq!(
        crypto_box(&bob, &x25519_public(&ALICE_PK), MESSAGE, &NONCE),
        Err(Error::MissingSecretKey)
    );
    assert_eq!(
        opened(crypto_box_open(&x25519_public(&BOB_PK), &alice, &BOX, &NONCE)),
        Err(Error::MissingSecretKey)
    );
    assert_eq!(
        opened(crypto_box_open(&bob, &alice, &BOX, &NONCE[..8])),
        Err(Error::InvalidNonce)
    );
    assert_eq!(
        opened(crypto_box_open(&bob, &alice, &BOX[..15], &NONCE)),
        Err(Error::InvalidCiphertextLength)
    );
    assert_eq!(Error::InvalidNonce.kind(), ErrorKind::Input);
    assert_eq!(Error::MissingSecretKey.kind(), ErrorKind::Input);
    assert_eq!(Error::InvalidCiphertextLength.kind(), ErrorKind::Input);
}

#[test]
fn seal_nonce_known_answer() {
    assert_eq!(box_seal_nonce(&ALICE_PK, &BOB_PK), SEAL_NONCE);
}

#[test]
fn sealed_box_with_given_ephemeral_key_known_answer() {
    let recipient = X25519KeyPair::from_public_bytes(&BOB_PK).unwrap();
    let ephemeral = X25519KeyPair::from_secret_bytes(&ALICE_SK).unwrap();
    let sealed = box_seal_with(&recipient, &ephemeral, MESSAGE);
    assert_eq!(opened(sealed), Ok(SEALED.to_vec()));
    let public_only = X25519KeyPair::from_public_bytes(&ALICE_PK).unwrap();
    assert_eq!(
        opened(box_seal_with(&recipient, &public_only, MESSAGE)),
        Err(Error::MissingSecretKey)
    );
}

#[test]
fn crypto_box_seal_open_known_answer() {
    let message = crypto_box_seal_open(&x25519(&BOB_SK), &SEALED);
    assert_eq!(opened(message), Ok(MESSAGE.to_vec()));
}

#[test]
fn crypto_box_seal_round_trip() {
    let message: Vec<u8> = (0u8..=255).collect();
    let sealed = crypto_box_seal(&x25519_public(&BOB_PK), &message).unwrap();
    assert_eq!(sealed.len(), message.len() + 48);
    let again = crypto_box_seal(&x25519_public(&BOB_PK), &message).unwrap();
    assert_ne!(sealed, again);
    assert_eq!(opened(crypto_box_seal_open(&x25519(&BOB_SK), &sealed)), Ok(message.clone()));
    assert_eq!(opened(crypto_box_seal_open(&x25519(&BOB_SK), &again)), Ok(message));
}

#[test]
fn crypto_box_seal_of_empty_message_round_trip() {
    let sealed = crypto_box_seal(&x25519(&BOB_SK), b"").unwrap();
    assert_eq!(sealed.len(), 48);
    assert_eq!(opened(crypto_box_seal_open(&x25519(&BOB_SK), &sealed)), Ok(Vec::new()));
}

#[test]
fn crypto_box_seal_open_detects_every_flipped_bit() {
    let recipient = x25519(&BOB_SK);
    for index in 0..SEALED.len() {
        for bit in 0..8 {
            let mut tampered = SEALED.to_vec();
            tampered[index] ^= 1u8 << bit;
            let r = opened(crypto_box_seal_open(&recipient, &tampered));
            assert_eq!(r, Err(Error::Authentication));
        }
    }
}

#[test]
fn crypto_box_seal_open_rejects_malformed_input() {
    assert_eq!(
        opened(crypto_box_seal_open(&x25519(&BOB_SK), &SEALED[..47])),
        Err(Error::InvalidCiphertextLength)
    );
    assert_eq!(
        opened(crypto_box_seal_open(&x25519_public(&BOB_PK), &SEALED)),
        Err(Error::MissingSecretKey)
    );
    assert_eq!(
        opened(crypto_box_seal_open(&x25519(&CAROL_SK), &SEALED)),
        Err(Error::Authentication)
    );
}

#[test]
fn derive_key_ecdh_es_known_answer() {
    let key = derive_key_ecdh_es(
        &x25519(&ALICE_SK),
        &x25519_public(&BOB_PK),
        "A256GCM",
        b"Alice",
        b"Bob",
    );
    assert_eq!(derived(key), Ok((KeyAlg::from_str("a256gcm").unwrap(), ES_A256GCM.to_vec())));
    let key = derive_key_ecdh_es(&x25519(&ALICE_SK), &x25519(&BOB_SK), "A128GCM", b"Alice", b"Bob");
    assert_eq!(derived(key), Ok((KeyAlg::from_str("a128gcm").unwrap(), ES_A128GCM.to_vec())));
}

#[test]
fn derive_key_ecdh_es_is_the_same_from_either_side() {
    let sent = derive_key_ecdh_es(
        &x25519(&ALICE_SK),
        &x25519_public(&BOB_PK),
        "A256GCM",
        b"Alice",
        b"Bob",
    );
    let received = derive_key_ecdh_es(
        &x25519(&BOB_SK),
        &x25519_public(&ALICE_PK),
        "A256GCM",
        b"Alice",
        b"Bob",
    );
    assert_eq!(derived(sent), derived(received));
}

#[test]
fn derive_key_ecdh_es_is_deterministic_and_separates_domains() {
    let ephem = x25519(&ALICE_SK);
    let recip = x25519_public(&BOB_PK);
    let first = derived(derive_key_ecdh_es(&ephem, &recip, "A256GCM", b"Alice", b"Bob")).unwrap();
    let second = derived(derive_key_ecdh_es(&ephem, &recip, "A256GCM", b"Alice", b"Bob")).unwrap();
    assert_eq!(first, second);
    let other_apv = derived(
        derive_key_ecdh_es(&ephem, &recip, "A256GCM", b"Alice", b"Bobby"),
    )
    .unwrap();
    assert_eq!(other_apv.1, ES_A256GCM_OTHER_APV.to_vec());
    assert_ne!(first.1, other_apv.1);
    let other_apu = derived(
        derive_key_ecdh_es(&ephem, &recip, "A256GCM", b"Alicia", b"Bob"),
    )
    .unwrap();
    assert_ne!(first.1, other_apu.1);
    let moved = derived(derive_key_ecdh_es(&ephem, &recip, "A256GCM", b"AliceB", b"ob")).unwrap();
    assert_ne!(first.1, moved.1);
    let other_name = derived(
        derive_key_ecdh_es(&ephem, &recip, "a256gcm", b"Alice", b"Bob"),
    )
    .unwrap();
    assert_eq!(first.0, other_name.0);
    assert_ne!(first.1, other_name.1);
}

#[test]
fn derive_key_ecdh_1pu_known_answer() {
    let key = derive_key_ecdh_1pu(
        &x25519(&CAROL_SK),
        &x25519(&ALICE_SK),
        &x25519_public(&BOB_PK),
        "A256GCM",
        b"Alice",
        b"Bob",
    );
    assert_eq!(derived(key), Ok((KeyAlg::from_str("a256gcm").unwrap(), PU_A256GCM.to_vec())));
    let key = derive_key_ecdh_1pu(
        &x25519(&CAROL_SK),
        &x25519(&ALICE_SK),
        &x25519(&BOB_SK),
        "c20p",
        b"",
        b"",
    );
    assert_eq!(derived(key), Ok((KeyAlg::from_str("C20P").unwrap(), PU_C20P_LOWER.to_vec())));
}

#[test]
fn derive_key_ecdh_1pu_differs_when_sender_and_recipient_are_swapped() {
    let ephem = x25519(&CAROL_SK);
    let alice = x25519(&ALICE_SK);
    let bob = x25519(&BOB_SK);
    let forward = derived(
        derive_key_ecdh_1pu(&ephem, &alice, &bob, "A256GCM", b"Alice", b"Bob"),
    )
    .unwrap();
    let swapped = derived(
        derive_key_ecdh_1pu(&ephem, &bob, &alice, "A256GCM", b"Alice", b"Bob"),
    )
    .unwrap();
    assert_eq!(forward.1, PU_A256GCM.to_vec());
    assert_eq!(swapped.1, PU_SWAPPED.to_vec());
    assert_ne!(forward.1, swapped.1);
}

#[test]
fn derivation_rejects_unknown_and_unsupported_algorithms() {
    let alice = x25519(&ALICE_SK);
    let bob = x25519(&BOB_SK);
    let r = derived(derive_key_ecdh_es(&alice, &bob, "A512GCM", b"", b""));
    assert_eq!(r, Err(Error::UnknownAlgorithm));
    let r = derived(derive_key_ecdh_es(&alice, &bob, "x25519", b"", b""));
    assert_eq!(r, Err(Error::UnsupportedAlgorithm));
    let r = derived(derive_key_ecdh_es(&alice, &bob, "A256CBC-HS512", b"", b""));
    assert_eq!(r, Err(Error::UnsupportedKeySize));
    let r = derived(derive_key_ecdh_1pu(&alice, &bob, &bob, "", b"", b""));
    assert_eq!(r, Err(Error::UnknownAlgorithm));
    let r = derived(derive_key_ecdh_1pu(&alice, &bob, &bob, "ed25519", b"", b""));
    assert_eq!(r, Err(Error::UnsupportedAlgorithm));
    let r = derived(derive_key_ecdh_1pu(&alice, &bob, &bob, "a256cbchs512", b"", b""));
    assert_eq!(r, Err(Error::UnsupportedKeySize));
    assert_eq!(Error::UnknownAlgorithm.kind(), ErrorKind::Unsupported);
    assert_eq!(Error::UnsupportedAlgorithm.kind(), ErrorKind::Unsupported);
    assert_eq!(Error::UnsupportedKeySize.kind(), ErrorKind::Unsupported);
}

#[test]
fn derivation_needs_the_private_keys_of_the_sending_side() {
    let alice_public = x25519_public(&ALICE_PK);
    let bob = x25519(&BOB_SK);
    let carol = x25519(&CAROL_SK);
    let r = derived(derive_key_ecdh_es(&alice_public, &bob, "A256GCM", b"", b""));
    assert_eq!(r, Err(Error::MissingSecretKey));
    let r = derived(derive_key_ecdh_1pu(&alice_public, &carol, &bob, "A256GCM", b"", b""));
    assert_eq!(r, Err(Error::MissingSecretKey));
    let r = derived(derive_key_ecdh_1pu(&carol, &alice_public, &bob, "A256GCM", b"", b""));
    assert_eq!(r, Err(Error::MissingSecretKey));
}

#[test]
fn every_operation_refuses_a_key_of_another_family() {
    let good = x25519(&ALICE_SK);
    for wrong in [ed25519(), symmetric()] {
        assert_eq!(crypto_box(&wrong, &good, MESSAGE, &NONCE), Err(Error::WrongKeyType));
        assert_eq!(crypto_box(&good, &wrong, MESSAGE, &NONCE), Err(Error::WrongKeyType));
        assert_eq!(crypto_box(&wrong, &good, MESSAGE, b"short"), Err(Error::WrongKeyType));
        assert_eq!(
            opened(crypto_box_open(&wrong, &good, &BOX, &NONCE)),
            Err(Error::WrongKeyType)
        );
        assert_eq!(
            opened(crypto_box_open(&good, &wrong, &BOX, &NONCE)),
            Err(Error::WrongKeyType)
        );
        assert_eq!(crypto_box_seal(&wrong, MESSAGE), Err(Error::WrongKeyType));
        assert_eq!(opened(crypto_box_seal_open(&wrong, &SEALED)), Err(Error::WrongKeyType));
        assert_eq!(
            derived(derive_key_ecdh_es(&wrong, &good, "A256GCM", b"", b"")),
            Err(Error::WrongKeyType)
        );
        assert_eq!(
            derived(derive_key_ecdh_es(&good, &wrong, "no such algorithm", b"", b"")),
            Err(Error::WrongKeyType)
        );
        assert_eq!(
            derived(derive_key_ecdh_1pu(&wrong, &good, &good, "A256GCM", b"", b"")),
            Err(Error::WrongKeyType)
        );
        assert_eq!(
            derived(derive_key_ecdh_1pu(&good, &wrong, &good, "A256GCM", b"", b"")),
            Err(Error::WrongKeyType)
        );
        assert_eq!(
            derived(derive_key_ecdh_1pu(&good, &good, &wrong, "A256CBC-HS512", b"", b"")),
            Err(Error::WrongKeyType)
        );
    }
}

#[test]
fn split_box_cuts_the_tag_from_the_end() {
    let sealed: Vec<u8> = (0u8..20).collect();
    let (ciphertext, tag) = split_box(&sealed).ok().unwrap();
    assert_eq!(ciphertext.as_slice(), &[0, 1, 2, 3]);
    assert_eq!(tag, [4, 5, 6, 7, 8, 9, 10, 11, 12, 13, 14, 15, 16, 17, 18, 19]);
    let (ciphertext, tag) = split_box(&sealed[..16]).ok().unwrap();
    assert!(ciphertext.is_empty());
    assert_eq!(&tag[..], &sealed[..16]);
    assert_eq!(split_box(&sealed[..15]).err(), Some(Error::InvalidCiphertextLength));
    assert_eq!(split_box(&[]).err(), Some(Error::InvalidCiphertextLength));
}

#[test]
fn split_sealed_box_cuts_key_ciphertext_and_tag() {
    let sealed: Vec<u8> = (0u8..50).collect();
    let (key, ciphertext, tag) = split_sealed_box(&sealed).ok().unwrap();
    assert_eq!(&key[..], &sealed[..32]);
    assert_eq!(ciphertext.as_slice(), &[32, 33]);
    assert_eq!(&tag[..], &sealed[34..]);
    let (key, ciphertext, tag) = split_sealed_box(&sealed[..48]).ok().unwrap();
    assert_eq!(&key[..], &sealed[..32]);
    assert!(ciphertext.is_empty());
    assert_eq!(&tag[..], &sealed[32..48]);
    assert_eq!(split_sealed_box(&sealed[..47]).err(), Some(Error::InvalidCiphertextLength));
}

#[test]
fn join_sealed_box_puts_the_key_in_front() {
    let joined = join_sealed_box(&ALICE_PK, &[1, 2, 3]).ok().unwrap();
    assert_eq!(&joined.as_slice()[..32], &ALICE_PK);
    assert_eq!(&joined.as_slice()[32..], &[1, 2, 3]);
    assert_eq!(joined.capacity(), 35);
    let (key, ciphertext, tag) = split_sealed_box(&SEALED).ok().unwrap();
    let mut body = ciphertext.into_vec();
    body.extend_from_slice(&tag);
    assert_eq!(opened(join_sealed_box(&key, &body)), Ok(SEALED.to_vec()));
}

#[test]
fn box_encrypt_works_in_place_within_the_reserved_room() {
    let recipient = X25519KeyPair::from_public_bytes(&BOB_PK).unwrap();
    let sender = X25519KeyPair::from_secret_bytes(&ALICE_SK).unwrap();
    let mut buffer = SecretBytes::from_slice_reserve(MESSAGE, 16);
    assert_eq!(box_encrypt(&recipient, &sender, &mut buffer, &NONCE), Ok(()));
    assert_eq!(buffer.as_slice(), &BOX);
    assert_eq!(buffer.capacity(), MESSAGE.len() + 16);
    let mut untouched = SecretBytes::from_slice(MESSAGE);
    assert_eq!(
        box_encrypt(&recipient, &sender, &mut untouched, &NONCE[..3]),
        Err(Error::InvalidNonce),
    );
    assert_eq!(untouched.as_slice(), MESSAGE);
    assert_eq!(
        box_encrypt(&sender, &recipient, &mut untouched, &NONCE),
        Err(Error::MissingSecretKey),
    );
    assert_eq!(untouched.as_slice(), MESSAGE);
    let receiver = X25519KeyPair::from_secret_bytes(&BOB_SK).unwrap();
    assert_eq!(opened(box_decrypt(&receiver, &sender, &BOX, &NONCE)), Ok(MESSAGE.to_vec()));
}

#[test]
fn append_tag_finishes_an_encryption() {
    let mut buffer = SecretBytes::from_slice_reserve(&[1, 2, 3], 16);
    assert_eq!(append_tag(&mut buffer, Some([9u8; 16])), Ok(()));
    assert_eq!(&buffer.as_slice()[..3], &[1, 2, 3]);
    assert_eq!(&buffer.as_slice()[3..], &[9u8; 16]);
    assert_eq!(buffer.capacity(), 19);
    assert_eq!(append_tag(&mut buffer, None), Err(Error::Encryption));
    assert_eq!(buffer.len(), 19);
    assert_eq!(Error::Encryption.kind(), ErrorKind::Crypto);
}

#[test]
fn opened_message_hands_out_only_authentic_bytes() {
    let r = opened_message(SecretBytes::from_slice(&[1, 2, 3]), true);
    assert_eq!(opened(r), Ok(vec![1, 2, 3]));
    let r = opened_message(SecretBytes::from_slice(&[1, 2, 3]), false);
    assert_eq!(opened(r), Err(Error::Authentication));
    let r = opened_message(SecretBytes::from_slice(&[]), true);
    assert_eq!(opened(r), Ok(Vec::new()));
}
