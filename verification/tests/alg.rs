use kms_core::alg::{AesTypes, BlsCurves, Chacha20Types, EcCurves, KeyAlg};
use kms_core::error::{Error, ErrorKind};

#[test]
fn every_token_names_its_algorithm() {
    let table = [
        ("a128gcm", KeyAlg::Aes(AesTypes::A128Gcm)),
        ("aes128gcm", KeyAlg::Aes(AesTypes::A128Gcm)),
        ("a256gcm", KeyAlg::Aes(AesTypes::A256Gcm)),
        ("aes256gcm", KeyAlg::Aes(AesTypes::A256Gcm)),
        ("a128cbchs256", KeyAlg::Aes(AesTypes::A128CbcHs256)),
        ("aes128cbchs256", KeyAlg::Aes(AesTypes::A128CbcHs256)),
        ("a256cbchs512", KeyAlg::Aes(AesTypes::A256CbcHs512)),
        ("aes256cbchs512", KeyAlg::Aes(AesTypes::A256CbcHs512)),
        ("a128kw", KeyAlg::Aes(AesTypes::A128Kw)),
        ("aes128kw", KeyAlg::Aes(AesTypes::A128Kw)),
        ("a256kw", KeyAlg::Aes(AesTypes::A256Kw)),
        ("aes256kw", KeyAlg::Aes(AesTypes::A256Kw)),
        ("bls12381g1", KeyAlg::Bls12_381(BlsCurves::G1)),
        ("bls12381g2", KeyAlg::Bls12_381(BlsCurves::G2)),
        ("bls12381g1g2", KeyAlg::Bls12_381(BlsCurves::G1G2)),
        ("c20p", KeyAlg::Chacha20(Chacha20Types::C20P)),
        ("chacha20poly1305", KeyAlg::Chacha20(Chacha20Types::C20P)),
        ("xc20p", KeyAlg::Chacha20(Chacha20Types::XC20P)),
        ("xchacha20poly1305", KeyAlg::Chacha20(Chacha20Types::XC20P)),
        ("ed25519", KeyAlg::Ed25519),
        ("x25519", KeyAlg::X25519),
        ("k256", KeyAlg::EcCurve(EcCurves::Secp256k1)),
        ("secp256k1", KeyAlg::EcCurve(EcCurves::Secp256k1)),
        ("p256", KeyAlg::EcCurve(EcCurves::Secp256r1)),
        ("secp256r1", KeyAlg::EcCurve(EcCurves::Secp256r1)),
    ];
    for (name, alg) in table {
        assert_eq!(KeyAlg::from_str(name), Ok(alg));
        assert_eq!(KeyAlg::from_str(&name.to_uppercase()), Ok(alg));
    }
}

#[test]
fn case_and_separators_do_not_matter() {
    assert_eq!(KeyAlg::from_str("A256GCM"), Ok(KeyAlg::Aes(AesTypes::A256Gcm)));
    assert_eq!(KeyAlg::from_str("A256CBC-HS512"), Ok(KeyAlg::Aes(AesTypes::A256CbcHs512)));
    assert_eq!(KeyAlg::from_str("a128_cbc_hs256"), Ok(KeyAlg::Aes(AesTypes::A128CbcHs256)));
    assert_eq!(KeyAlg::from_str("XChaCha20-Poly1305"), Ok(KeyAlg::Chacha20(Chacha20Types::XC20P)));
    assert_eq!(KeyAlg::from_str("-x_2-5_5-1_9-"), Ok(KeyAlg::X25519));
    assert_eq!(KeyAlg::from_str("Ed25519"), Ok(KeyAlg::Ed25519));
    assert_eq!(KeyAlg::from_str("BLS12-381-G1G2"), Ok(KeyAlg::Bls12_381(BlsCurves::G1G2)));
}

#[test]
fn unknown_names_are_unsupported() {
    let names = [
        "", "-", "__", "aes", "a512gcm", "x25519 ", " x25519", "x25519\n", "ed448", "é25519",
    ];
    for name in names {
        assert_eq!(KeyAlg::from_str(name), Err(Error::UnknownAlgorithm));
    }
    let long = "a".repeat(1000);
    assert_eq!(KeyAlg::from_str(&long), Err(Error::UnknownAlgorithm));
    assert_eq!(Error::UnknownAlgorithm.kind(), ErrorKind::Unsupported);
}

#[test]
fn symmetric_key_lengths() {
    assert_eq!(KeyAlg::Aes(AesTypes::A128Gcm).symmetric_key_length(), Some(16));
    assert_eq!(KeyAlg::Aes(AesTypes::A256Gcm).symmetric_key_length(), Some(32));
    assert_eq!(KeyAlg::Aes(AesTypes::A128CbcHs256).symmetric_key_length(), Some(32));
    assert_eq!(KeyAlg::Aes(AesTypes::A256CbcHs512).symmetric_key_length(), Some(64));
    assert_eq!(KeyAlg::Aes(AesTypes::A128Kw).symmetric_key_length(), Some(16));
    assert_eq!(KeyAlg::Aes(AesTypes::A256Kw).symmetric_key_length(), Some(32));
    assert_eq!(KeyAlg::Chacha20(Chacha20Types::C20P).symmetric_key_length(), Some(32));
    assert_eq!(KeyAlg::Chacha20(Chacha20Types::XC20P).symmetric_key_length(), Some(32));
    assert_eq!(KeyAlg::Ed25519.symmetric_key_length(), None);
    assert_eq!(KeyAlg::X25519.symmetric_key_length(), None);
    assert_eq!(KeyAlg::Bls12_381(BlsCurves::G1).symmetric_key_length(), None);
    assert_eq!(KeyAlg::EcCurve(EcCurves::Secp256r1).symmetric_key_length(), None);
}

#[test]
fn every_error_has_its_kind_and_a_message() {
    let input = [
        Error::WrongKeyType,
        Error::MissingSecretKey,
        Error::InvalidKeyLength,
        Error::InvalidNonce,
        Error::InvalidSignatureLength,
        Error::InvalidCiphertextLength,
        Error::OversizedInput,
        Error::ExceededBuffer,
    ];
    let unsupported = [
        Error::UnknownAlgorithm,
        Error::UnsupportedAlgorithm,
        Error::UnsupportedKeySize,
        Error::UnsupportedSignatureType,
    ];
    let crypto = [Error::Authentication, Error::Encryption, Error::Signing, Error::RandomSource];
    for e in input {
        assert_eq!(e.kind(), ErrorKind::Input);
        assert!(!e.message().is_empty());
    }
    for e in unsupported {
        assert_eq!(e.kind(), ErrorKind::Unsupported);
        assert!(!e.message().is_empty());
    }
    for e in crypto {
        assert_eq!(e.kind(), ErrorKind::Crypto);
        assert!(!e.message().is_empty());
    }
    assert_eq!(Error::Authentication.message(), "authentication failed");
}
