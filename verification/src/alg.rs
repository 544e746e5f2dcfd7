//! Algorithm identifiers and the tokens that name them.

use vstd::prelude::*;
use vstd::string::StringSliceAdditionalSpecFns;

use crate::bytes::bytes_eq;
use crate::error::Error;

verus! {

/// Symmetric AES constructions.
#[derive(Clone, Copy, Debug, PartialEq, Eq, PartialOrd, Ord, Hash, Structural)]
pub enum AesTypes {
    /// AES-GCM with a 128-bit key.
    A128Gcm,
    /// AES-GCM with a 256-bit key.
    A256Gcm,
    /// AES-CBC with HMAC-SHA-256 and a 256-bit combined key.
    A128CbcHs256,
    /// AES-CBC with HMAC-SHA-512 and a 512-bit combined key.
    A256CbcHs512,
    /// AES key wrap with a 128-bit key.
    A128Kw,
    /// AES key wrap with a 256-bit key.
    A256Kw,
}

/// Groups of the BLS12-381 pairing in which a key may live.
#[derive(Clone, Copy, Debug, PartialEq, Eq, PartialOrd, Ord, Hash, Structural)]
pub enum BlsCurves {
    /// The first group.
    G1,
    /// The second group.
    G2,
    /// A key with a part in each group.
    G1G2,
}

/// BLS12-381 groups that a signature may live in.
#[derive(Clone, Copy, Debug, PartialEq, Eq, PartialOrd, Ord, Hash, Structural)]
pub enum BlsGroups {
    /// The first group.
    G1,
    /// The second group.
    G2,
}

/// ChaCha20-Poly1305 constructions.
#[derive(Clone, Copy, Debug, PartialEq, Eq, PartialOrd, Ord, Hash, Structural)]
pub enum Chacha20Types {
    /// ChaCha20-Poly1305 with a 96-bit nonce.
    C20P,
    /// XChaCha20-Poly1305 with a 192-bit nonce.
    XC20P,
}

/// Named elliptic curves.
#[derive(Clone, Copy, Debug, PartialEq, Eq, PartialOrd, Ord, Hash, Structural)]
pub enum EcCurves {
    /// NIST P-256.
    Secp256r1,
    /// The Koblitz curve secp256k1.
    Secp256k1,
}

/// An algorithm that a key can belong to.
#[derive(Clone, Copy, Debug, PartialEq, Eq, PartialOrd, Ord, Hash, Structural)]
pub enum KeyAlg {
    /// A symmetric AES key.
    Aes(AesTypes),
    /// A BLS12-381 key.
    Bls12_381(BlsCurves),
    /// A symmetric ChaCha20 key.
    Chacha20(Chacha20Types),
    /// An Ed25519 signing key.
    Ed25519,
    /// An X25519 key-agreement key.
    X25519,
    /// A key on a named elliptic curve.
    EcCurve(EcCurves),
}

/// Whether `b` is one of the separators `-` and `_`, which a token may hold
/// anywhere and which do not count.
pub open spec fn is_separator(b: u8) -> bool {
    b == 0x2d || b == 0x5f
}

/// The ASCII lower-case form of `b`.
pub open spec fn ascii_lower(b: u8) -> u8 {
    if 0x41 <= b <= 0x5a {
        (b + 0x20) as u8
    } else {
        b
    }
}

/// The canonical form of an algorithm name: separators removed, ASCII letters
/// in lower case, every other byte as it is.
pub open spec fn normalized(name: Seq<u8>) -> Seq<u8>
    decreases name.len(),
{
    if name.len() == 0 {
        Seq::empty()
    } else if is_separator(name.last()) {
        normalized(name.drop_last())
    } else {
        normalized(name.drop_last()).push(ascii_lower(name.last()))
    }
}

/// The algorithm that a canonical token names, if any.
pub open spec fn alg_of_token(token: Seq<u8>) -> Option<KeyAlg> {
    if token == "a128gcm".spec_bytes() || token == "aes128gcm".spec_bytes() {
        Some(KeyAlg::Aes(AesTypes::A128Gcm))
    } else if token == "a256gcm".spec_bytes() || token == "aes256gcm".spec_bytes() {
        Some(KeyAlg::Aes(AesTypes::A256Gcm))
    } else if token == "a128cbchs256".spec_bytes() || token == "aes128cbchs256".spec_bytes() {
        Some(KeyAlg::Aes(AesTypes::A128CbcHs256))
    } else if token == "a256cbchs512".spec_bytes() || token == "aes256cbchs512".spec_bytes() {
        Some(KeyAlg::Aes(AesTypes::A256CbcHs512))
    } else if token == "a128kw".spec_bytes() || token == "aes128kw".spec_bytes() {
        Some(KeyAlg::Aes(AesTypes::A128Kw))
    } else if token == "a256kw".spec_bytes() || token == "aes256kw".spec_bytes() {
        Some(KeyAlg::Aes(AesTypes::A256Kw))
    } else if token == "bls12381g1".spec_bytes() {
        Some(KeyAlg::Bls12_381(BlsCurves::G1))
    } else if token == "bls12381g2".spec_bytes() {
        Some(KeyAlg::Bls12_381(BlsCurves::G2))
    } else if token == "bls12381g1g2".spec_bytes() {
        Some(KeyAlg::Bls12_381(BlsCurves::G1G2))
    } else if token == "c20p".spec_bytes() || token == "chacha20poly1305".spec_bytes() {
        Some(KeyAlg::Chacha20(Chacha20Types::C20P))
    } else if token == "xc20p".spec_bytes() || token == "xchacha20poly1305".spec_bytes() {
        Some(KeyAlg::Chacha20(Chacha20Types::XC20P))
    } else if token == "ed25519".spec_bytes() {
        Some(KeyAlg::Ed25519)
    } else if token == "x25519".spec_bytes() {
        Some(KeyAlg::X25519)
    } else if token == "k256".spec_bytes() || token == "secp256k1".spec_bytes() {
        Some(KeyAlg::EcCurve(EcCurves::Secp256k1))
    } else if token == "p256".spec_bytes() || token == "secp256r1".spec_bytes() {
        Some(KeyAlg::EcCurve(EcCurves::Secp256r1))
    } else {
        None
    }
}

/// The algorithm that `name` stands for, if any: case and separators do not
/// matter.
pub open spec fn alg_of_name(name: Seq<u8>) -> Option<KeyAlg> {
    alg_of_token(normalized(name))
}

/// Taking one more byte of a name extends its canonical form by that byte's
/// contribution.
proof fn lemma_normalized_step(name: Seq<u8>, i: int)
    requires
        0 <= i < name.len(),
    ensures
        normalized(name.take(i + 1)) == if is_separator(name[i]) {
            normalized(name.take(i))
        } else {
            normalized(name.take(i)).push(ascii_lower(name[i]))
        },
{
    let prefix = name.take(i + 1);
    assert(prefix.drop_last() =~= name.take(i));
    assert(prefix.last() == name[i]);
}

/// The canonical form of `name`.
fn normalize(name: &[u8]) -> (token: Vec<u8>)
    ensures
        token@ == normalized(name@),
{
    let mut token: Vec<u8> = Vec::new();
    let mut i: usize = 0;
    while i < name.len()
        invariant
            i <= name.len(),
            token@ == normalized(name@.take(i as int)),
        decreases name.len() - i,
    {
        let b: u8 = name[i];
        proof {
            lemma_normalized_step(name@, i as int);
        }
        if b == 0x2d || b == 0x5f {
        } else if 0x41 <= b && b <= 0x5a {
            token.push(b + 0x20);
        } else {
            token.push(b);
        }
        i = i + 1;
    }
    assert(name@.take(name.len() as int) =~= name@);
    token
}

/// Whether `token` is one of the two spellings `short` and `long`.
fn names(token: &[u8], short: &str, long: &str) -> (hit: bool)
    ensures
        hit == (token@ == short.spec_bytes() || token@ == long.spec_bytes()),
{
    bytes_eq(token, short.as_bytes()) || bytes_eq(token, long.as_bytes())
}

impl KeyAlg {
    /// The key length in bytes of a symmetric algorithm; `None` for an
    /// asymmetric one.
    pub open spec fn spec_symmetric_key_length(self) -> Option<nat> {
        match self {
            KeyAlg::Aes(AesTypes::A128Gcm) => Some(16),
            KeyAlg::Aes(AesTypes::A256Gcm) => Some(32),
            KeyAlg::Aes(AesTypes::A128CbcHs256) => Some(32),
            KeyAlg::Aes(AesTypes::A256CbcHs512) => Some(64),
            KeyAlg::Aes(AesTypes::A128Kw) => Some(16),
            KeyAlg::Aes(AesTypes::A256Kw) => Some(32),
            KeyAlg::Chacha20(_) => Some(32),
            _ => None,
        }
    }

    /// The key length in bytes of a symmetric algorithm; `None` for an
    /// asymmetric one.
    pub fn symmetric_key_length(&self) -> (len: Option<usize>)
        ensures
            match len {
                Some(n) => self.spec_symmetric_key_length() == Some(n as nat),
                None => self.spec_symmetric_key_length() is None,
            },
    {
        match self {
            KeyAlg::Aes(AesTypes::A128Gcm) => Some(16),
            KeyAlg::Aes(AesTypes::A256Gcm) => Some(32),
            KeyAlg::Aes(AesTypes::A128CbcHs256) => Some(32),
            KeyAlg::Aes(AesTypes::A256CbcHs512) => Some(64),
            KeyAlg::Aes(AesTypes::A128Kw) => Some(16),
            KeyAlg::Aes(AesTypes::A256Kw) => Some(32),
            KeyAlg::Chacha20(_) => Some(32),
            _ => None,
        }
    }

    /// Parses an algorithm name. Case and the separators `-` and `_` do not
    /// matter; a name that is no known token gives
    /// [`Error::UnknownAlgorithm`].
    pub fn from_str(name: &str) -> (r: Result<KeyAlg, Error>)
        ensures
            r == match alg_of_name(name.spec_bytes()) {
                Some(alg) => Ok::<KeyAlg, Error>(alg),
                None => Err(Error::UnknownAlgorithm),
            },
    {
        let token = normalize(name.as_bytes());
        let t = token.as_slice();
        if names(t, "a128gcm", "aes128gcm") {
            Ok(KeyAlg::Aes(AesTypes::A128Gcm))
        } else if names(t, "a256gcm", "aes256gcm") {
            Ok(KeyAlg::Aes(AesTypes::A256Gcm))
        } else if names(t, "a128cbchs256", "aes128cbchs256") {
            Ok(KeyAlg::Aes(AesTypes::A128CbcHs256))
        } else if names(t, "a256cbchs512", "aes256cbchs512") {
            Ok(KeyAlg::Aes(AesTypes::A256CbcHs512))
        } else if names(t, "a128kw", "aes128kw") {
            Ok(KeyAlg::Aes(AesTypes::A128Kw))
        } else if names(t, "a256kw", "aes256kw") {
            Ok(KeyAlg::Aes(AesTypes::A256Kw))
        } else if bytes_eq(t, "bls12381g1".as_bytes()) {
            Ok(KeyAlg::Bls12_381(BlsCurves::G1))
        } else if bytes_eq(t, "bls12381g2".as_bytes()) {
            Ok(KeyAlg::Bls12_381(BlsCurves::G2))
        } else if bytes_eq(t, "bls12381g1g2".as_bytes()) {
            Ok(KeyAlg::Bls12_381(BlsCurves::G1G2))
        } else if names(t, "c20p", "chacha20poly1305") {
            Ok(KeyAlg::Chacha20(Chacha20Types::C20P))
        } else if names(t, "xc20p", "xchacha20poly1305") {
            Ok(KeyAlg::Chacha20(Chacha20Types::XC20P))
        } else if bytes_eq(t, "ed25519".as_bytes()) {
            Ok(KeyAlg::Ed25519)
        } else if bytes_eq(t, "x25519".as_bytes()) {
            Ok(KeyAlg::X25519)
        } else if names(t, "k256", "secp256k1") {
            Ok(KeyAlg::EcCurve(EcCurves::Secp256k1))
        } else if names(t, "p256", "secp256r1") {
            Ok(KeyAlg::EcCurve(EcCurves::Secp256r1))
        } else {
            Err(Error::UnknownAlgorithm)
        }
    }
}

} // verus!
