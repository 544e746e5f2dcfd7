//! Key derivation from key agreement.
//!
//! Two protocols turn Diffie-Hellman secrets into a key of a length that the
//! caller chooses. Both hash the secret together with three strings that
//! separate one use from another: the algorithm identifier, the producer's
//! information and the consumer's information. Each string is preceded by
//! its length, so that no two triples give the same hash input.

use vstd::prelude::*;

use crate::buffer::{secret_result, SecretBytes};
use crate::bytes::wipe;
use crate::error::Error;
use crate::key::X25519KeyPair;
use crate::primitives::{sha256, sha256_digest, x25519_output};

verus! {

/// The longest key, in bytes, that one pass of the hash gives.
pub const KDF_MAX_OUTPUT: usize = 32;

/// A derivation of key bytes of a length that the caller chooses.
pub trait KeyDerivation {
    /// The bytes that the derivation gives for a key of `len` bytes, or the
    /// error that keeps it from giving any.
    spec fn derived(&self, len: nat) -> Result<Seq<u8>, Error>;

    /// Derives a key of `len` bytes.
    fn derive_key_bytes(&self, len: usize) -> (r: Result<SecretBytes, Error>)
        ensures
            match r {
                Ok(key) => self.derived(len as nat) == Ok::<Seq<u8>, Error>(key@) && key@.len()
                    == len,
                Err(e) => self.derived(len as nat) == Err::<Seq<u8>, Error>(e),
            },
    ;
}

/// The digit of `n` in base 256 at place `place`, counted from the lowest.
pub open spec fn digit(n: nat, place: nat) -> nat {
    if place == 0 {
        n % 0x100
    } else if place == 1 {
        n / 0x100 % 0x100
    } else if place == 2 {
        n / 0x1_0000 % 0x100
    } else {
        n / 0x100_0000 % 0x100
    }
}

/// The four bytes of `n` in big-endian order.
pub open spec fn be32(n: nat) -> Seq<u8> {
    seq![digit(n, 3) as u8, digit(n, 2) as u8, digit(n, 1) as u8, digit(n, 0) as u8]
}

/// `data` preceded by its length in four bytes.
pub open spec fn length_prefixed(data: Seq<u8>) -> Seq<u8> {
    be32(data.len()) + data
}

/// What the hash is applied to: the round counter 1, the shared secret, the
/// three separating strings with their lengths, and the key length in bits.
pub open spec fn concat_kdf_input(
    secret: Seq<u8>,
    alg: Seq<u8>,
    apu: Seq<u8>,
    apv: Seq<u8>,
    len: nat,
) -> Seq<u8> {
    be32(1) + secret + length_prefixed(alg) + length_prefixed(apu) + length_prefixed(apv) + be32(
        len * 8,
    )
}

/// The number of bytes of the hash input.
pub open spec fn concat_kdf_input_len(
    secret: Seq<u8>,
    alg: Seq<u8>,
    apu: Seq<u8>,
    apv: Seq<u8>,
) -> nat {
    20 + secret.len() + alg.len() + apu.len() + apv.len()
}

/// The hash input of a derivation that can be made. One pass of the hash
/// gives at most 32 bytes, and a separating string must have a length that
/// four bytes encode.
pub open spec fn concat_kdf_checked_input(
    secret: Seq<u8>,
    alg: Seq<u8>,
    apu: Seq<u8>,
    apv: Seq<u8>,
    len: nat,
) -> Result<Seq<u8>, Error> {
    if len > KDF_MAX_OUTPUT {
        Err(Error::UnsupportedKeySize)
    } else if alg.len() > u32::MAX || apu.len() > u32::MAX || apv.len() > u32::MAX
        || concat_kdf_input_len(secret, alg, apu, apv) > usize::MAX {
        Err(Error::OversizedInput)
    } else {
        Ok(concat_kdf_input(secret, alg, apu, apv, len))
    }
}

/// The key of `len` bytes that is cut from a digest: its first `len` bytes.
pub open spec fn concat_kdf_key_of(digest: Seq<u8>, len: nat) -> Result<Seq<u8>, Error> {
    if len > KDF_MAX_OUTPUT {
        Err(Error::UnsupportedKeySize)
    } else {
        Ok(digest.subrange(0, len as int))
    }
}

/// The key of `len` bytes derived from `secret`: the first `len` bytes of the
/// hash of the input.
pub open spec fn concat_kdf(
    secret: Seq<u8>,
    alg: Seq<u8>,
    apu: Seq<u8>,
    apv: Seq<u8>,
    len: nat,
) -> Result<Seq<u8>, Error> {
    match concat_kdf_checked_input(secret, alg, apu, apv, len) {
        Ok(input) => concat_kdf_key_of(sha256(input), len),
        Err(e) => Err(e),
    }
}

/// A number below 2^32 is the sum of its four digits in base 256.
proof fn lemma_digits_give_number(n: nat)
    requires
        n <= u32::MAX,
    ensures
        n == digit(n, 3) * 0x100_0000 + digit(n, 2) * 0x1_0000 + digit(n, 1) * 0x100 + digit(n, 0),
        digit(n, 0) < 0x100,
        digit(n, 1) < 0x100,
        digit(n, 2) < 0x100,
        digit(n, 3) < 0x100,
{
    let q1 = n / 0x100;
    let q2 = n / 0x1_0000;
    let q3 = n / 0x100_0000;
    assert(n == q1 * 0x100 + n % 0x100);
    assert(q2 == q1 / 0x100);
    assert(q1 == q2 * 0x100 + q1 % 0x100);
    assert(q3 == q2 / 0x100);
    assert(q2 == q3 * 0x100 + q2 % 0x100);
    assert(q3 < 0x100);
}

/// The bytes of `be32` are the digits, highest first.
proof fn lemma_be32_digits(n: nat)
    ensures
        be32(n).len() == 4,
        be32(n)[0] == digit(n, 3),
        be32(n)[1] == digit(n, 2),
        be32(n)[2] == digit(n, 1),
        be32(n)[3] == digit(n, 0),
{
}

/// Four bytes encode one number only.
pub proof fn lemma_be32_injective(a: nat, b: nat)
    requires
        a <= u32::MAX,
        b <= u32::MAX,
        be32(a) == be32(b),
    ensures
        a == b,
{
    lemma_be32_digits(a);
    lemma_be32_digits(b);
    lemma_digits_give_number(a);
    lemma_digits_give_number(b);
    assert(digit(a, 3) == digit(b, 3));
    assert(digit(a, 2) == digit(b, 2));
    assert(digit(a, 1) == digit(b, 1));
    assert(digit(a, 0) == digit(b, 0));
}

/// A string with its length in front can be read back from the start of
/// whatever follows it: two such strings, each followed by anything, that
/// give the same bytes are the same string followed by the same thing.
pub proof fn lemma_length_prefixed_separates(
    a: Seq<u8>,
    rest_a: Seq<u8>,
    b: Seq<u8>,
    rest_b: Seq<u8>,
)
    requires
        a.len() <= u32::MAX,
        b.len() <= u32::MAX,
        length_prefixed(a) + rest_a == length_prefixed(b) + rest_b,
    ensures
        a == b,
        rest_a == rest_b,
{
    let left = length_prefixed(a) + rest_a;
    let right = length_prefixed(b) + rest_b;
    assert(left.subrange(0, 4) =~= be32(a.len()));
    assert(right.subrange(0, 4) =~= be32(b.len()));
    lemma_be32_injective(a.len(), b.len());
    assert(left.subrange(4, 4 + a.len() as int) =~= a);
    assert(right.subrange(4, 4 + b.len() as int) =~= b);
    assert(left.subrange(4 + a.len() as int, left.len() as int) =~= rest_a);
    assert(right.subrange(4 + b.len() as int, right.len() as int) =~= rest_b);
}

/// Two strings of one length, each followed by anything, that give the
/// same bytes are the same string followed by the same thing.
pub proof fn lemma_equal_length_separates(a: Seq<u8>, rest_a: Seq<u8>, b: Seq<u8>, rest_b: Seq<u8>)
    requires
        a.len() == b.len(),
        a + rest_a == b + rest_b,
    ensures
        a == b,
        rest_a == rest_b,
{
    let left = a + rest_a;
    let right = b + rest_b;
    assert(left.subrange(0, a.len() as int) =~= a);
    assert(right.subrange(0, b.len() as int) =~= b);
    assert(left.subrange(a.len() as int, left.len() as int) =~= rest_a);
    assert(right.subrange(b.len() as int, right.len() as int) =~= rest_b);
}

/// The hash input, with its parts grouped from the end: the counter and
/// the secret, then each string with what follows it.
proof fn lemma_kdf_input_grouped(
    secret: Seq<u8>,
    alg: Seq<u8>,
    apu: Seq<u8>,
    apv: Seq<u8>,
    len: nat,
)
    ensures
        concat_kdf_input(secret, alg, apu, apv, len) == (be32(1) + secret) + (length_prefixed(alg)
            + (length_prefixed(apu) + (length_prefixed(apv) + be32(len * 8)))),
{
    assert(concat_kdf_input(secret, alg, apu, apv, len) =~= (be32(1) + secret) + (length_prefixed(
        alg,
    ) + (length_prefixed(apu) + (length_prefixed(apv) + be32(len * 8)))));
}

/// The hash input keeps its parts apart. Two derivations with shared
/// secrets of one length whose hash inputs are the same bytes have the same
/// secret, algorithm identifier, producer information and consumer
/// information. So changing any one of the three strings, with nothing else
/// changed, changes what is hashed.
pub proof fn lemma_kdf_input_separates(
    secret_a: Seq<u8>,
    alg_a: Seq<u8>,
    apu_a: Seq<u8>,
    apv_a: Seq<u8>,
    secret_b: Seq<u8>,
    alg_b: Seq<u8>,
    apu_b: Seq<u8>,
    apv_b: Seq<u8>,
    len: nat,
)
    requires
        secret_a.len() == secret_b.len(),
        alg_a.len() <= u32::MAX && apu_a.len() <= u32::MAX && apv_a.len() <= u32::MAX,
        alg_b.len() <= u32::MAX && apu_b.len() <= u32::MAX && apv_b.len() <= u32::MAX,
        concat_kdf_input(secret_a, alg_a, apu_a, apv_a, len) == concat_kdf_input(
            secret_b,
            alg_b,
            apu_b,
            apv_b,
            len,
        ),
    ensures
        secret_a == secret_b,
        alg_a == alg_b,
        apu_a == apu_b,
        apv_a == apv_b,
{
    let tail = be32(len * 8);
    let rest2_a = length_prefixed(apv_a) + tail;
    let rest1_a = length_prefixed(apu_a) + rest2_a;
    let rest0_a = length_prefixed(alg_a) + rest1_a;
    let rest2_b = length_prefixed(apv_b) + tail;
    let rest1_b = length_prefixed(apu_b) + rest2_b;
    let rest0_b = length_prefixed(alg_b) + rest1_b;
    lemma_kdf_input_grouped(secret_a, alg_a, apu_a, apv_a, len);
    lemma_kdf_input_grouped(secret_b, alg_b, apu_b, apv_b, len);
    lemma_equal_length_separates(be32(1) + secret_a, rest0_a, be32(1) + secret_b, rest0_b);
    lemma_equal_length_separates(be32(1), secret_a, be32(1), secret_b);
    lemma_length_prefixed_separates(alg_a, rest1_a, alg_b, rest1_b);
    lemma_length_prefixed_separates(apu_a, rest2_a, apu_b, rest2_b);
    lemma_length_prefixed_separates(apv_a, tail, apv_b, tail);
}

/// The four bytes of `n` in big-endian order.
fn be32_bytes(n: u32) -> (bytes: [u8; 4])
    ensures
        bytes@ == be32(n as nat),
{
    let bytes: [u8; 4] = [
        (n / 0x100_0000 % 0x100) as u8,
        (n / 0x1_0000 % 0x100) as u8,
        (n / 0x100 % 0x100) as u8,
        (n % 0x100) as u8,
    ];
    assert(bytes@ =~= be32(n as nat));
    bytes
}

/// Appends `data`, preceded by its length, to `input`.
fn write_length_prefixed(input: &mut SecretBytes, data: &[u8])
    requires
        data@.len() <= u32::MAX,
        old(input)@.len() + 4 + data@.len() <= old(input).spec_capacity(),
        old(input).wf(),
    ensures
        final(input)@ == old(input)@ + length_prefixed(data@),
        final(input).spec_capacity() == old(input).spec_capacity(),
        final(input).wf(),
{
    let prefix = be32_bytes(data.len() as u32);
    input.extend_from_slice(&prefix);
    input.extend_from_slice(data);
    assert(input@ =~= old(input)@ + length_prefixed(data@));
}

/// Assembles what the hash is applied to, in a secret buffer of exactly its
/// size.
pub fn concat_kdf_hash_input(
    secret: &SecretBytes,
    alg: &[u8],
    apu: &[u8],
    apv: &[u8],
    len: usize,
) -> (r: Result<SecretBytes, Error>)
    ensures
        secret_result(r) == concat_kdf_checked_input(secret@, alg@, apu@, apv@, len as nat),
        r matches Ok(input) ==> input.wf(),
{
    if len > KDF_MAX_OUTPUT {
        return Err(Error::UnsupportedKeySize);
    }
    if alg.len() > u32::MAX as usize || apu.len() > u32::MAX as usize || apv.len()
        > u32::MAX as usize {
        return Err(Error::OversizedInput);
    }
    let total: usize = match input_len(secret.len(), alg.len(), apu.len(), apv.len()) {
        Some(n) => n,
        None => {
            return Err(Error::OversizedInput);
        },
    };
    let mut input = SecretBytes::with_capacity(total);
    input.extend_from_slice(&be32_bytes(1));
    input.extend_from_slice(secret.as_slice());
    write_length_prefixed(&mut input, alg);
    write_length_prefixed(&mut input, apu);
    write_length_prefixed(&mut input, apv);
    input.extend_from_slice(&be32_bytes((len * 8) as u32));
    assert(input@ =~= concat_kdf_input(secret@, alg@, apu@, apv@, len as nat));
    Ok(input)
}

/// Cuts the key of `len` bytes from a digest: its first `len` bytes.
pub fn concat_kdf_key(digest: &[u8; 32], len: usize) -> (r: Result<SecretBytes, Error>)
    ensures
        secret_result(r) == concat_kdf_key_of(digest@, len as nat),
        r matches Ok(key) ==> key@.len() == len && key.wf(),
{
    if len > KDF_MAX_OUTPUT {
        return Err(Error::UnsupportedKeySize);
    }
    Ok(SecretBytes::from_slice(vstd::slice::slice_subrange(digest.as_slice(), 0, len)))
}

/// Derives a key of `len` bytes from `secret` and the three separating
/// strings: hashes the input and cuts the key from the digest. The buffer
/// that held the input and the copy of the digest are wiped before the
/// function returns.
pub fn concat_kdf_sha256(
    secret: &SecretBytes,
    alg: &[u8],
    apu: &[u8],
    apv: &[u8],
    len: usize,
) -> (r: Result<SecretBytes, Error>)
    ensures
        secret_result(r) == concat_kdf(secret@, alg@, apu@, apv@, len as nat),
        r matches Ok(key) ==> key@.len() == len && key.wf(),
{
    let input = match concat_kdf_hash_input(secret, alg, apu, apv, len) {
        Ok(input) => input,
        Err(e) => {
            return Err(e);
        },
    };
    let mut digest = sha256_digest(input.as_slice());
    let key = concat_kdf_key(&digest, len);
    wipe(&mut digest);
    key
}

/// The length of the hash input for strings of the given lengths, where it
/// fits the machine's word.
fn input_len(secret: usize, alg: usize, apu: usize, apv: usize) -> (total: Option<usize>)
    ensures
        match total {
            Some(n) => n == 20 + secret + alg + apu + apv,
            None => 20 + secret + alg + apu + apv > usize::MAX,
        },
{
    let a: usize = match secret.checked_add(20) {
        Some(n) => n,
        None => {
            return None;
        },
    };
    let b: usize = match a.checked_add(alg) {
        Some(n) => n,
        None => {
            return None;
        },
    };
    let c: usize = match b.checked_add(apu) {
        Some(n) => n,
        None => {
            return None;
        },
    };
    c.checked_add(apv)
}

/// The secret that `own`'s private key and `other`'s public key agree on.
pub open spec fn agreed(own: X25519KeyPair, other: X25519KeyPair) -> Result<Seq<u8>, Error> {
    match own.secret_bytes() {
        Some(secret) => Ok(x25519_output(secret, other.public_bytes())),
        None => Err(Error::MissingSecretKey),
    }
}

/// The key that the anonymous protocol derives: one agreement, between the
/// ephemeral private key and the recipient's public key.
pub open spec fn ecdh_es_derived(
    ephem: X25519KeyPair,
    recip: X25519KeyPair,
    alg: Seq<u8>,
    apu: Seq<u8>,
    apv: Seq<u8>,
    len: nat,
) -> Result<Seq<u8>, Error> {
    if len > KDF_MAX_OUTPUT {
        Err(Error::UnsupportedKeySize)
    } else {
        match agreed(ephem, recip) {
            Err(e) => Err(e),
            Ok(z) => concat_kdf(z, alg, apu, apv, len),
        }
    }
}

/// The key that the authenticated protocol derives: two agreements with the
/// recipient's public key, first by the ephemeral private key, then by the
/// sender's, their secrets joined in that order.
pub open spec fn ecdh_1pu_derived(
    ephem: X25519KeyPair,
    sender: X25519KeyPair,
    recip: X25519KeyPair,
    alg: Seq<u8>,
    apu: Seq<u8>,
    apv: Seq<u8>,
    len: nat,
) -> Result<Seq<u8>, Error> {
    if len > KDF_MAX_OUTPUT {
        Err(Error::UnsupportedKeySize)
    } else {
        match agreed(ephem, recip) {
            Err(e) => Err(e),
            Ok(ze) => match agreed(sender, recip) {
                Err(e) => Err(e),
                Ok(zs) => concat_kdf(ze + zs, alg, apu, apv, len),
            },
        }
    }
}

/// The inputs of one anonymous derivation (ECDH-ES).
pub struct EcdhEs<'d> {
    /// The ephemeral key; its private key is used.
    pub ephem_key: &'d X25519KeyPair,
    /// The recipient's key; its public key is used.
    pub recip_key: &'d X25519KeyPair,
    /// The algorithm identifier.
    pub alg: &'d [u8],
    /// The producer's information.
    pub apu: &'d [u8],
    /// The consumer's information.
    pub apv: &'d [u8],
}

impl<'d> EcdhEs<'d> {
    /// The derivation with these inputs.
    pub fn new(
        ephem_key: &'d X25519KeyPair,
        recip_key: &'d X25519KeyPair,
        alg: &'d [u8],
        apu: &'d [u8],
        apv: &'d [u8],
    ) -> (r: Self)
        ensures
            r.ephem_key == ephem_key,
            r.recip_key == recip_key,
            r.alg == alg,
            r.apu == apu,
            r.apv == apv,
    {
        EcdhEs { ephem_key, recip_key, alg, apu, apv }
    }
}

impl<'d> KeyDerivation for EcdhEs<'d> {
    open spec fn derived(&self, len: nat) -> Result<Seq<u8>, Error> {
        ecdh_es_derived(*self.ephem_key, *self.recip_key, self.alg@, self.apu@, self.apv@, len)
    }

    fn derive_key_bytes(&self, len: usize) -> (r: Result<SecretBytes, Error>) {
        if len > KDF_MAX_OUTPUT {
            return Err(Error::UnsupportedKeySize);
        }
        let z = match self.ephem_key.key_exchange(self.recip_key) {
            Ok(z) => z,
            Err(e) => {
                return Err(e);
            },
        };
        concat_kdf_sha256(&z, self.alg, self.apu, self.apv, len)
    }
}

/// The inputs of one authenticated derivation (ECDH-1PU).
pub struct Ecdh1PU<'d> {
    /// The ephemeral key; its private key is used.
    pub ephem_key: &'d X25519KeyPair,
    /// The sender's static key; its private key is used.
    pub send_key: &'d X25519KeyPair,
    /// The recipient's key; its public key is used.
    pub recip_key: &'d X25519KeyPair,
    /// The algorithm identifier.
    pub alg: &'d [u8],
    /// The producer's information.
    pub apu: &'d [u8],
    /// The consumer's information.
    pub apv: &'d [u8],
}

impl<'d> Ecdh1PU<'d> {
    /// The derivation with these inputs.
    pub fn new(
        ephem_key: &'d X25519KeyPair,
        send_key: &'d X25519KeyPair,
        recip_key: &'d X25519KeyPair,
        alg: &'d [u8],
        apu: &'d [u8],
        apv: &'d [u8],
    ) -> (r: Self)
        ensures
            r.ephem_key == ephem_key,
            r.send_key == send_key,
            r.recip_key == recip_key,
            r.alg == alg,
            r.apu == apu,
            r.apv == apv,
    {
        Ecdh1PU { ephem_key, send_key, recip_key, alg, apu, apv }
    }
}

impl<'d> KeyDerivation for Ecdh1PU<'d> {
    open spec fn derived(&self, len: nat) -> Result<Seq<u8>, Error> {
        ecdh_1pu_derived(
            *self.ephem_key,
            *self.send_key,
            *self.recip_key,
            self.alg@,
            self.apu@,
            self.apv@,
            len,
        )
    }

    fn derive_key_bytes(&self, len: usize) -> (r: Result<SecretBytes, Error>) {
        if len > KDF_MAX_OUTPUT {
            return Err(Error::UnsupportedKeySize);
        }
        let ze = match self.ephem_key.key_exchange(self.recip_key) {
            Ok(z) => z,
            Err(e) => {
                return Err(e);
            },
        };
        let zs = match self.send_key.key_exchange(self.recip_key) {
            Ok(z) => z,
            Err(e) => {
                return Err(e);
            },
        };
        let mut z = SecretBytes::with_capacity(64);
        z.extend_from_slice(ze.as_slice());
        z.extend_from_slice(zs.as_slice());
        assert(z@ =~= ze@ + zs@);
        concat_kdf_sha256(&z, self.alg, self.apu, self.apv, len)
    }
}

} // verus!
