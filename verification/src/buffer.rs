//! A buffer for secret bytes, and the sink that signatures are written to.
//!
//! [`SecretBytes`] owns its bytes in an allocation that is overwritten with
//! zeros when the buffer is released. It never duplicates its contents on its
//! own: it has no `Clone`, and when it must grow it moves to a fresh
//! allocation and has the old one wiped, rather than let the allocator copy
//! the bytes and free the old block as it is.

use vstd::prelude::*;

use crate::error::Error;

verus! {

/// An allocation of bytes that is wiped when it is released: the bytes in
/// use and the capacity behind them.
#[verifier::external_body]
pub struct Guarded {
    inner: zeroize::Zeroizing<Vec<u8>>,
}

/// The bytes that a guarded allocation holds.
pub uninterp spec fn guarded_bytes(g: Guarded) -> Seq<u8>;

/// Places `bytes` under guard. Calls `zeroize::Zeroizing::new`, which moves
/// the vector into a wrapper that zeroizes it on drop; the contents are those
/// of `bytes`.
#[verifier::external_body]
fn guard(bytes: Vec<u8>) -> (g: Guarded)
    ensures
        guarded_bytes(g) == bytes@,
{
    Guarded { inner: zeroize::Zeroizing::new(bytes) }
}

/// The vector under guard. Calls `Deref::deref` of `zeroize::Zeroizing`, which
/// borrows the wrapped value.
#[verifier::external_body]
fn guarded(g: &Guarded) -> (bytes: &Vec<u8>)
    ensures
        bytes@ == guarded_bytes(*g),
{
    &*g.inner
}

/// The vector under guard, to be changed in place. Calls `DerefMut::deref_mut`
/// of `zeroize::Zeroizing`, which borrows the wrapped value: what the
/// allocation holds afterwards is what the caller left in the vector.
#[verifier::external_body]
fn guarded_mut(g: &mut Guarded) -> (bytes: &mut Vec<u8>)
    ensures
        bytes@ == guarded_bytes(*old(g)),
        guarded_bytes(*final(g)) == final(bytes)@,
{
    &mut *g.inner
}

/// Takes the vector out from under guard. Calls `core::mem::take` on the
/// wrapped vector, which hands it out whole and leaves an empty one to be
/// dropped.
#[verifier::external_body]
fn unguard(g: Guarded) -> (bytes: Vec<u8>)
    ensures
        bytes@ == guarded_bytes(g),
{
    let mut g = g;
    core::mem::take(&mut *g.inner)
}

/// The capacity that a buffer of capacity `capacity` moves to when it must
/// hold `min_capacity` bytes: at least double, and at least 32.
pub open spec fn grown_capacity(capacity: nat, min_capacity: nat) -> nat {
    let doubled = if 2 * capacity > usize::MAX { usize::MAX as nat } else { 2 * capacity };
    let wanted = if min_capacity > doubled { min_capacity } else { doubled };
    if wanted < 32 { 32 } else { wanted }
}

/// An owned, growable sequence of secret bytes.
///
/// The logical length never exceeds the capacity that the buffer was made or
/// grown with, so writes within the capacity never move the bytes.
pub struct SecretBytes {
    buf: Guarded,
    limit: usize,
}

impl View for SecretBytes {
    type V = Seq<u8>;

    closed spec fn view(&self) -> Seq<u8> {
        guarded_bytes(self.buf)
    }
}

impl SecretBytes {
    /// The logical length is within the capacity. Every constructor
    /// establishes this and every method keeps it.
    pub closed spec fn wf(&self) -> bool {
        guarded_bytes(self.buf).len() <= self.limit
    }

    /// The number of bytes that the buffer holds without moving.
    pub closed spec fn spec_capacity(&self) -> usize {
        self.limit
    }

    /// A well-formed buffer holds no more bytes than its capacity.
    pub proof fn lemma_len_within_capacity(&self)
        requires
            self.wf(),
        ensures
            self@.len() <= self.spec_capacity(),
    {
    }

    /// An empty buffer with room for `max_len` bytes.
    pub fn with_capacity(max_len: usize) -> (r: Self)
        ensures
            r@ == Seq::<u8>::empty(),
            r.spec_capacity() == max_len,
            r.wf(),
    {
        let bytes: Vec<u8> = Vec::with_capacity(max_len);
        SecretBytes { buf: guard(bytes), limit: max_len }
    }

    /// A buffer that holds a copy of `data` and has no room to spare.
    pub fn from_slice(data: &[u8]) -> (r: Self)
        ensures
            r@ == data@,
            r.spec_capacity() == data@.len(),
            r.wf(),
    {
        let mut bytes: Vec<u8> = Vec::with_capacity(data.len());
        bytes.extend_from_slice(data);
        assert(bytes@ =~= data@);
        SecretBytes { buf: guard(bytes), limit: data.len() }
    }

    /// A buffer that holds a copy of `data` and has room for `reserve` more
    /// bytes, so that a tag of that size can be appended in place.
    pub fn from_slice_reserve(data: &[u8], reserve: usize) -> (r: Self)
        requires
            data@.len() + reserve <= usize::MAX,
        ensures
            r@ == data@,
            r.spec_capacity() == data@.len() + reserve,
            r.wf(),
    {
        let limit: usize = data.len() + reserve;
        let mut bytes: Vec<u8> = Vec::with_capacity(limit);
        bytes.extend_from_slice(data);
        assert(bytes@ =~= data@);
        SecretBytes { buf: guard(bytes), limit }
    }

    /// The number of bytes held.
    pub fn len(&self) -> (n: usize)
        ensures
            n == self@.len(),
    {
        guarded(&self.buf).len()
    }

    /// Whether no byte is held.
    pub fn is_empty(&self) -> (empty: bool)
        ensures
            empty == (self@.len() == 0),
    {
        guarded(&self.buf).len() == 0
    }

    /// The number of bytes that the buffer holds without moving.
    pub fn capacity(&self) -> (n: usize)
        ensures
            n == self.spec_capacity(),
            self.wf() ==> self@.len() <= n,
    {
        self.limit
    }

    /// The bytes held.
    pub fn as_slice(&self) -> (bytes: &[u8])
        ensures
            bytes@ == self@,
    {
        guarded(&self.buf).as_slice()
    }

    /// Makes room for at least `min_capacity` bytes in all. Where the
    /// buffer is too small it moves to a fresh allocation of
    /// `grown_capacity` bytes, and the old one is wiped as it is released.
    pub fn ensure_capacity(&mut self, min_capacity: usize)
        ensures
            final(self)@ == old(self)@,
            final(self).spec_capacity() == if min_capacity <= old(self).spec_capacity() {
                old(self).spec_capacity() as nat
            } else {
                grown_capacity(old(self).spec_capacity() as nat, min_capacity as nat)
            },
            old(self).wf() ==> final(self).wf(),
    {
        if min_capacity > self.limit {
            let doubled: usize = if self.limit > usize::MAX / 2 {
                usize::MAX
            } else {
                self.limit * 2
            };
            let wanted: usize = if min_capacity > doubled {
                min_capacity
            } else {
                doubled
            };
            let capacity: usize = if wanted < 32 {
                32
            } else {
                wanted
            };
            let mut fresh: Vec<u8> = Vec::with_capacity(capacity);
            fresh.extend_from_slice(guarded(&self.buf).as_slice());
            assert(fresh@ =~= self@);
            *self = SecretBytes { buf: guard(fresh), limit: capacity };
        }
    }

    /// Makes room for `extra` bytes beyond those held.
    pub fn reserve(&mut self, extra: usize)
        requires
            old(self)@.len() + extra <= usize::MAX,
        ensures
            final(self)@ == old(self)@,
            final(self).spec_capacity() >= old(self)@.len() + extra,
            final(self).spec_capacity() >= old(self).spec_capacity(),
            old(self).spec_capacity() >= old(self)@.len() + extra
                ==> final(self).spec_capacity() == old(self).spec_capacity(),
            old(self).wf() ==> final(self).wf(),
    {
        let len: usize = self.len();
        self.ensure_capacity(len + extra);
    }

    /// Appends a copy of `data`.
    pub fn extend_from_slice(&mut self, data: &[u8])
        requires
            old(self)@.len() + data@.len() <= usize::MAX,
        ensures
            final(self)@ == old(self)@ + data@,
            final(self).spec_capacity() >= old(self).spec_capacity(),
            old(self).spec_capacity() >= old(self)@.len() + data@.len()
                ==> final(self).spec_capacity() == old(self).spec_capacity(),
            final(self).wf(),
    {
        self.reserve(data.len());
        let bytes = guarded_mut(&mut self.buf);
        bytes.extend_from_slice(data);
        assert(bytes@ =~= old(self)@ + data@);
    }

    /// Lends the bytes for a change in place. The capacity stays as it is,
    /// so the borrower must not make the vector longer than that.
    pub(crate) fn as_mut_vec(&mut self) -> (bytes: &mut Vec<u8>)
        ensures
            bytes@ == old(self)@,
            final(self)@ == final(bytes)@,
            final(self).spec_capacity() == old(self).spec_capacity(),
            final(bytes)@.len() <= old(self).spec_capacity() ==> final(self).wf(),
    {
        guarded_mut(&mut self.buf)
    }

    /// Ends the protection: hands the bytes out as a plain vector that is no
    /// longer wiped on release.
    pub fn into_vec(self) -> (bytes: Vec<u8>)
        ensures
            bytes@ == self@,
    {
        unguard(self.buf)
    }
}

/// What a result that carries secret bytes holds.
pub open spec fn secret_result(r: Result<SecretBytes, Error>) -> Result<Seq<u8>, Error> {
    match r {
        Ok(bytes) => Ok(bytes@),
        Err(e) => Err(e),
    }
}

/// What a result that carries plain bytes holds.
pub open spec fn vec_result(r: Result<Vec<u8>, Error>) -> Result<Seq<u8>, Error> {
    match r {
        Ok(bytes) => Ok(bytes@),
        Err(e) => Err(e),
    }
}

/// A sink that bytes are appended to.
pub trait WriteBuffer {
    /// The bytes written so far.
    spec fn written(&self) -> Seq<u8>;

    /// The number of bytes that the sink still takes.
    spec fn room(&self) -> nat;

    /// Appends `data`, or refuses it whole where the sink has no room for it.
    fn buffer_write(&mut self, data: &[u8]) -> (r: Result<(), Error>)
        ensures
            data@.len() <= old(self).room() ==> {
                &&& r is Ok
                &&& final(self).written() == old(self).written() + data@
                &&& final(self).room() == old(self).room() - data@.len()
            },
            data@.len() > old(self).room() ==> {
                &&& r == Err::<(), Error>(Error::ExceededBuffer)
                &&& final(self).written() == old(self).written()
                &&& final(self).room() == old(self).room()
            },
    ;
}

impl WriteBuffer for SecretBytes {
    open spec fn written(&self) -> Seq<u8> {
        self@
    }

    open spec fn room(&self) -> nat {
        (usize::MAX - self@.len()) as nat
    }

    fn buffer_write(&mut self, data: &[u8]) -> (r: Result<(), Error>) {
        let len: usize = self.len();
        if data.len() > usize::MAX - len {
            Err(Error::ExceededBuffer)
        } else {
            self.extend_from_slice(data);
            Ok(())
        }
    }
}

/// A sink that takes a fixed number of bytes and refuses what goes beyond.
pub struct FixedBuffer {
    bytes: Vec<u8>,
    limit: usize,
}

impl View for FixedBuffer {
    type V = Seq<u8>;

    closed spec fn view(&self) -> Seq<u8> {
        self.bytes@
    }
}

impl FixedBuffer {
    /// The number of bytes that the sink takes in all.
    pub closed spec fn spec_limit(&self) -> usize {
        self.limit
    }

    /// An empty sink that takes `limit` bytes.
    pub fn new(limit: usize) -> (r: Self)
        ensures
            r@ == Seq::<u8>::empty(),
            r.spec_limit() == limit,
    {
        FixedBuffer { bytes: Vec::new(), limit }
    }

    /// The number of bytes that the sink takes in all.
    pub fn limit(&self) -> (n: usize)
        ensures
            n == self.spec_limit(),
    {
        self.limit
    }

    /// The number of bytes written.
    pub fn len(&self) -> (n: usize)
        ensures
            n == self@.len(),
    {
        self.bytes.len()
    }

    /// The bytes written.
    pub fn as_slice(&self) -> (bytes: &[u8])
        ensures
            bytes@ == self@,
    {
        self.bytes.as_slice()
    }

    /// The bytes written, as a vector.
    pub fn into_vec(self) -> (bytes: Vec<u8>)
        ensures
            bytes@ == self@,
    {
        self.bytes
    }
}

impl WriteBuffer for FixedBuffer {
    open spec fn written(&self) -> Seq<u8> {
        self@
    }

    open spec fn room(&self) -> nat {
        if self@.len() <= self.spec_limit() {
            (self.spec_limit() - self@.len()) as nat
        } else {
            0
        }
    }

    fn buffer_write(&mut self, data: &[u8]) -> (r: Result<(), Error>) {
        let len: usize = self.bytes.len();
        let room: usize = if len <= self.limit {
            self.limit - len
        } else {
            0
        };
        if data.len() > room {
            Err(Error::ExceededBuffer)
        } else {
            self.bytes.extend_from_slice(data);
            assert(self@ =~= old(self)@ + data@);
            Ok(())
        }
    }
}

impl WriteBuffer for Vec<u8> {
    open spec fn written(&self) -> Seq<u8> {
        self@
    }

    open spec fn room(&self) -> nat {
        (usize::MAX - self@.len()) as nat
    }

    fn buffer_write(&mut self, data: &[u8]) -> (r: Result<(), Error>) {
        let len: usize = self.len();
        if data.len() > usize::MAX - len {
            Err(Error::ExceededBuffer)
        } else {
            self.extend_from_slice(data);
            assert(self@ =~= old(self)@ + data@);
            Ok(())
        }
    }
}

} // verus!
