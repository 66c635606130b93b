//! Incremental digest state and the digest values it produces.
use vstd::prelude::*;
use crate::algorithm::{Hashing, MAX_INPUT_LEN};
use crate::hex_text::hex_of;
use vstd::string::StringSliceAdditionalSpecFns;

verus! {

#[verifier::external_type_specification]
#[verifier::external_body]
pub struct ExRingContext(ring::digest::Context);

/// The digest that `ring` computes over `data` with the algorithm `alg`.
pub uninterp spec fn ring_digest(alg: Hashing, data: Seq<u8>) -> Seq<u8>;

/// The bytes fed to a `ring` context so far, in order.
pub uninterp spec fn ring_input(c: ring::digest::Context) -> Seq<u8>;

/// The algorithm a `ring` context was created for.
pub uninterp spec fn ring_algorithm(c: ring::digest::Context) -> Hashing;

/// Relies on ring::digest::Context::new: a fresh context for the given
/// algorithm, with nothing fed yet.
#[verifier::external_body]
fn ring_context_new(alg: Hashing) -> (r: ring::digest::Context)
    ensures
        ring_algorithm(r) == alg,
        ring_input(r) == Seq::<u8>::empty(),
{
    ring::digest::Context::new(
        match alg {
            Hashing::Sha1 => &ring::digest::SHA1_FOR_LEGACY_USE_ONLY,
            Hashing::Sha256 => &ring::digest::SHA256,
            Hashing::Sha384 => &ring::digest::SHA384,
            Hashing::Sha512 => &ring::digest::SHA512,
            Hashing::Sha512_256 => &ring::digest::SHA512_256,
        },
    )
}

/// Relies on ring::digest::Context::update: appends `data` to what the
/// context has been fed; it does not fail.
#[verifier::external_body]
fn ring_context_update(c: &mut ring::digest::Context, data: &[u8])
    ensures
        ring_algorithm(*final(c)) == ring_algorithm(*old(c)),
        ring_input(*final(c)) == ring_input(*old(c)) + data@,
{
    c.update(data)
}

/// Relies on ring::digest::Context::finish and Digest::as_ref: the digest of
/// everything fed, `output_len` bytes long. `finish` panics when the input's
/// length in bits does not fit in 64 bits.
#[verifier::external_body]
fn ring_context_finish(c: ring::digest::Context) -> (r: Vec<u8>)
    requires
        ring_input(c).len() <= MAX_INPUT_LEN,
    ensures
        r@ == ring_digest(ring_algorithm(c), ring_input(c)),
        r@.len() == ring_algorithm(c).output_len(),
{
    c.finish().as_ref().to_vec()
}

/// Relies on the derived `Clone` of ring::digest::Context, which copies the
/// whole running state: the copy has the same algorithm and input.
#[verifier::external_body]
fn ring_context_clone(c: &ring::digest::Context) -> (r: ring::digest::Context)
    ensures
        ring_algorithm(r) == ring_algorithm(*c),
        ring_input(r) == ring_input(*c),
{
    c.clone()
}

/// Relies on hex::encode: two lowercase hexadecimal digits per byte.
#[verifier::external_body]
fn hex_encode(b: &[u8]) -> (r: String)
    ensures
        r@ == hex_of(b@),
{
    hex::encode(b)
}

/// A context for multi-step digest computations, useful when hashing a data
/// structure with several fields or a larger input piece by piece.
pub struct HashContext {
    inner: ring::digest::Context,
}

impl HashContext {
    /// The algorithm this context computes.
    pub closed spec fn algorithm(&self) -> Hashing {
        ring_algorithm(self.inner)
    }

    /// Everything fed to this context so far, in order.
    pub closed spec fn input(&self) -> Seq<u8> {
        ring_input(self.inner)
    }

    /// Feeds `data` to the context, after everything fed before.
    pub fn update(&mut self, data: &[u8])
        ensures
            final(self).algorithm() == old(self).algorithm(),
            final(self).input() == old(self).input() + data@,
    {
        ring_context_update(&mut self.inner, data);
    }

    /// Returns the digest of everything fed to the context. The context is
    /// consumed, so it can be neither finished twice nor fed afterwards.
    pub fn finish(self) -> (r: Hash)
        requires
            self.input().len() <= MAX_INPUT_LEN,
        ensures
            r@ == ring_digest(self.algorithm(), self.input()),
            r@.len() == self.algorithm().output_len(),
    {
        Hash { bytes: ring_context_finish(self.inner) }
    }
}

impl Clone for HashContext {
    /// Returns an independent context that has been fed the same bytes, so
    /// that a common prefix is hashed only once.
    fn clone(&self) -> (r: Self)
        ensures
            r.algorithm() == self.algorithm(),
            r.input() == self.input(),
    {
        HashContext { inner: ring_context_clone(&self.inner) }
    }
}

/// A message digest produced by one of the `Hashing` algorithms, readable as
/// bytes, as a byte vector or as hexadecimal text.
#[derive(Clone, Debug, PartialEq, Eq)]
pub struct Hash {
    bytes: Vec<u8>,
}

impl View for Hash {
    type V = Seq<u8>;

    closed spec fn view(&self) -> Seq<u8> {
        self.bytes@
    }
}

impl Hash {
    /// Returns the digest's bytes.
    pub fn as_bytes(&self) -> (r: &[u8])
        ensures
            r@ == self@,
    {
        self.bytes.as_slice()
    }

    /// Returns a copy of the digest's bytes.
    pub fn to_vec(&self) -> (r: Vec<u8>)
        ensures
            r@ == self@,
    {
        self.bytes.clone()
    }

    /// Returns the digest as lowercase hexadecimal text, two digits per byte.
    pub fn to_hex(&self) -> (r: String)
        ensures
            r@ == hex_of(self@),
            r@.len() == 2 * self@.len(),
    {
        hex_encode(self.bytes.as_slice())
    }
}

impl Hashing {
    /// Creates a context that computes digests with this algorithm.
    pub fn new_context(&self) -> (r: HashContext)
        ensures
            r.algorithm() == *self,
            r.input() == Seq::<u8>::empty(),
    {
        HashContext { inner: ring_context_new(*self) }
    }

    /// Returns the digest of `data`.
    pub fn hash(&self, data: &[u8]) -> (r: Hash)
        requires
            data@.len() <= MAX_INPUT_LEN,
        ensures
            r@ == ring_digest(*self, data@),
            r@.len() == self.output_len(),
    {
        let mut ctx = self.new_context();
        ctx.update(data);
        assert(ctx.input() =~= data@);
        ctx.finish()
    }

    /// Returns the digest of the bytes held by `data`.
    pub fn hash_vec(&self, data: Vec<u8>) -> (r: Hash)
        requires
            data@.len() <= MAX_INPUT_LEN,
        ensures
            r@ == ring_digest(*self, data@),
            r@.len() == self.output_len(),
    {
        self.hash(data.as_slice())
    }

    /// Returns the digest of the UTF-8 encoding of `data`.
    pub fn hash_str(&self, data: &str) -> (r: Hash)
        requires
            data.spec_bytes().len() <= MAX_INPUT_LEN,
        ensures
            r@ == ring_digest(*self, data.spec_bytes()),
            r@.len() == self.output_len(),
    {
        self.hash(data.as_bytes())
    }
}

/// Hashing a byte slice, a byte vector holding the same bytes, and a string
/// whose UTF-8 encoding is those bytes gives one and the same digest.
pub proof fn lemma_input_forms_agree(alg: Hashing, bytes: Seq<u8>, buffer: Vec<u8>, text: &str)
    requires
        buffer@ == bytes,
        text.spec_bytes() == bytes,
    ensures
        ring_digest(alg, buffer@) == ring_digest(alg, bytes),
        ring_digest(alg, text.spec_bytes()) == ring_digest(alg, bytes),
{
}

/// Feeding a fresh context `a` and then `b` (`start`, then `fed_a`, then
/// `fed_b`, as `new_context` and `update` leave them) makes finishing it give
/// the digest of `a` followed by `b`, which is what `hash` returns for that
/// concatenation, wherever the input is split.
pub proof fn lemma_incremental(
    start: HashContext,
    fed_a: HashContext,
    fed_b: HashContext,
    a: Seq<u8>,
    b: Seq<u8>,
)
    requires
        start.input() == Seq::<u8>::empty(),
        fed_a.algorithm() == start.algorithm(),
        fed_a.input() == start.input() + a,
        fed_b.algorithm() == fed_a.algorithm(),
        fed_b.input() == fed_a.input() + b,
    ensures
        fed_b.input() == a + b,
        ring_digest(fed_b.algorithm(), fed_b.input()) == ring_digest(start.algorithm(), a + b),
{
    assert(fed_b.input() =~= a + b);
}

} // verus!
