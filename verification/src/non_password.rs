//! A fast cryptographic hash meant for data (not passwords).
//!
//! To hash passwords, the [`password`] module should be used instead: it
//! is deliberately slow and salted, which data hashing is not.
//!
//! [`password`]: crate::password
//!
//! ## Algorithm
//! This module uses the BLAKE3 hashing algorithm, via the [`blake3`] crate.

use vstd::prelude::*;

verus! {

/// The 32-byte BLAKE3 digest of a byte string. Hashing is a deterministic
/// function of the input bytes alone.
pub uninterp spec fn blake3_digest(input: Seq<u8>) -> Seq<u8>;

/// The 32-byte BLAKE3 keyed digest of a byte string under a 32-byte key.
/// It is a deterministic function of the key and the input alone.
pub uninterp spec fn blake3_keyed_digest(key: Seq<u8>, input: Seq<u8>) -> Seq<u8>;

/// The 32-byte key that BLAKE3's key-derivation mode draws from a context
/// string and input key material. It is a deterministic function of the
/// two alone.
pub uninterp spec fn blake3_derived_key(context: Seq<char>, key_material: Seq<u8>) -> Seq<u8>;

/// Relies on `blake3::hash`: the default (unkeyed) hash, a deterministic
/// function of the input bytes, with a 32-byte output.
#[verifier::external_body]
fn blake3_hash_call(input: &[u8]) -> (r: [u8; 32])
    ensures
        r@ == blake3_digest(input@),
{
    blake3::hash(input).into()
}

/// Relies on `blake3::keyed_hash`: the keyed hash, a deterministic function
/// of the 32-byte key and the input bytes, with a 32-byte output.
#[verifier::external_body]
fn blake3_keyed_hash_call(key: &[u8; 32], input: &[u8]) -> (r: [u8; 32])
    ensures
        r@ == blake3_keyed_digest(key@, input@),
{
    blake3::keyed_hash(key, input).into()
}

/// Relies on `blake3::derive_key`: the key-derivation mode, a deterministic
/// function of the context string and the key material, with a 32-byte
/// output.
#[verifier::external_body]
fn blake3_derive_key_call(context: &str, key_material: &[u8]) -> (r: [u8; 32])
    ensures
        r@ == blake3_derived_key(context@, key_material@),
{
    blake3::derive_key(context, key_material)
}

/// Compute the 32-byte digest of arbitrary byte input.
///
/// Hashing is deterministic: equal inputs always give equal digests.
pub fn hash(input: &[u8]) -> (r: [u8; 32])
    ensures
        r@ == blake3_digest(input@),
{
    blake3_hash_call(input)
}

/// Compute the 32-byte keyed digest of arbitrary byte input under a
/// 32-byte key, usable as a message authentication code.
///
/// Keyed hashing is deterministic: equal keys and inputs always give
/// equal digests.
pub fn keyed_hash(key: &[u8; 32], input: &[u8]) -> (r: [u8; 32])
    ensures
        r@ == blake3_keyed_digest(key@, input@),
{
    blake3_keyed_hash_call(key, input)
}

/// Derive a 32-byte key from input key material and a context string that
/// should be unique to the application and use case.
///
/// Derivation is deterministic: equal contexts and key material always
/// give equal keys.
pub fn derive_key(context: &str, key_material: &[u8]) -> (r: [u8; 32])
    ensures
        r@ == blake3_derived_key(context@, key_material@),
{
    blake3_derive_key_call(context, key_material)
}

/// Data hashing is a function of the input bytes alone: hashing the same
/// bytes twice, in whatever call and in whatever order, yields the same
/// digest.
pub proof fn lemma_hash_deterministic(a: Seq<u8>, b: Seq<u8>)
    ensures
        a == b ==> blake3_digest(a) == blake3_digest(b),
{
}

/// The outside incremental hasher, held opaquely; [`IncrementalHasher`]
/// wraps it and carries the specification.
#[verifier::external_type_specification]
#[verifier::external_body]
pub struct ExBlake3Hasher(blake3::Hasher);

/// The bytes fed so far to an incremental hasher.
pub uninterp spec fn hasher_contents(h: blake3::Hasher) -> Seq<u8>;

/// Relies on `blake3::Hasher::new`: a fresh hasher has been fed nothing.
#[verifier::external_body]
fn blake3_hasher_new() -> (r: blake3::Hasher)
    ensures
        hasher_contents(r) == Seq::<u8>::empty(),
{
    blake3::Hasher::new()
}

/// Relies on `blake3::Hasher::update`: it appends the input to the bytes
/// fed so far.
#[verifier::external_body]
fn blake3_hasher_update(h: &mut blake3::Hasher, input: &[u8])
    ensures
        hasher_contents(*final(h)) == hasher_contents(*old(h)) + input@,
{
    h.update(input);
}

/// Relies on `blake3::Hasher::finalize`: the digest of an incremental
/// hasher equals the one-shot digest of the concatenation of everything
/// fed to it, however the input was split.
#[verifier::external_body]
fn blake3_hasher_finalize(h: &blake3::Hasher) -> (r: [u8; 32])
    ensures
        r@ == blake3_digest(hasher_contents(*h)),
{
    h.finalize().into()
}

/// An incremental data hasher: bytes can be fed in pieces, and the final
/// digest equals the one-shot [`hash`] of their concatenation.
pub struct IncrementalHasher {
    inner: blake3::Hasher,
}

impl View for IncrementalHasher {
    type V = Seq<u8>;

    /// The bytes fed so far.
    closed spec fn view(&self) -> Seq<u8> {
        hasher_contents(self.inner)
    }
}

impl IncrementalHasher {
    /// Create a hasher that has been fed nothing yet.
    pub fn new() -> (r: Self)
        ensures
            r@ == Seq::<u8>::empty(),
    {
        IncrementalHasher { inner: blake3_hasher_new() }
    }

    /// Feed more input bytes to the hasher.
    pub fn update(&mut self, input: &[u8])
        ensures
            final(self)@ == old(self)@ + input@,
    {
        blake3_hasher_update(&mut self.inner, input);
    }

    /// Compute the digest of everything fed so far: exactly the digest
    /// that [`hash`] gives for the concatenation of the fed bytes.
    pub fn finalize(&self) -> (r: [u8; 32])
        ensures
            r@ == blake3_digest(self@),
    {
        blake3_hasher_finalize(&self.inner)
    }
}

} // verus!
