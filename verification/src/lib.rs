//! Convenience wrappers around modern cryptographic primitives: a fast
//! cryptographic hash for data, a memory-hard password hash, and an
//! authenticated symmetric cipher.
//!
//! The primitives themselves are supplied by external, independently
//! audited libraries; this crate states what each operation returns and
//! holds its own plumbing to those statements.
//!
//! * [`non_password`] - data hashing, using BLAKE3 via the [`blake3`] crate.
//! * [`password`] - password hashing, using Argon2 via the [`argon2`] crate.
//! * [`encrypt`] and [`decrypt`] - authenticated encryption, using
//!   ChaCha20Poly1305 via the [`chacha20poly1305`] crate.

use vstd::prelude::*;

pub mod non_password;
pub mod password;

use chacha20poly1305::aead::{Aead, NewAead, Payload};
use chacha20poly1305::ChaCha20Poly1305;

verus! {

/// Failure of authenticated encryption or decryption. On decryption it
/// signals that the ciphertext did not authenticate under the given key,
/// nonce and associated data; on encryption it can arise only when the
/// plaintext reaches the cipher's block-counter limit.
#[derive(Clone, Copy, Debug, PartialEq, Eq, Structural)]
pub struct AeadError;

/// The ciphertext (body followed by a 16-byte authentication tag) that
/// sealing a plaintext under a 32-byte key, a 12-byte nonce and associated
/// data produces. Sealing is deterministic in those four inputs.
pub uninterp spec fn aead_seal(key: Seq<u8>, nonce: Seq<u8>, aad: Seq<u8>, plaintext: Seq<u8>) -> Seq<u8>;

/// The largest plaintext length the cipher accepts: 64-byte blocks counted
/// by a 32-bit counter.
pub open spec fn aead_max_plaintext_len() -> int {
    64int * 0xffff_ffffint
}

/// Relies on `chacha20poly1305::ChaCha20Poly1305` through `aead::Aead::encrypt`:
/// encryption is a deterministic function of key, nonce, associated data and
/// plaintext; the result is the encrypted body followed by a 16-byte tag, and
/// the call fails only when the plaintext reaches the block-counter limit.
#[verifier::external_body]
fn aead_encrypt(key: &[u8; 32], nonce: &[u8; 12], aad: &[u8], plaintext: &[u8]) -> (r: Result<
    Vec<u8>,
    AeadError,
>)
    ensures
        r matches Ok(ct) ==> ct@ == aead_seal(key@, nonce@, aad@, plaintext@),
        r matches Ok(ct) ==> ct@.len() == plaintext@.len() + 16,
        plaintext@.len() < aead_max_plaintext_len() ==> r is Ok,
{
    let cipher = ChaCha20Poly1305::new(key.into());
    cipher.encrypt(nonce.into(), Payload { msg: plaintext, aad }).map_err(|_| AeadError)
}

/// Relies on `chacha20poly1305::ChaCha20Poly1305` through `aead::Aead::decrypt`:
/// decryption succeeds exactly on the ciphertexts that sealing under the same
/// key, nonce and associated data produces, and then returns the sealed
/// plaintext; any other ciphertext is rejected.
#[verifier::external_body]
fn aead_decrypt(key: &[u8; 32], nonce: &[u8; 12], aad: &[u8], ciphertext: &[u8]) -> (r: Result<
    Vec<u8>,
    AeadError,
>)
    ensures
        r matches Ok(pt) ==> pt@.len() + 16 == ciphertext@.len() && ciphertext@ == aead_seal(
            key@,
            nonce@,
            aad@,
            pt@,
        ),
        r matches Ok(pt) ==> forall|p: Seq<u8>|
            (p.len() < aead_max_plaintext_len() && ciphertext@ == aead_seal(key@, nonce@, aad@, p))
                ==> pt@ == p,
        r is Err ==> forall|p: Seq<u8>|
            p.len() < aead_max_plaintext_len() ==> ciphertext@ != aead_seal(key@, nonce@, aad@, p),
{
    let cipher = ChaCha20Poly1305::new(key.into());
    cipher.decrypt(nonce.into(), Payload { msg: ciphertext, aad }).map_err(|_| AeadError)
}

/// Encrypt a byte payload using the given key and nonce, with no
/// associated data.
///
/// On success the result is the authenticated ciphertext: the encrypted
/// payload followed by a 16-byte tag. Encryption only fails when the
/// plaintext reaches the cipher's block-counter limit.
pub fn encrypt(key: &[u8; 32], nonce: &[u8; 12], plaintext: &[u8]) -> (r: Result<
    Vec<u8>,
    AeadError,
>)
    ensures
        r matches Ok(ct) ==> ct@ == aead_seal(key@, nonce@, Seq::<u8>::empty(), plaintext@),
        r matches Ok(ct) ==> ct@.len() == plaintext@.len() + 16,
        plaintext@.len() < aead_max_plaintext_len() ==> r is Ok,
{
    let no_aad: Vec<u8> = Vec::new();
    encrypt_with_aad(key, nonce, no_aad.as_slice(), plaintext)
}

/// Encrypt a byte payload using the given key and nonce, binding the given
/// associated data into the authentication tag.
///
/// The associated data is not part of the ciphertext: it must be presented
/// again, unchanged, for decryption to succeed.
pub fn encrypt_with_aad(key: &[u8; 32], nonce: &[u8; 12], aad: &[u8], plaintext: &[u8]) -> (r:
    Result<Vec<u8>, AeadError>)
    ensures
        r matches Ok(ct) ==> ct@ == aead_seal(key@, nonce@, aad@, plaintext@),
        r matches Ok(ct) ==> ct@.len() == plaintext@.len() + 16,
        plaintext@.len() < aead_max_plaintext_len() ==> r is Ok,
{
    aead_encrypt(key, nonce, aad, plaintext)
}

/// Decrypt an authenticated ciphertext using the given key and nonce, with
/// no associated data.
///
/// Decryption succeeds exactly on ciphertexts that [`encrypt`] produces
/// under the same key and nonce, and then recovers the original plaintext;
/// a wrong key, a wrong nonce or a tampered ciphertext is rejected with
/// [`AeadError`] rather than yielding corrupted plaintext.
pub fn decrypt(key: &[u8; 32], nonce: &[u8; 12], ciphertext: &[u8]) -> (r: Result<
    Vec<u8>,
    AeadError,
>)
    ensures
        r matches Ok(pt) ==> pt@.len() + 16 == ciphertext@.len() && ciphertext@ == aead_seal(
            key@,
            nonce@,
            Seq::<u8>::empty(),
            pt@,
        ),
        r matches Ok(pt) ==> forall|p: Seq<u8>|
            (p.len() < aead_max_plaintext_len() && ciphertext@ == aead_seal(
                key@,
                nonce@,
                Seq::<u8>::empty(),
                p,
            )) ==> pt@ == p,
        r is Err ==> forall|p: Seq<u8>|
            p.len() < aead_max_plaintext_len() ==> ciphertext@ != aead_seal(
                key@,
                nonce@,
                Seq::<u8>::empty(),
                p,
            ),
{
    let no_aad: Vec<u8> = Vec::new();
    decrypt_with_aad(key, nonce, no_aad.as_slice(), ciphertext)
}

/// Decrypt an authenticated ciphertext using the given key and nonce,
/// checking the given associated data against the authentication tag.
///
/// Decryption succeeds exactly on ciphertexts that [`encrypt_with_aad`]
/// produces under the same key, nonce and associated data, and then
/// recovers the original plaintext.
pub fn decrypt_with_aad(key: &[u8; 32], nonce: &[u8; 12], aad: &[u8], ciphertext: &[u8]) -> (r:
    Result<Vec<u8>, AeadError>)
    ensures
        r matches Ok(pt) ==> pt@.len() + 16 == ciphertext@.len() && ciphertext@ == aead_seal(
            key@,
            nonce@,
            aad@,
            pt@,
        ),
        r matches Ok(pt) ==> forall|p: Seq<u8>|
            (p.len() < aead_max_plaintext_len() && ciphertext@ == aead_seal(key@, nonce@, aad@, p))
                ==> pt@ == p,
        r is Err ==> forall|p: Seq<u8>|
            p.len() < aead_max_plaintext_len() ==> ciphertext@ != aead_seal(key@, nonce@, aad@, p),
{
    aead_decrypt(key, nonce, aad, ciphertext)
}

/// Decrypting what was encrypted with the same key, nonce and associated
/// data recovers the original plaintext exactly, byte for byte: for every
/// plaintext under the cipher's block-counter limit, encryption succeeds
/// and decryption can neither fail nor return different bytes.
pub fn encrypt_then_decrypt(key: &[u8; 32], nonce: &[u8; 12], aad: &[u8], plaintext: &[u8]) -> (r:
    Vec<u8>)
    requires
        plaintext@.len() < aead_max_plaintext_len(),
    ensures
        r@ == plaintext@,
{
    let sealed = encrypt_with_aad(key, nonce, aad, plaintext).unwrap();
    decrypt_with_aad(key, nonce, aad, sealed.as_slice()).unwrap()
}

/// Two holders of the same secret bytes derive, with the same context
/// string, the same cipher key — data hashing and key derivation are
/// deterministic — so a message sealed under one holder's derived key
/// opens under the other's and comes back unchanged.
pub fn derived_key_round_trip(
    context: &str,
    secret_a: &[u8],
    secret_b: &[u8],
    nonce: &[u8; 12],
    message: &[u8],
) -> (r: Vec<u8>)
    requires
        secret_a@ == secret_b@,
        message@.len() < aead_max_plaintext_len(),
    ensures
        r@ == message@,
{
    let key_a = crate::non_password::derive_key(context, secret_a);
    let sealed = encrypt(&key_a, nonce, message).unwrap();
    let key_b = crate::non_password::derive_key(context, secret_b);
    decrypt(&key_b, nonce, sealed.as_slice()).unwrap()
}

} // verus!
