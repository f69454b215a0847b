use secret_sealing::{
    decrypt, decrypt_with_aad, derived_key_round_trip, encrypt, encrypt_then_decrypt,
    encrypt_with_aad,
};
use secret_sealing::non_password::derive_key;
use std::str;

#[test]
fn encrypt_then_decrypt_recovers_plaintext() {
    let key: &[u8; 32] = b"an example very very secret key.";
    let nonce: &[u8; 12] = b"unique nonce";
    let recovered = encrypt_then_decrypt(key, nonce, b"message header", b"attack at dawn");
    assert_eq!(recovered, b"attack at dawn");
}

#[test]
fn derived_key_round_trip_with_equal_secrets() {
    let secret = b"bytes agreed on by both parties";
    let nonce: &[u8; 12] = b"unique nonce";
    let recovered = derived_key_round_trip("example app derived cipher key", secret, secret, nonce, b"hello alice");
    assert_eq!(recovered, b"hello alice");
}

#[test]
fn derived_key_seals_message() {
    // Two parties holding the same secret bytes derive the same cipher key
    // and can exchange an authenticated message with it.
    let shared_secret = b"bytes agreed on by both parties";
    let context = "secret_sealing key_exchange integration test";
    let nonce: &[u8; 12] = b"lisreal 2401";
    let sender_key = derive_key(context, shared_secret);
    let encrypted = encrypt(&sender_key, nonce, b"hello alice").unwrap();
    let receiver_key = derive_key(context, shared_secret);
    assert_eq!(sender_key, receiver_key);
    let message = decrypt(&receiver_key, nonce, &encrypted).unwrap();
    assert_eq!(str::from_utf8(&message).unwrap(), "hello alice");
}

#[test]
fn ciphertext_appends_tag() {
    let key: &[u8; 32] = b"an example very very secret key.";
    let nonce: &[u8; 12] = b"unique nonce";
    let plaintext = b"some plaintext";
    let ciphertext = encrypt(key, nonce, plaintext).unwrap();
    assert_eq!(ciphertext.len(), plaintext.len() + 16);
    // The ciphertext body is not the plaintext handed back unchanged.
    assert_ne!(&ciphertext[..plaintext.len()], &plaintext[..]);
}

#[test]
fn empty_plaintext_round_trip() {
    let key: &[u8; 32] = b"an example very very secret key.";
    let nonce: &[u8; 12] = b"unique nonce";
    let ciphertext = encrypt(key, nonce, b"").unwrap();
    assert_eq!(ciphertext.len(), 16);
    let recovered = decrypt(key, nonce, &ciphertext).unwrap();
    assert!(recovered.is_empty());
}

#[test]
fn wrong_key_fails() {
    let key: &[u8; 32] = b"an example very very secret key.";
    let other_key: &[u8; 32] = b"a different very very secret key";
    let nonce: &[u8; 12] = b"unique nonce";
    let ciphertext = encrypt(key, nonce, b"attack at dawn").unwrap();
    assert!(decrypt(other_key, nonce, &ciphertext).is_err());
}

#[test]
fn wrong_nonce_fails() {
    let key: &[u8; 32] = b"an example very very secret key.";
    let nonce: &[u8; 12] = b"unique nonce";
    let other_nonce: &[u8; 12] = b"other nonce!";
    let ciphertext = encrypt(key, nonce, b"attack at dawn").unwrap();
    assert!(decrypt(key, other_nonce, &ciphertext).is_err());
}

#[test]
fn tampered_ciphertext_fails() {
    let key: &[u8; 32] = b"an example very very secret key.";
    let nonce: &[u8; 12] = b"unique nonce";
    let mut ciphertext = encrypt(key, nonce, b"attack at dawn").unwrap();
    ciphertext[0] ^= 0x01;
    assert!(decrypt(key, nonce, &ciphertext).is_err());
}

#[test]
fn truncated_ciphertext_fails() {
    let key: &[u8; 32] = b"an example very very secret key.";
    let nonce: &[u8; 12] = b"unique nonce";
    let ciphertext = encrypt(key, nonce, b"attack at dawn").unwrap();
    assert!(decrypt(key, nonce, &ciphertext[..ciphertext.len() - 1]).is_err());
}

#[test]
fn associated_data_round_trip() {
    let key: &[u8; 32] = b"an example very very secret key.";
    let nonce: &[u8; 12] = b"unique nonce";
    let aad = b"message header";
    let ciphertext = encrypt_with_aad(key, nonce, aad, b"attack at dawn").unwrap();
    let recovered = decrypt_with_aad(key, nonce, aad, &ciphertext).unwrap();
    assert_eq!(recovered, b"attack at dawn");
}

#[test]
fn wrong_associated_data_fails() {
    let key: &[u8; 32] = b"an example very very secret key.";
    let nonce: &[u8; 12] = b"unique nonce";
    let ciphertext = encrypt_with_aad(key, nonce, b"message header", b"attack at dawn").unwrap();
    assert!(decrypt_with_aad(key, nonce, b"other header!!", &ciphertext).is_err());
    assert!(decrypt(key, nonce, &ciphertext).is_err());
}
