use secret_sealing::{decrypt, encrypt};
use std::str;

#[test]
fn encrypt_decrypt_test() {
    let key: &[u8; 32] = b"32-byte randomized key for u! :)";
    let nonce: &[u8; 12] = b"ECONNREFUSED";
    let message: &str = "hello, world!";
    let encrypted_message = encrypt(key, nonce, message.as_bytes()).unwrap();
    let decrypted_message = decrypt(key, nonce, encrypted_message.as_ref()).unwrap();
    let decrypted_message_str = str::from_utf8(&decrypted_message).unwrap();
    assert_eq!(decrypted_message_str, message);
}
