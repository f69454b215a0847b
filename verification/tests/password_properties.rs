use secret_sealing::password;

#[test]
fn hashes_are_salted() {
    let hash_1 = password::hash(b"hunter2").unwrap();
    let hash_2 = password::hash(b"hunter2").unwrap();
    // A fresh salt is drawn for every hash, so the strings differ...
    assert_ne!(hash_1, hash_2);
    // ...yet each verifies the password it was made from.
    assert!(password::verify(b"hunter2", &hash_1).is_ok());
    assert!(password::verify(b"hunter2", &hash_2).is_ok());
}

#[test]
fn hash_is_a_phc_string() {
    let hash = password::hash(b"hunter2").unwrap();
    assert!(hash.starts_with("$argon2"));
}

#[test]
fn malformed_hash_string_fails() {
    assert!(password::verify(b"hunter2", "not a phc string").is_err());
    assert!(password::verify(b"hunter2", "").is_err());
}
