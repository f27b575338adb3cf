//! Checks against the password hashing functions, with the real argon2
//! implementation linked.
use blog_core::password::{encrypt_password, validate_password};

#[test]
fn encrypted_password_validates() {
    let hash = encrypt_password("hunter2").expect("hashing succeeds");
    assert_ne!(hash, "hunter2");
    assert!(hash.starts_with("$argon2"));
    validate_password("hunter2", &hash).expect("same password verifies");
}

#[test]
fn wrong_password_fails_validation() {
    let hash = encrypt_password("hunter2").expect("hashing succeeds");
    assert!(validate_password("hunter3", &hash).is_err());
}

#[test]
fn unparseable_hash_fails_validation() {
    assert!(validate_password("hunter2", "not a hash").is_err());
}

#[test]
fn two_hashes_of_one_password_differ_by_salt() {
    let first = encrypt_password("hunter2").expect("hashing succeeds");
    let second = encrypt_password("hunter2").expect("hashing succeeds");
    assert_ne!(first, second);
    validate_password("hunter2", &second).expect("fresh salt still verifies");
}
