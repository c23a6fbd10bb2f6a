use argon2::password_hash::PasswordHash;
use argon2::{Argon2, PasswordVerifier};
use envelope_crypt::vault::{hash_vault_password, hash_vault_password_with_salt};

#[test]
fn vault_hash_is_a_phc_string_with_the_salt() {
    let hash = hash_vault_password_with_salt("pw", &[0u8; 16]).unwrap();
    let text = String::from_utf8(hash).unwrap();
    assert!(text.starts_with("$argon2id$v=19$m=19456,t=2,p=1$AAAAAAAAAAAAAAAAAAAAAA$"));
    let parsed = PasswordHash::new(&text).unwrap();
    assert!(Argon2::default().verify_password(b"pw", &parsed).is_ok());
    assert!(Argon2::default().verify_password(b"other", &parsed).is_err());
}

#[test]
fn vault_hash_is_determined_by_password_and_salt() {
    let a = hash_vault_password_with_salt("pw", &[3u8; 16]).unwrap();
    let b = hash_vault_password_with_salt("pw", &[3u8; 16]).unwrap();
    let c = hash_vault_password_with_salt("pw", &[4u8; 16]).unwrap();
    assert_eq!(a, b);
    assert_ne!(a, c);
}

#[test]
fn vault_hash_with_random_salt_verifies() {
    let hash = hash_vault_password("vault pass").unwrap();
    let text = String::from_utf8(hash).unwrap();
    let parsed = PasswordHash::new(&text).unwrap();
    assert!(Argon2::default().verify_password(b"vault pass", &parsed).is_ok());
}
