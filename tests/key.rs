use envelope_crypt::envelope::encrypt;
use envelope_crypt::error::CryptoError;
use envelope_crypt::key::{decrypt_text, derive_key, encrypt_text, key_from_text, prepare_secret};

#[test]
fn derive_key_pads_with_zero_bytes() {
    let key = derive_key(b"app-secret", "user-pass");
    let mut expected = [0u8; 32];
    expected[..19].copy_from_slice(b"app-secretuser-pass");
    assert_eq!(key, expected);
}

#[test]
fn derive_key_truncates_to_thirty_two_bytes() {
    let key = derive_key(b"0123456789abcdef", "ghijklmnopqrstuvwxyz");
    assert_eq!(&key, b"0123456789abcdefghijklmnopqrstuv");
    let long_local = [5u8; 40];
    assert_eq!(derive_key(&long_local, "ignored"), [5u8; 32]);
}

#[test]
fn derive_key_of_empty_inputs_is_all_zero() {
    assert_eq!(derive_key(b"", ""), [0u8; 32]);
}

#[test]
fn derive_key_is_deterministic() {
    assert_eq!(derive_key(b"local", "caller"), derive_key(b"local", "caller"));
}

#[test]
fn derive_key_separates_caller_secrets_within_the_key() {
    assert_ne!(derive_key(b"local", "caller-a"), derive_key(b"local", "caller-b"));
    let local = [1u8; 30];
    assert_eq!(derive_key(&local, "xyA"), derive_key(&local, "xyB"));
}

#[test]
fn prepare_secret_scenario() {
    let secret = prepare_secret(Some("app-secret"), "user-pass").unwrap();
    assert_eq!(secret, "YXBwLXNlY3JldHVzZXItcGFzcwAAAAAAAAAAAAAAAAA=");
    let envelope = encrypt_text("hello world", &secret).unwrap();
    assert_eq!(decrypt_text(&envelope, &secret).unwrap(), "hello world");
}

#[test]
fn prepare_secret_without_local_secret_is_a_configuration_error() {
    assert_eq!(prepare_secret(None, "user-pass"), Err(CryptoError::Configuration));
}

#[test]
fn key_from_text_reads_thirty_two_bytes() {
    let mut expected = [0u8; 32];
    for (i, b) in expected.iter_mut().enumerate() {
        *b = i as u8;
    }
    assert_eq!(key_from_text("AAECAwQFBgcICQoLDA0ODxAREhMUFRYXGBkaGxwdHh8="), Ok(expected));
}

#[test]
fn key_from_text_rejects_wrong_length_and_bad_base64() {
    assert_eq!(key_from_text("AAECAwQF"), Err(CryptoError::Format));
    assert_eq!(key_from_text("%%%"), Err(CryptoError::Format));
    assert_eq!(encrypt_text("x", "AAECAwQF"), Err(CryptoError::Format));
    assert_eq!(decrypt_text("AAAA", "%%%"), Err(CryptoError::Format));
}

#[test]
fn text_commands_agree_with_byte_key_functions() {
    let secret = "AAECAwQFBgcICQoLDA0ODxAREhMUFRYXGBkaGxwdHh8=";
    let key = key_from_text(secret).unwrap();
    let envelope = encrypt("value", &key).unwrap();
    assert_eq!(decrypt_text(&envelope, secret).unwrap(), "value");
    let other = prepare_secret(Some("a"), "b").unwrap();
    assert_eq!(decrypt_text(&envelope, &other), Err(CryptoError::Authentication));
}
