use vstd::prelude::*;
use vstd::utf8::encode_utf8;

use crate::encoding::{base64_bytes, base64_text, decode_base64, encode_base64};
use crate::envelope::{decrypt, encrypt, opened_envelope, sealed_envelope, to_array, NONCE_LEN};
use crate::error::{text_result, CryptoError};

verus! {

/// Length in bytes of a symmetric key.
pub const KEY_LEN: usize = 32;

/// The key of a local secret and a caller secret: their concatenation, cut
/// to 32 bytes or padded with zero bytes up to 32.
pub open spec fn derived_key(local: Seq<u8>, caller: Seq<u8>) -> Seq<u8> {
    let cat = local + caller;
    Seq::new(KEY_LEN as nat, |i: int| if i < cat.len() { cat[i] } else { 0u8 })
}

/// Derives the 32-byte key of `local_secret` followed by the UTF-8 bytes of
/// `caller_secret`.
pub fn derive_key(local_secret: &[u8], caller_secret: &str) -> (key: [u8; 32])
    ensures
        key@ == derived_key(local_secret@, encode_utf8(caller_secret@)),
{
    let caller: &[u8] = caller_secret.as_bytes();
    let mut key: [u8; 32] = [0u8; 32];
    let ghost cat = local_secret@ + caller@;
    let mut i: usize = 0;
    while i < KEY_LEN
        invariant
            0 <= i <= KEY_LEN,
            cat == local_secret@ + caller@,
            forall|j: int| 0 <= j < i ==> key@[j] == derived_key(local_secret@, caller@)[j],
            forall|j: int| i <= j < KEY_LEN ==> key@[j] == 0u8,
        decreases KEY_LEN - i,
    {
        if i < local_secret.len() {
            key[i] = local_secret[i];
        } else if i - local_secret.len() < caller.len() {
            key[i] = caller[i - local_secret.len()];
        }
        i = i + 1;
    }
    assert(key@ =~= derived_key(local_secret@, caller@));
    key
}

/// Deriving is a function of its inputs: equal caller secrets give equal keys
/// under one local secret. Caller secrets whose concatenations with the local
/// secret hold different bytes at a position below 32 give different keys.
pub proof fn lemma_derived_key_determined_by_prefix(local: Seq<u8>, s1: Seq<char>, s2: Seq<char>)
    ensures
        s1 == s2 ==> derived_key(local, encode_utf8(s1)) == derived_key(local, encode_utf8(s2)),
        forall|i: int|
            0 <= i < KEY_LEN && i < (local + encode_utf8(s1)).len() && i < (local + encode_utf8(
                s2,
            )).len() && #[trigger] (local + encode_utf8(s1))[i] != (local + encode_utf8(s2))[i]
                ==> derived_key(local, encode_utf8(s1)) != derived_key(local, encode_utf8(s2)),
{
    assert forall|i: int|
        0 <= i < KEY_LEN && i < (local + encode_utf8(s1)).len() && i < (local + encode_utf8(
            s2,
        )).len() && #[trigger] (local + encode_utf8(s1))[i] != (local + encode_utf8(s2))[i]
            implies derived_key(local, encode_utf8(s1)) != derived_key(local, encode_utf8(s2)) by {
        assert(derived_key(local, encode_utf8(s1))[i] != derived_key(local, encode_utf8(s2))[i]);
    }
}

/// The key that the text `secret` carries: its base64 bytes, where they are
/// exactly 32.
pub open spec fn key_of_text(secret: Seq<char>) -> Option<Seq<u8>> {
    match base64_bytes(secret) {
        Some(bytes) => if bytes.len() == KEY_LEN {
            Some(bytes)
        } else {
            None
        },
        None => None,
    }
}

/// Derives the key of `local_secret` and `secret` and returns it as base64
/// text. Fails with `Configuration` where no local secret was supplied.
pub fn prepare_secret(local_secret: Option<&str>, secret: &str) -> (r: Result<String, CryptoError>)
    ensures
        match local_secret {
            None => r == Err::<String, CryptoError>(CryptoError::Configuration),
            Some(l) => text_result(r) == Ok::<Seq<char>, CryptoError>(
                base64_text(derived_key(encode_utf8(l@), encode_utf8(secret@))),
            ),
        },
{
    match local_secret {
        None => Err(CryptoError::Configuration),
        Some(l) => {
            let key = derive_key(l.as_bytes(), secret);
            Ok(encode_base64(key.as_slice()))
        },
    }
}

/// Reads a key from its base64 text. Fails with `Format` where the text is
/// not base64 or does not hold exactly 32 bytes.
pub fn key_from_text(secret: &str) -> (r: Result<[u8; 32], CryptoError>)
    ensures
        match key_of_text(secret@) {
            Some(k) => r matches Ok(key) && key@ == k,
            None => r == Err::<[u8; 32], CryptoError>(CryptoError::Format),
        },
{
    let bytes = match decode_base64(secret) {
        Some(b) => b,
        None => return Err(CryptoError::Format),
    };
    if bytes.len() != KEY_LEN {
        return Err(CryptoError::Format);
    }
    let key: [u8; 32] = to_array(bytes.as_slice());
    Ok(key)
}

/// Seals `text` under the key that the base64 text `secret` carries, with a
/// fresh random nonce.
pub fn encrypt_text(text: &str, secret: &str) -> (r: Result<String, CryptoError>)
    ensures
        key_of_text(secret@) is None ==> r == Err::<String, CryptoError>(CryptoError::Format),
        key_of_text(secret@) matches Some(k) ==> {
            &&& r is Ok ==> exists|nonce: Seq<u8>|
                nonce.len() == NONCE_LEN && text_result(r) == #[trigger] sealed_envelope(
                    text@,
                    k,
                    nonce,
                )
            &&& r matches Ok(envelope) ==> opened_envelope(envelope@, k) == Ok::<
                Seq<char>,
                CryptoError,
            >(text@)
            &&& r matches Err(e) ==> e == CryptoError::Encryption
        },
{
    let key = key_from_text(secret)?;
    encrypt(text, &key)
}

/// Opens `encrypted_text` under the key that the base64 text `secret`
/// carries.
pub fn decrypt_text(encrypted_text: &str, secret: &str) -> (r: Result<String, CryptoError>)
    ensures
        match key_of_text(secret@) {
            Some(k) => text_result(r) == opened_envelope(encrypted_text@, k),
            None => r == Err::<String, CryptoError>(CryptoError::Format),
        },
{
    let key = key_from_text(secret)?;
    decrypt(encrypted_text, &key)
}

} // verus!
