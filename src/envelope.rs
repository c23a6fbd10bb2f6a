use aes_gcm::aead::{Aead, KeyInit};
use aes_gcm::{Aes256Gcm, Key, Nonce};
use rand::rngs::OsRng;
use rand::RngCore;
use vstd::prelude::*;
use vstd::slice::{slice_subrange, slice_to_vec};
use vstd::utf8::{
    decode_utf8, encode_utf8, encode_utf8_decode_utf8, encode_utf8_valid_utf8, valid_utf8,
};

use crate::encoding::{base64_bytes, base64_text, decode_base64, encode_base64, utf8_to_string};
use crate::error::{text_result, CryptoError};

verus! {

/// Length in bytes of the nonce that opens every envelope.
pub const NONCE_LEN: usize = 12;

/// Length in bytes of the authentication tag that AES-256-GCM appends.
pub const TAG_LEN: usize = 16;

/// The longest plaintext, in bytes, that AES-GCM seals.
pub const MAX_PLAINTEXT_LEN: u64 = 68719476736;

/// What AES-256-GCM, without associated data, makes of `msg` under `key` and
/// `nonce`: the ciphertext followed by the tag.
pub uninterp spec fn gcm_sealed(key: Seq<u8>, nonce: Seq<u8>, msg: Seq<u8>) -> Seq<u8>;

/// What AES-256-GCM, without associated data, recovers from `sealed` under
/// `key` and `nonce`: `None` where the tag does not verify.
pub uninterp spec fn gcm_opened(key: Seq<u8>, nonce: Seq<u8>, sealed: Seq<u8>) -> Option<
    Seq<u8>,
>;

/// Relies on aes_gcm's `Aes256Gcm::encrypt`: it refuses only a plaintext
/// longer than `P_MAX` (2^36 bytes), appends a 16-byte tag, and what it
/// returns is opened by `Aes256Gcm::decrypt` under the same key and nonce.
#[verifier::external_body]
fn gcm_seal(key: &[u8; 32], nonce: &[u8; 12], msg: &[u8]) -> (r: Option<Vec<u8>>)
    ensures
        r is Some <==> msg@.len() <= MAX_PLAINTEXT_LEN,
        r matches Some(c) ==> c@ == gcm_sealed(key@, nonce@, msg@),
        r matches Some(c) ==> c@.len() == msg@.len() + TAG_LEN,
        r matches Some(c) ==> gcm_opened(key@, nonce@, c@) == Some(msg@),
{
    let cipher = Aes256Gcm::new(Key::<Aes256Gcm>::from_slice(key));
    cipher.encrypt(Nonce::from_slice(nonce), msg).ok()
}

/// Relies on aes_gcm's `Aes256Gcm::decrypt`, mapping its `aead::Error` to
/// `None`.
#[verifier::external_body]
fn gcm_open(key: &[u8; 32], nonce: &[u8; 12], sealed: &[u8]) -> (r: Option<Vec<u8>>)
    ensures
        match r {
            Some(p) => gcm_opened(key@, nonce@, sealed@) == Some(p@),
            None => gcm_opened(key@, nonce@, sealed@) is None,
        },
{
    let cipher = Aes256Gcm::new(Key::<Aes256Gcm>::from_slice(key));
    cipher.decrypt(Nonce::from_slice(nonce), sealed).ok()
}

/// Relies on rand's `OsRng::try_fill_bytes`: `len` bytes from the operating
/// system's generator, or `None` where the generator reports an error.
#[verifier::external_body]
pub(crate) fn random_bytes(len: usize) -> (r: Option<Vec<u8>>)
    ensures
        r matches Some(v) ==> v@.len() == len,
{
    let mut bytes = vec![0u8; len];
    match OsRng.try_fill_bytes(&mut bytes) {
        Ok(()) => Some(bytes),
        Err(_) => None,
    }
}

/// Copies exactly `N` bytes into an array.
pub(crate) fn to_array<const N: usize>(bytes: &[u8]) -> (r: [u8; N])
    requires
        bytes@.len() == N,
    ensures
        r@ == bytes@,
{
    let mut out: [u8; N] = [0u8; N];
    let mut i: usize = 0;
    while i < N
        invariant
            0 <= i <= N,
            bytes@.len() == N,
            out@.len() == N,
            forall|j: int| 0 <= j < i ==> out@[j] == bytes@[j],
        decreases N - i,
    {
        out[i] = bytes[i];
        i = i + 1;
    }
    assert(out@ =~= bytes@);
    out
}

/// The envelope of `text` under `key` with `nonce`: the base64 text of the
/// nonce followed by the sealed UTF-8 bytes of `text`.
pub open spec fn sealed_envelope(text: Seq<char>, key: Seq<u8>, nonce: Seq<u8>) -> Result<
    Seq<char>,
    CryptoError,
> {
    let msg = encode_utf8(text);
    if msg.len() > MAX_PLAINTEXT_LEN {
        Err(CryptoError::Encryption)
    } else {
        Ok(base64_text(nonce + gcm_sealed(key, nonce, msg)))
    }
}

/// The text that `envelope` opens to under `key`, or the first failure met:
/// bad base64 or fewer bytes than a nonce, a tag that does not verify, or
/// plaintext that is not UTF-8.
pub open spec fn opened_envelope(envelope: Seq<char>, key: Seq<u8>) -> Result<
    Seq<char>,
    CryptoError,
> {
    match base64_bytes(envelope) {
        None => Err(CryptoError::Format),
        Some(bytes) => if bytes.len() < NONCE_LEN {
            Err(CryptoError::Format)
        } else {
            match gcm_opened(
                key,
                bytes.subrange(0, NONCE_LEN as int),
                bytes.subrange(NONCE_LEN as int, bytes.len() as int),
            ) {
                None => Err(CryptoError::Authentication),
                Some(plain) => if valid_utf8(plain) {
                    Ok(decode_utf8(plain))
                } else {
                    Err(CryptoError::Format)
                },
            }
        },
    }
}

/// Seals `text` under `key` with the given `nonce`. A nonce must never be used
/// twice with one key; `encrypt` draws a fresh one.
pub fn encrypt_with_nonce(text: &str, key: &[u8; 32], nonce: &[u8; 12]) -> (r: Result<
    String,
    CryptoError,
>)
    ensures
        text_result(r) == sealed_envelope(text@, key@, nonce@),
        r matches Ok(envelope) ==> opened_envelope(envelope@, key@) == Ok::<Seq<char>, CryptoError>(text@),
{
    let msg: &[u8] = text.as_bytes();
    let sealed = match gcm_seal(key, nonce, msg) {
        Some(c) => c,
        None => return Err(CryptoError::Encryption),
    };
    let mut combined: Vec<u8> = slice_to_vec(nonce.as_slice());
    combined.extend_from_slice(sealed.as_slice());
    let ghost bytes = combined@;
    assert(bytes =~= nonce@ + sealed@);
    let envelope = encode_base64(combined.as_slice());
    proof {
        assert(bytes.subrange(0, NONCE_LEN as int) =~= nonce@);
        assert(bytes.subrange(NONCE_LEN as int, bytes.len() as int) =~= sealed@);
        encode_utf8_valid_utf8(text@);
        encode_utf8_decode_utf8(text@);
    }
    Ok(envelope)
}

/// Seals `text` under `key` with a fresh random nonce. Fails with
/// `Encryption` where no random nonce can be had or the cipher refuses the
/// plaintext.
pub fn encrypt(text: &str, key: &[u8; 32]) -> (r: Result<String, CryptoError>)
    ensures
        r is Ok ==> exists|nonce: Seq<u8>|
            nonce.len() == NONCE_LEN && text_result(r) == #[trigger] sealed_envelope(
                text@,
                key@,
                nonce,
            ),
        r matches Ok(envelope) ==> opened_envelope(envelope@, key@) == Ok::<Seq<char>, CryptoError>(text@),
        r matches Err(e) ==> e == CryptoError::Encryption,
{
    match random_bytes(NONCE_LEN) {
        Some(bytes) => {
            let nonce: [u8; 12] = to_array(bytes.as_slice());
            encrypt_with_nonce(text, key, &nonce)
        },
        None => Err(CryptoError::Encryption),
    }
}

/// Opens `envelope` under `key`: base64, then a 12-byte nonce and the sealed
/// bytes, then UTF-8.
pub fn decrypt(envelope: &str, key: &[u8; 32]) -> (r: Result<String, CryptoError>)
    ensures
        text_result(r) == opened_envelope(envelope@, key@),
        base64_bytes(envelope@) matches Some(b) && b.len() < NONCE_LEN ==> r == Err::<
            String,
            CryptoError,
        >(CryptoError::Format),
{
    let bytes = match decode_base64(envelope) {
        Some(b) => b,
        None => return Err(CryptoError::Format),
    };
    if bytes.len() < NONCE_LEN {
        return Err(CryptoError::Format);
    }
    let nonce: [u8; 12] = to_array(slice_subrange(bytes.as_slice(), 0, NONCE_LEN));
    let sealed: &[u8] = slice_subrange(bytes.as_slice(), NONCE_LEN, bytes.len());
    let plain = match gcm_open(key, &nonce, sealed) {
        Some(p) => p,
        None => return Err(CryptoError::Authentication),
    };
    match utf8_to_string(plain) {
        Some(s) => Ok(s),
        None => Err(CryptoError::Format),
    }
}

} // verus!
