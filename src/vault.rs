use argon2::password_hash::SaltString;
use argon2::{Argon2, PasswordHasher};
use vstd::prelude::*;
use vstd::slice::slice_to_vec;
use vstd::utf8::encode_utf8;

use crate::envelope::{random_bytes, to_array};

verus! {

/// Length in bytes of the random salt of a vault password hash.
pub const SALT_LEN: usize = 16;

/// The PHC string that Argon2 with its default parameters makes of
/// `password` and `salt`: `None` where hashing fails.
pub uninterp spec fn argon2_phc(password: Seq<u8>, salt: Seq<u8>) -> Option<Seq<char>>;

/// Relies on argon2's `Argon2::default().hash_password`, with `salt` turned
/// into a B64 `SaltString` by `SaltString::encode_b64`; its error maps to
/// `None`. Sixteen salt bytes make a salt string that argon2 accepts.
#[verifier::external_body]
fn argon2_hash(password: &[u8], salt: &[u8; 16]) -> (r: Option<String>)
    ensures
        match r {
            Some(h) => argon2_phc(password@, salt@) == Some(h@),
            None => argon2_phc(password@, salt@) is None,
        },
{
    let salt = SaltString::encode_b64(salt).ok()?;
    Argon2::default().hash_password(password, &salt).ok().map(|h| h.to_string())
}

/// The bytes that protect a vault: the UTF-8 bytes of the Argon2 PHC string
/// of `password` under `salt`.
pub open spec fn vault_key_bytes(password: Seq<char>, salt: Seq<u8>) -> Option<Seq<u8>> {
    match argon2_phc(encode_utf8(password), salt) {
        Some(h) => Some(encode_utf8(h)),
        None => None,
    }
}

/// Hashes a vault password with Argon2 under the given salt and returns the
/// UTF-8 bytes of the PHC string.
pub fn hash_vault_password_with_salt(password: &str, salt: &[u8; 16]) -> (r: Option<Vec<u8>>)
    ensures
        match r {
            Some(b) => vault_key_bytes(password@, salt@) == Some(b@),
            None => vault_key_bytes(password@, salt@) is None,
        },
{
    match argon2_hash(password.as_bytes(), salt) {
        Some(h) => Some(slice_to_vec(h.as_str().as_bytes())),
        None => None,
    }
}

/// Hashes a vault password with Argon2 under a fresh random salt. `None`
/// where no random salt can be had or hashing fails.
pub fn hash_vault_password(password: &str) -> (r: Option<Vec<u8>>)
    ensures
        r matches Some(b) ==> exists|salt: Seq<u8>|
            salt.len() == SALT_LEN && #[trigger] vault_key_bytes(password@, salt) == Some(b@),
{
    match random_bytes(SALT_LEN) {
        Some(bytes) => {
            let salt: [u8; 16] = to_array(bytes.as_slice());
            hash_vault_password_with_salt(password, &salt)
        },
        None => None,
    }
}

} // verus!
