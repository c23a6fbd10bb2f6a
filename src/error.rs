use vstd::prelude::*;

verus! {

/// The ways in which deriving a key, sealing or opening an envelope can fail.
#[derive(Debug, Clone, Copy, PartialEq, Eq, Structural)]
pub enum CryptoError {
    /// The local secret was not supplied.
    Configuration,
    /// Bad base64 text, a key or envelope of the wrong length, or a
    /// plaintext that is not UTF-8.
    Format,
    /// The authentication tag did not verify: tampered data or wrong key.
    Authentication,
    /// The cipher refused to seal the plaintext.
    Encryption,
}

/// The view of a result whose success value is a string.
pub open spec fn text_result(r: Result<String, CryptoError>) -> Result<Seq<char>, CryptoError> {
    match r {
        Ok(s) => Ok(s@),
        Err(e) => Err(e),
    }
}

} // verus!
