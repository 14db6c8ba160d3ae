//! The hash and the keyed hash that signing is made of.

use crate::error::{Error, ErrorView};
use hmac::crypto_mac::InvalidKeyLength;
use hmac::{Hmac, Mac, NewMac};
use sha2::{Digest, Sha256, Sha512};
use vstd::prelude::*;
use vstd::string::*;

verus! {

/// `InvalidKeyLength`, the error of a key that a MAC cannot take.
#[verifier::external_type_specification]
#[verifier::external_body]
pub struct ExInvalidKeyLength(InvalidKeyLength);

/// The SHA-256 digest of `data`.
pub uninterp spec fn sha256_bytes(data: Seq<u8>) -> Seq<u8>;

/// The HMAC-SHA512 code of `message` under `key`.
pub uninterp spec fn hmac_sha512_bytes(key: Seq<u8>, message: Seq<u8>) -> Seq<u8>;

/// `Sha256::digest`: the digest of `data`.
#[verifier::external_body]
pub(crate) fn sha256(data: &[u8]) -> (digest: Vec<u8>)
    ensures
        digest@ == sha256_bytes(data@),
{
    Sha256::digest(data).to_vec()
}

/// `Hmac::<Sha512>::new_from_slice`, `update` and `finalize`: the code of
/// `message` under `key`, 64 bytes long. HMAC takes a key of any length, so
/// the result is always `Ok`.
#[verifier::external_body]
pub(crate) fn hmac_sha512(key: &[u8], message: &[u8]) -> (code: Result<Vec<u8>, InvalidKeyLength>)
    ensures
        code is Ok,
        code->Ok_0@ == hmac_sha512_bytes(key@, message@),
        code->Ok_0@.len() == 64,
{
    let mut mac = Hmac::<Sha512>::new_from_slice(key)?;
    mac.update(message);
    Ok(mac.finalize().into_bytes().to_vec())
}

/// The `Display` text of `InvalidKeyLength`, which is the same for every
/// value of it.
#[verifier::external_body]
fn invalid_key_length_text(error: &InvalidKeyLength) -> (text: String)
    ensures
        text@ == "invalid key length"@,
{
    error.to_string()
}

impl From<InvalidKeyLength> for Error {
    fn from(error: InvalidKeyLength) -> (invalid: Self)
        ensures
            invalid@ == ErrorView::InvalidKey("invalid key length"@),
    {
        Error::invalid_key(invalid_key_length_text(&error).as_str())
    }
}

impl vstd::std_specs::convert::FromSpecImpl<InvalidKeyLength> for Error {
    open spec fn obeys_from_spec() -> bool {
        false
    }

    open spec fn from_spec(error: InvalidKeyLength) -> Error {
        arbitrary()
    }
}

} // verus!
