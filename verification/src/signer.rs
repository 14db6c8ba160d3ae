//! The signature of an authenticated request.

use crate::digest::{hmac_sha512, hmac_sha512_bytes, sha256, sha256_bytes};
use crate::encoding::{base64_encode, base64_text, is_base64_char};
use crate::error::{Error, ErrorView};
use crate::header::{is_header_char, is_header_text};
use crate::text::{decimal_string, decimal_text};
use vstd::prelude::*;
use vstd::string::*;
use vstd::utf8::encode_utf8;

verus! {

/// The bytes that are signed: the URI path, then the SHA-256 digest of the
/// decimal nonce directly followed by the request body.
pub open spec fn signed_message(uri_path: Seq<char>, nonce: u64, body: Seq<char>) -> Seq<u8> {
    encode_utf8(uri_path) + sha256_bytes(encode_utf8(decimal_text(nonce as nat) + body))
}

/// The signature of a request: the Base64 text of the HMAC-SHA512 code of
/// `signed_message` under the decoded private key.
pub open spec fn signature_text(
    uri_path: Seq<char>,
    nonce: u64,
    body: Seq<char>,
    key: Seq<u8>,
) -> Seq<char> {
    base64_text(hmac_sha512_bytes(key, signed_message(uri_path, nonce, body)))
}

/// Signs a request for `uri_path` whose URL-encoded body is `body` and holds
/// `nonce`, with the decoded private key `key`.
pub fn signature(uri_path: &str, nonce: u64, body: &str, key: &[u8]) -> (signed: Result<
    String,
    Error,
>)
    ensures
        signed is Ok,
        signed->Ok_0@ == signature_text(uri_path@, nonce, body@, key@),
        is_header_text(signed->Ok_0@),
{
    let mut hashed = decimal_string(nonce);
    hashed.append(body);
    let mut message = uri_path.as_bytes_vec();
    let mut digest = sha256(hashed.as_str().as_bytes());
    message.append(&mut digest);
    match hmac_sha512(key, message.as_slice()) {
        Ok(code) => {
            let text = base64_encode(code.as_slice());
            proof {
                lemma_base64_is_header_text(text@);
            }
            Ok(text)
        },
        Err(error) => Err(Error::from(error)),
    }
}

/// Base64 text can be sent as a header value.
pub proof fn lemma_base64_is_header_text(text: Seq<char>)
    requires
        forall|i: int| 0 <= i < text.len() ==> is_base64_char(#[trigger] text[i]),
    ensures
        is_header_text(text),
{
    assert forall|i: int| 0 <= i < text.len() implies is_header_char(#[trigger] text[i]) by {
        assert(is_base64_char(text[i]));
    }
}

/// Signing is deterministic: what two runs on the same URI path, nonce, body
/// and key return is the same text.
pub proof fn lemma_signature_is_deterministic(
    uri_path: Seq<char>,
    nonce: u64,
    body: Seq<char>,
    key: Seq<u8>,
    first: Seq<char>,
    second: Seq<char>,
)
    requires
        first == signature_text(uri_path, nonce, body, key),
        second == signature_text(uri_path, nonce, body, key),
    ensures
        first == second,
{
}

} // verus!
