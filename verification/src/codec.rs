//! Base64 encoding and decoding of byte payloads.
//!
//! The encoding itself is done by the `base64` crate; its results are given
//! names at the specification level, and the round trip (decoding an encoded
//! value reproduces the input) is part of the encoder's contract.

use vstd::prelude::*;
use vstd::string::StringSliceAdditionalSpecFns;
use vstd::utf8::{decode_utf8, encode_utf8, valid_utf8};

use crate::error::CryptoError;
use crate::strutil::str_eq;

verus! {

/// The two base64 alphabets the library offers: the standard alphabet with
/// padding, and the URL-safe alphabet without padding.
#[derive(Clone, Copy, Debug, PartialEq, Eq, Structural)]
pub enum Base64Format {
    Standard,
    UrlSafe,
}

impl Base64Format {
    /// The name of the alphabet, the inverse of `parse_base64_format`.
    pub fn as_str(&self) -> (r: &'static str)
        ensures
            *self is Standard ==> r@ == "standard"@,
            *self is UrlSafe ==> r@ == "url"@,
    {
        match self {
            Base64Format::Standard => "standard",
            Base64Format::UrlSafe => "url",
        }
    }
}

/// What `base64`'s standard engine encodes a byte sequence to.
pub uninterp spec fn b64_standard_encoding(data: Seq<u8>) -> Seq<char>;

/// What `base64`'s standard engine decodes a text (as bytes) to, where
/// `None` stands for a decode error.
pub uninterp spec fn b64_standard_decoding(text: Seq<u8>) -> Option<Seq<u8>>;

/// What `base64`'s URL-safe, unpadded engine encodes a byte sequence to.
pub uninterp spec fn b64_url_encoding(data: Seq<u8>) -> Seq<char>;

/// What `base64`'s URL-safe, unpadded engine decodes a text (as bytes) to,
/// where `None` stands for a decode error.
pub uninterp spec fn b64_url_decoding(text: Seq<u8>) -> Option<Seq<u8>>;

/// The encoding of `data` under the chosen alphabet.
pub open spec fn spec_encode(format: Base64Format, data: Seq<u8>) -> Seq<char> {
    match format {
        Base64Format::Standard => b64_standard_encoding(data),
        Base64Format::UrlSafe => b64_url_encoding(data),
    }
}

/// The decoding of the text bytes under the chosen alphabet.
pub open spec fn spec_decode(format: Base64Format, text: Seq<u8>) -> Option<Seq<u8>> {
    match format {
        Base64Format::Standard => b64_standard_decoding(text),
        Base64Format::UrlSafe => b64_url_decoding(text),
    }
}

/// Relies on base64's `BASE64_STANDARD.encode`: it returns the standard,
/// padded base64 text of `data`, and `BASE64_STANDARD.decode` reverses it.
#[verifier::external_body]
fn b64_standard_encode(data: &[u8]) -> (r: String)
    requires
        data@.len() <= usize::MAX / 8,
    ensures
        r@ == b64_standard_encoding(data@),
        b64_standard_decoding(encode_utf8(r@)) == Some(data@),
{
    base64::Engine::encode(&base64::prelude::BASE64_STANDARD, data)
}

/// Relies on base64's `BASE64_URL_SAFE_NO_PAD.encode`: it returns the
/// URL-safe, unpadded base64 text of `data`, and
/// `BASE64_URL_SAFE_NO_PAD.decode` reverses it.
#[verifier::external_body]
fn b64_url_encode(data: &[u8]) -> (r: String)
    requires
        data@.len() <= usize::MAX / 8,
    ensures
        r@ == b64_url_encoding(data@),
        b64_url_decoding(encode_utf8(r@)) == Some(data@),
{
    base64::Engine::encode(&base64::prelude::BASE64_URL_SAFE_NO_PAD, data)
}

/// Relies on base64's `BASE64_STANDARD.decode`: it returns the decoded bytes,
/// or an error exactly when the text is not valid padded standard base64.
#[verifier::external_body]
fn b64_standard_decode(text: &str) -> (r: Result<Vec<u8>, CryptoError>)
    ensures
        r matches Ok(v) ==> b64_standard_decoding(text.spec_bytes()) == Some(v@),
        r is Err ==> b64_standard_decoding(text.spec_bytes()) is None,
        r matches Err(e) ==> e == CryptoError::EncodingError,
{
    match base64::Engine::decode(&base64::prelude::BASE64_STANDARD, text) {
        Ok(v) => Ok(v),
        Err(_) => Err(CryptoError::EncodingError),
    }
}

/// Relies on base64's `BASE64_URL_SAFE_NO_PAD.decode`: it returns the decoded
/// bytes, or an error exactly when the text is not valid unpadded URL-safe
/// base64.
#[verifier::external_body]
fn b64_url_decode(text: &str) -> (r: Result<Vec<u8>, CryptoError>)
    ensures
        r matches Ok(v) ==> b64_url_decoding(text.spec_bytes()) == Some(v@),
        r is Err ==> b64_url_decoding(text.spec_bytes()) is None,
        r matches Err(e) ==> e == CryptoError::EncodingError,
{
    match base64::Engine::decode(&base64::prelude::BASE64_URL_SAFE_NO_PAD, text) {
        Ok(v) => Ok(v),
        Err(_) => Err(CryptoError::EncodingError),
    }
}

/// Relies on std's `String::from_utf8`: it succeeds exactly on valid UTF-8
/// and then returns the decoded characters.
#[verifier::external_body]
fn vec_to_string(bytes: Vec<u8>) -> (r: Result<String, CryptoError>)
    ensures
        r is Ok <==> valid_utf8(bytes@),
        r matches Ok(s) ==> s@ == decode_utf8(bytes@),
        r matches Err(e) ==> e == CryptoError::EncodingError,
{
    match String::from_utf8(bytes) {
        Ok(s) => Ok(s),
        Err(_) => Err(CryptoError::EncodingError),
    }
}

/// Encode `data` as base64 text under the chosen alphabet.
///
/// Decoding the result under the same alphabet reproduces `data` exactly,
/// whatever its length.
pub fn encode_bytes(data: &[u8], format: &Base64Format) -> (r: String)
    requires
        data@.len() <= usize::MAX / 8,
    ensures
        r@ == spec_encode(*format, data@),
        spec_decode(*format, encode_utf8(r@)) == Some(data@),
{
    match format {
        Base64Format::Standard => b64_standard_encode(data),
        Base64Format::UrlSafe => b64_url_encode(data),
    }
}

/// Decode base64 `text` under the chosen alphabet; a text that is not valid
/// base64 for that alphabet gives `EncodingError`.
pub fn decode_bytes(text: &str, format: &Base64Format) -> (r: Result<Vec<u8>, CryptoError>)
    ensures
        r is Ok <==> spec_decode(*format, text.spec_bytes()) is Some,
        r matches Ok(v) ==> spec_decode(*format, text.spec_bytes()) == Some(v@),
        r matches Err(e) ==> e == CryptoError::EncodingError,
{
    match format {
        Base64Format::Standard => b64_standard_decode(text),
        Base64Format::UrlSafe => b64_url_decode(text),
    }
}

/// Encode the UTF-8 bytes of `content` as base64 text.
pub fn process_encode(content: &str, format: &Base64Format) -> (r: String)
    requires
        content.spec_bytes().len() <= usize::MAX / 8,
    ensures
        r@ == spec_encode(*format, content.spec_bytes()),
        spec_decode(*format, encode_utf8(r@)) == Some(content.spec_bytes()),
{
    encode_bytes(content.as_bytes(), format)
}

/// Decode base64 `content` and return the decoded bytes as text; fails with
/// `EncodingError` when the base64 is malformed or the decoded bytes are not
/// UTF-8.
pub fn process_decode(content: &str, format: &Base64Format) -> (r: Result<String, CryptoError>)
    ensures
        r is Ok <==> (spec_decode(*format, content.spec_bytes()) matches Some(b)
            && valid_utf8(b)),
        r matches Ok(s) ==> (spec_decode(*format, content.spec_bytes()) matches Some(b)
            && s@ == decode_utf8(b)),
        r matches Err(e) ==> e == CryptoError::EncodingError,
{
    let decoded = decode_bytes(content, format)?;
    vec_to_string(decoded)
}

/// Parse the name of a base64 alphabet: `"standard"` or `"url"`.
pub fn parse_base64_format(format: &str) -> (r: Result<Base64Format, &'static str>)
    ensures
        format@ == "standard"@ ==> r == Ok::<Base64Format, &'static str>(Base64Format::Standard),
        format@ == "url"@ ==> r == Ok::<Base64Format, &'static str>(Base64Format::UrlSafe),
        format@ != "standard"@ && format@ != "url"@ ==> (r matches Err(e)
            && e@ == "Invalid base64 format."@),
{
    proof {
        reveal_strlit("standard");
        reveal_strlit("url");
        assert("standard"@.len() == 8);
        assert("url"@.len() == 3);
    }
    if str_eq(format, "standard") {
        Ok(Base64Format::Standard)
    } else if str_eq(format, "url") {
        Ok(Base64Format::UrlSafe)
    } else {
        Err("Invalid base64 format.")
    }
}

} // verus!
