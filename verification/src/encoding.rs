use vstd::prelude::*;

use crate::errors::CryptoError;
use crate::format::B64Format;
use crate::trim::{spec_trim, trim_trailing};
use base64::Engine;

verus! {

/// The base64 text, over the standard alphabet with padding, of a byte
/// sequence.
pub uninterp spec fn b64_standard(data: Seq<u8>) -> Seq<u8>;

/// What decoding a text over the standard alphabet yields: the encoded
/// bytes, or nothing when the text does not conform to the alphabet.
pub uninterp spec fn b64_standard_decode(text: Seq<u8>) -> Option<Seq<u8>>;

/// The base64 text, over the URL-safe alphabet without padding, of a byte
/// sequence.
pub uninterp spec fn b64_url(data: Seq<u8>) -> Seq<u8>;

/// What decoding a text over the URL-safe unpadded alphabet yields.
pub uninterp spec fn b64_url_decode(text: Seq<u8>) -> Option<Seq<u8>>;

/// Relies on base64's standard engine: encoding is a function of the input
/// bytes alone, and decoding an encoded text gives the bytes back.
#[verifier::external_body]
fn b64_encode_standard(data: &[u8]) -> (r: Vec<u8>)
    ensures
        r@ == b64_standard(data@),
        b64_standard_decode(r@) == Some(data@),
        data@.len() == 0 ==> r@.len() == 0,
{
    base64::engine::general_purpose::STANDARD.encode(data).into_bytes()
}

/// Relies on base64's standard engine: decoding is a function of the input
/// text alone, failing exactly on text that does not conform.
#[verifier::external_body]
fn b64_decode_standard(text: &[u8]) -> (r: Option<Vec<u8>>)
    ensures
        r matches Some(v) ==> b64_standard_decode(text@) == Some(v@),
        r is None ==> b64_standard_decode(text@) is None,
{
    base64::engine::general_purpose::STANDARD.decode(text).ok()
}

/// Relies on base64's URL-safe unpadded engine: encoding is a function of
/// the input bytes alone, and decoding an encoded text gives the bytes back.
#[verifier::external_body]
fn b64_encode_url(data: &[u8]) -> (r: Vec<u8>)
    ensures
        r@ == b64_url(data@),
        b64_url_decode(r@) == Some(data@),
        data@.len() == 0 ==> r@.len() == 0,
{
    base64::engine::general_purpose::URL_SAFE_NO_PAD.encode(data).into_bytes()
}

/// Relies on base64's URL-safe unpadded engine: decoding is a function of
/// the input text alone, failing exactly on text that does not conform.
#[verifier::external_body]
fn b64_decode_url(text: &[u8]) -> (r: Option<Vec<u8>>)
    ensures
        r matches Some(v) ==> b64_url_decode(text@) == Some(v@),
        r is None ==> b64_url_decode(text@) is None,
{
    base64::engine::general_purpose::URL_SAFE_NO_PAD.decode(text).ok()
}

/// The encoded text of `data` over the alphabet that `format` selects.
pub open spec fn spec_b64_encode(format: B64Format, data: Seq<u8>) -> Seq<u8> {
    match format {
        B64Format::Standard => b64_standard(data),
        B64Format::UrlSafe => b64_url(data),
    }
}

/// What decoding `text` over the alphabet that `format` selects yields.
pub open spec fn spec_b64_decode(format: B64Format, text: Seq<u8>) -> Option<Seq<u8>> {
    match format {
        B64Format::Standard => b64_standard_decode(text),
        B64Format::UrlSafe => b64_url_decode(text),
    }
}

/// Encode bytes as base64 text over the selected alphabet.
///
/// The result is ASCII; decoding it over the same alphabet gives the input
/// back.
pub fn process_encode(data: &[u8], format: B64Format) -> (r: Vec<u8>)
    ensures
        r@ == spec_b64_encode(format, data@),
        spec_b64_decode(format, r@) == Some(data@),
{
    match format {
        B64Format::Standard => b64_encode_standard(data),
        B64Format::UrlSafe => b64_encode_url(data),
    }
}

/// Decode base64 text over the selected alphabet, after removing trailing
/// ASCII whitespace; text outside the alphabet is rejected as
/// `EncodingError`.
pub fn process_decode(data: &[u8], format: B64Format) -> (r: Result<Vec<u8>, CryptoError>)
    ensures
        r matches Ok(v) ==> spec_b64_decode(format, spec_trim(data@)) == Some(v@),
        r is Err ==> spec_b64_decode(format, spec_trim(data@)) is None && r == Err::<
            Vec<u8>,
            CryptoError,
        >(CryptoError::EncodingError),
{
    let trimmed = trim_trailing(data);
    let decoded = match format {
        B64Format::Standard => b64_decode_standard(trimmed.as_slice()),
        B64Format::UrlSafe => b64_decode_url(trimmed.as_slice()),
    };
    match decoded {
        Some(v) => Ok(v),
        None => Err(CryptoError::EncodingError),
    }
}

} // verus!
