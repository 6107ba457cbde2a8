use vstd::prelude::*;

use base64::Engine;

verus! {

/// The standard base64 encoding error.
#[verifier::external_type_specification]
#[verifier::external_body]
pub struct ExDecodeError(base64::DecodeError);

/// The text of the standard base64 encoding (standard alphabet, padded) of
/// `bytes`.
pub uninterp spec fn base64_encoding(bytes: Seq<u8>) -> Seq<char>;

/// The bytes that the standard base64 text `text` decodes to, or `None` when
/// `text` is not valid standard base64.
pub uninterp spec fn base64_decoding(text: Seq<char>) -> Option<Seq<u8>>;

/// Encodes `bytes` with `base64::engine::general_purpose::STANDARD`. Trusted:
/// the result is the standard encoding of the bytes, and decoding it gives
/// the bytes back, as the crate documents for its engines.
#[verifier::external_body]
pub fn encode_base64(bytes: &[u8]) -> (r: String)
    ensures
        r@ == base64_encoding(bytes@),
        base64_decoding(r@) == Some(bytes@),
{
    base64::engine::general_purpose::STANDARD.encode(bytes)
}

/// Decodes `text` with `base64::engine::general_purpose::STANDARD`. Trusted:
/// the result is the decoding of the text, an error exactly when the text is
/// not valid standard base64. What the error holds is not stated.
#[verifier::external_body]
pub fn decode_base64(text: &str) -> (r: Result<Vec<u8>, base64::DecodeError>)
    ensures
        r matches Ok(b) ==> base64_decoding(text@) == Some(b@),
        r is Err <==> base64_decoding(text@) is None,
{
    base64::engine::general_purpose::STANDARD.decode(text)
}

} // verus!
