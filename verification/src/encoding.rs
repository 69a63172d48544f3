//! Encodings and digests of byte strings.

use vstd::prelude::*;

verus! {

/// Why text was refused as base64. Its contents are never inspected here.
#[verifier::external_type_specification]
#[verifier::external_body]
pub struct ExDecodeError(base64::DecodeError);

/// The standard base64 encoding of `bytes`, with padding.
pub uninterp spec fn base64_encoded(bytes: Seq<u8>) -> Seq<char>;

/// The bytes that `text` stands for in standard base64 with padding, `None`
/// where it is no such encoding.
pub uninterp spec fn base64_decoded(text: Seq<char>) -> Option<Seq<u8>>;

/// The SHA-256 digest of `bytes` in lower-case hexadecimal.
pub uninterp spec fn sha256_hex(bytes: Seq<u8>) -> Seq<char>;

/// Longest input that the encoder takes: beyond it the length of the
/// encoding cannot be computed.
pub const MAX_ENCODE_LEN: usize = 0x3fff_ffff;

/// Calls `base64::Engine::encode` on the standard engine. Trusted: the
/// result is [`base64_encoded`] of the bytes. The length bound keeps out the
/// inputs on which the size of the output overflows and the call panics.
#[verifier::external_body]
pub(crate) fn encode(bytes: &[u8]) -> (text: String)
    requires
        bytes@.len() <= MAX_ENCODE_LEN,
    ensures
        text@ == base64_encoded(bytes@),
{
    base64::Engine::encode(&base64::engine::general_purpose::STANDARD, bytes)
}

/// Calls `base64::Engine::decode` on the standard engine. Trusted: the
/// outcome is [`base64_decoded`] of the text, an `Err` standing for `None`.
#[verifier::external_body]
pub(crate) fn decode(text: &str) -> (bytes: Result<Vec<u8>, base64::DecodeError>)
    ensures
        match bytes {
            Ok(decoded) => base64_decoded(text@) == Some(decoded@),
            Err(_) => base64_decoded(text@) is None,
        },
{
    base64::Engine::decode(&base64::engine::general_purpose::STANDARD, text)
}

/// Calls `sha256::digest`. Trusted: the result is [`sha256_hex`] of the
/// bytes.
#[verifier::external_body]
pub(crate) fn digest(bytes: &[u8]) -> (hex: String)
    ensures
        hex@ == sha256_hex(bytes@),
{
    sha256::digest(bytes)
}

} // verus!
