//! Base64 text for bytes, in the two forms that this library offers.
//!
//! The alphabets and the padding rules are those of the `base64` crate's
//! `STANDARD` and `URL_SAFE_NO_PAD` engines. What they produce is named
//! here, not written out.

use vstd::prelude::*;

verus! {

/// Makes `base64::DecodeError` known as a type. Nothing is claimed of its
/// values.
#[verifier::external_type_specification]
#[verifier::external_body]
pub struct ExDecodeError(base64::DecodeError);

/// The padded text in the standard alphabet that stands for `bytes`.
pub uninterp spec fn standard_encoding(bytes: Seq<u8>) -> Seq<char>;

/// The bytes that padded text in the standard alphabet stands for, where it
/// stands for any.
pub uninterp spec fn standard_decoding(text: Seq<char>) -> Option<Seq<u8>>;

/// The unpadded text in the URL-safe alphabet that stands for `bytes`.
pub uninterp spec fn url_safe_encoding(bytes: Seq<u8>) -> Seq<char>;

/// The bytes that unpadded text in the URL-safe alphabet stands for, where
/// it stands for any.
pub uninterp spec fn url_safe_decoding(text: Seq<char>) -> Option<Seq<u8>>;

/// Whether a character is an ASCII letter or digit.
pub open spec fn is_letter_or_digit(c: char) -> bool {
    ||| 'A' <= c <= 'Z'
    ||| 'a' <= c <= 'z'
    ||| '0' <= c <= '9'
}

/// Whether a character is one of the 64 of the standard alphabet.
pub open spec fn is_standard_char(c: char) -> bool {
    is_letter_or_digit(c) || c == '+' || c == '/'
}

/// Whether a character is one of the 64 of the URL-safe alphabet.
pub open spec fn is_url_safe_char(c: char) -> bool {
    is_letter_or_digit(c) || c == '-' || c == '_'
}

/// Whether a text is made of the standard alphabet and the padding sign.
pub open spec fn is_standard_text(text: Seq<char>) -> bool {
    forall|i: int| 0 <= i < text.len() ==> is_standard_char(#[trigger] text[i]) || text[i] == '='
}

/// Whether a text is made of the URL-safe alphabet alone.
pub open spec fn is_url_safe_text(text: Seq<char>) -> bool {
    forall|i: int| 0 <= i < text.len() ==> is_url_safe_char(#[trigger] text[i])
}

/// How many characters the encoding of `len` bytes has: four for every
/// three bytes, and for a last group of one or two bytes either a full
/// group of four (padded) or only the two or three characters that carry
/// data.
pub open spec fn encoded_len(len: nat, padded: bool) -> nat {
    let full = (len / 3) * 4;
    let rest = len % 3;
    if rest == 0 {
        full
    } else if padded {
        full + 4
    } else {
        full + rest + 1
    }
}

/// Whether the text for `len` bytes can be held in memory at all. The
/// encoders are called only on such lengths.
pub open spec fn encodable(len: nat) -> bool {
    encoded_len(len, true) <= isize::MAX
}

/// Encodes with `Engine::encode` on `general_purpose::STANDARD`.
///
/// Trusted: the text depends on the bytes alone, and the same engine decodes
/// it to the bytes that went in. It has the padded length for the bytes and
/// is made of the standard alphabet and the padding sign. The engine fails
/// on a length whose text would not fit in memory, so such lengths are left
/// out.
#[verifier::external_body]
pub(crate) fn encode_standard(bytes: &[u8]) -> (text: String)
    requires
        encodable(bytes@.len()),
    ensures
        text@ == standard_encoding(bytes@),
        standard_decoding(text@) == Some(bytes@),
        text@.len() == encoded_len(bytes@.len(), true),
        is_standard_text(text@),
{
    base64::Engine::encode(&base64::engine::general_purpose::STANDARD, bytes)
}

/// Encodes with `Engine::encode` on `general_purpose::URL_SAFE_NO_PAD`.
///
/// Trusted: as for `encode_standard`, with the URL-safe names: the text has
/// the unpadded length for the bytes and is made of the URL-safe alphabet
/// alone.
#[verifier::external_body]
pub(crate) fn encode_url_safe(bytes: &[u8]) -> (text: String)
    requires
        encodable(bytes@.len()),
    ensures
        text@ == url_safe_encoding(bytes@),
        url_safe_decoding(text@) == Some(bytes@),
        text@.len() == encoded_len(bytes@.len(), false),
        is_url_safe_text(text@),
{
    base64::Engine::encode(&base64::engine::general_purpose::URL_SAFE_NO_PAD, bytes)
}

/// Decodes with `Engine::decode` on `general_purpose::STANDARD`.
///
/// Trusted: whether the text decodes, and to what, depends on the text
/// alone.
#[verifier::external_body]
pub(crate) fn decode_standard(text: &str) -> (decoded: Result<Vec<u8>, base64::DecodeError>)
    ensures
        match decoded {
            Ok(bytes) => standard_decoding(text@) == Some(bytes@),
            Err(_) => standard_decoding(text@) is None,
        },
{
    base64::Engine::decode(&base64::engine::general_purpose::STANDARD, text)
}

/// Decodes with `Engine::decode` on `general_purpose::URL_SAFE_NO_PAD`.
///
/// Trusted: as for `decode_standard`, with the URL-safe name.
#[verifier::external_body]
pub(crate) fn decode_url_safe(text: &str) -> (decoded: Result<Vec<u8>, base64::DecodeError>)
    ensures
        match decoded {
            Ok(bytes) => url_safe_decoding(text@) == Some(bytes@),
            Err(_) => url_safe_decoding(text@) is None,
        },
{
    base64::Engine::decode(&base64::engine::general_purpose::URL_SAFE_NO_PAD, text)
}

} // verus!
