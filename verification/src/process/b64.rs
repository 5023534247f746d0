//! Text to base64 and back.

use crate::base64_codec::{
    decode_standard,
    decode_url_safe,
    encodable,
    encode_standard,
    encode_url_safe,
    encoded_len,
    is_standard_text,
    is_url_safe_text,
    standard_decoding,
    standard_encoding,
    url_safe_decoding,
    url_safe_encoding,
};
use crate::cli::base64::Base64Format;
use crate::text_ops::{trim, utf8_text};
use crate::utils::{prepare_input, prepared};
use vstd::prelude::*;
use vstd::slice::slice_to_vec;
use vstd::utf8::*;

verus! {

/// Why input was not encoded or decoded.
#[derive(Debug)]
pub enum Base64Error {
    /// The input is not UTF-8 text.
    MalformedInput,
    /// The text is no base64 of the chosen form. The decoder's own report
    /// says where and why.
    InvalidEncoding(base64::DecodeError),
}

/// The text that stands for `bytes` in a form of base64.
pub open spec fn encoding(bytes: Seq<u8>, format: Base64Format) -> Seq<char> {
    match format {
        Base64Format::Standard => standard_encoding(bytes),
        Base64Format::UrlSafe => url_safe_encoding(bytes),
    }
}

/// The bytes that `text` stands for in a form of base64, where it stands
/// for any.
pub open spec fn decoding(text: Seq<char>, format: Base64Format) -> Option<Seq<u8>> {
    match format {
        Base64Format::Standard => standard_decoding(text),
        Base64Format::UrlSafe => url_safe_decoding(text),
    }
}

/// Whether a text has the shape of a form's encoding of `len` bytes: the
/// form's length for them, and the form's characters alone.
pub open spec fn has_shape(text: Seq<char>, len: nat, format: Base64Format) -> bool {
    match format {
        Base64Format::Standard => text.len() == encoded_len(len, true) && is_standard_text(text),
        Base64Format::UrlSafe => text.len() == encoded_len(len, false) && is_url_safe_text(text),
    }
}

/// The encoder of a form: a function from bytes to their text. What it
/// returns has the form's shape and decodes, in the same form, to the bytes
/// that went in.
pub fn get_encoder(format: Base64Format) -> (encoder: impl Fn(&[u8]) -> String)
    ensures
        forall|bytes: &[u8]| encodable(bytes@.len()) ==> call_requires(encoder, (bytes,)),
        forall|bytes: &[u8], text: String| #[trigger]
            call_ensures(encoder, (bytes,), text) ==> text@ == encoding(bytes@, format)
                && decoding(text@, format) == Some(bytes@) && has_shape(
                text@,
                bytes@.len(),
                format,
            ),
{
    move |bytes: &[u8]| -> (text: String)
        requires
            encodable(bytes@.len()),
        ensures
            text@ == encoding(bytes@, format),
            decoding(text@, format) == Some(bytes@),
            has_shape(text@, bytes@.len(), format),
        {
            match format {
                Base64Format::Standard => encode_standard(bytes),
                Base64Format::UrlSafe => encode_url_safe(bytes),
            }
        }
}

/// The decoder of a form: a function from text to the bytes that it stands
/// for, or to the reason why it stands for none.
pub fn get_decoder(format: Base64Format) -> (decoder: impl Fn(&str) -> Result<
    Vec<u8>,
    Base64Error,
>)
    ensures
        forall|text: &str| call_requires(decoder, (text,)),
        forall|text: &str, decoded: Result<Vec<u8>, Base64Error>| #[trigger]
            call_ensures(decoder, (text,), decoded) ==> decodes_to(text@, format, decoded),
{
    move |text: &str| -> (decoded: Result<Vec<u8>, Base64Error>)
        ensures
            decodes_to(text@, format, decoded),
        {
            let outcome = match format {
                Base64Format::Standard => decode_standard(text),
                Base64Format::UrlSafe => decode_url_safe(text),
            };
            match outcome {
                Ok(bytes) => Ok(bytes),
                Err(e) => Err(Base64Error::InvalidEncoding(e)),
            }
        }
}

/// Whether `decoded` is what decoding `text` in a form comes to: the bytes
/// where the text stands for some, `InvalidEncoding` where it stands for
/// none.
pub open spec fn decodes_to(
    text: Seq<char>,
    format: Base64Format,
    decoded: Result<Vec<u8>, Base64Error>,
) -> bool {
    match decoding(text, format) {
        Some(bytes) => decoded matches Ok(b) && b@ == bytes,
        None => decoded matches Err(e) && e is InvalidEncoding,
    }
}

/// Encodes input text as base64. The input is trimmed as text first, so it
/// has to be UTF-8.
pub fn process_encode(input: &[u8], format: Base64Format) -> (encoded: Result<String, Base64Error>)
    requires
        encodable(input@.len()),
    ensures
        match prepared(input@, true) {
            Ok(bytes) => encoded matches Ok(text) && text@ == encoding(bytes, format) && decoding(
                text@,
                format,
            ) == Some(bytes) && has_shape(text@, bytes.len(), format),
            Err(_) => encoded matches Err(e) && e is MalformedInput,
        },
{
    let buf = match prepare_input(slice_to_vec(input), true) {
        Ok(buf) => buf,
        Err(_) => {
            return Err(Base64Error::MalformedInput);
        },
    };
    let encoder = get_encoder(format);
    Ok(encoder(buf.as_slice()))
}

/// Decodes input text as base64. The input is trimmed as text first, so it
/// has to be UTF-8; what it decodes to may be any bytes.
pub fn process_decode(input: &[u8], format: Base64Format) -> (decoded: Result<
    Vec<u8>,
    Base64Error,
>)
    ensures
        match prepared(input@, true) {
            Ok(bytes) => decodes_to(decode_utf8(bytes), format, decoded),
            Err(_) => decoded matches Err(e) && e is MalformedInput,
        },
{
    let buf = match prepare_input(slice_to_vec(input), true) {
        Ok(buf) => buf,
        Err(_) => {
            return Err(Base64Error::MalformedInput);
        },
    };
    proof {
        encode_utf8_valid_utf8(trim(decode_utf8(input@)));
    }
    let text = match utf8_text(buf.as_slice()) {
        Some(text) => text,
        None => vstd::pervasive::unreached(),
    };
    proof {
        encode_utf8_decode_utf8(text@);
    }
    let decoder = get_decoder(format);
    decoder(text)
}

} // verus!
