//! Options of the `text` commands, and the tag that selects a signing scheme.

use crate::error::SignError;
use crate::text_ops::{lowercase, lowercased, same_text};
use vstd::prelude::*;
use vstd::std_specs::convert::FromSpecImpl;
use vstd::string::*;

verus! {

/// The `text` commands.
#[derive(Debug)]
pub enum TextSubCommand {
    /// Sign a text.
    Sign(TextSignOpts),
    /// Verify a text.
    Verify(TextVerifyOpts),
    /// Generate a key, or a pair of keys.
    KeyGenerate(KeyGenerateOpts),
}

/// What `text sign` is given.
#[derive(Debug)]
pub struct TextSignOpts {
    /// Where the text comes from: a file's name, or `-` for standard input.
    pub input: String,
    /// The file that holds the key.
    pub key: String,
    /// The scheme to sign with.
    pub format: TextSignFormat,
}

/// What `text verify` is given.
#[derive(Debug)]
pub struct TextVerifyOpts {
    /// Where the text comes from: a file's name, or `-` for standard input.
    pub input: String,
    /// The file that holds the key.
    pub key: String,
    /// The signature, as URL-safe base64 text.
    pub signature: String,
    /// The scheme that signed.
    pub format: TextSignFormat,
}

/// What `text key-generate` is given.
#[derive(Debug)]
pub struct KeyGenerateOpts {
    /// The scheme to make keys for.
    pub format: TextSignFormat,
    /// The directory that the key files go to.
    pub output: std::path::PathBuf,
}

/// The signing schemes.
#[derive(Debug, Clone, Copy, PartialEq, Eq, Structural)]
pub enum TextSignFormat {
    /// The keyed hash: one secret key signs and verifies.
    Blake3,
    /// The asymmetric scheme: a private key signs, its public key verifies.
    Ed25519,
}

/// The scheme that a tag in lower case selects, if any. Each scheme has a
/// long tag and a short one.
pub open spec fn format_of_lower(lower: Seq<char>) -> Option<TextSignFormat> {
    if lower == "blake3"@ || lower == "blake3-equivalent"@ {
        Some(TextSignFormat::Blake3)
    } else if lower == "ed25519"@ || lower == "ed25519-equivalent"@ {
        Some(TextSignFormat::Ed25519)
    } else {
        None
    }
}

/// Each of the four tags selects its scheme, and the empty tag selects none.
pub proof fn lemma_tags_select_schemes()
    ensures
        format_of_lower("blake3"@) == Some(TextSignFormat::Blake3),
        format_of_lower("blake3-equivalent"@) == Some(TextSignFormat::Blake3),
        format_of_lower("ed25519"@) == Some(TextSignFormat::Ed25519),
        format_of_lower("ed25519-equivalent"@) == Some(TextSignFormat::Ed25519),
        format_of_lower(""@) is None,
{
    reveal_strlit("blake3");
    reveal_strlit("blake3-equivalent");
    reveal_strlit("ed25519");
    reveal_strlit("ed25519-equivalent");
    reveal_strlit("");
    assert("blake3"@.len() == 6);
    assert("blake3-equivalent"@.len() == 17);
    assert("ed25519"@.len() == 7);
    assert("ed25519-equivalent"@.len() == 18);
    assert(""@.len() == 0);
}

/// The scheme that a tag selects, if any. Case does not matter.
pub open spec fn format_of_tag(tag: Seq<char>) -> Option<TextSignFormat> {
    format_of_lower(lowercase(tag))
}

/// Selects the scheme that a tag in lower case names.
pub fn format_of_lowered(lower: &str) -> (format: Option<TextSignFormat>)
    ensures
        format == format_of_lower(lower@),
{
    if same_text(lower, "blake3") || same_text(lower, "blake3-equivalent") {
        Some(TextSignFormat::Blake3)
    } else if same_text(lower, "ed25519") || same_text(lower, "ed25519-equivalent") {
        Some(TextSignFormat::Ed25519)
    } else {
        None
    }
}

/// What `from_str` says of a tag that names no scheme.
pub open spec fn invalid_format_message(tag: Seq<char>) -> Seq<char> {
    "Invalid format: "@ + tag
}

/// What `parse_format` says of a tag that names no scheme.
pub open spec fn invalid_text_sign_format_message(tag: Seq<char>) -> Seq<char> {
    "Invalid text sign format: "@ + tag
}

impl TextSignFormat {
    /// Selects the scheme that `tag` names. A tag that names none is
    /// `UnknownFormat`.
    pub fn from_tag(tag: &str) -> (format: Result<TextSignFormat, SignError>)
        ensures
            format == match format_of_tag(tag@) {
                Some(f) => Ok::<TextSignFormat, SignError>(f),
                None => Err(SignError::UnknownFormat),
            },
    {
        match format_of_lowered(lowercased(tag).as_str()) {
            Some(format) => Ok(format),
            None => Err(SignError::UnknownFormat),
        }
    }

    /// The scheme's short tag.
    pub fn name(self) -> (tag: &'static str)
        ensures
            tag == match self {
                TextSignFormat::Blake3 => "blake3",
                TextSignFormat::Ed25519 => "ed25519",
            },
    {
        match self {
            TextSignFormat::Blake3 => "blake3",
            TextSignFormat::Ed25519 => "ed25519",
        }
    }
}

impl From<TextSignFormat> for &'static str {
    fn from(format: TextSignFormat) -> (tag: &'static str) {
        format.name()
    }
}

impl FromSpecImpl<TextSignFormat> for &'static str {
    open spec fn obeys_from_spec() -> bool {
        true
    }

    open spec fn from_spec(format: TextSignFormat) -> &'static str {
        match format {
            TextSignFormat::Blake3 => "blake3",
            TextSignFormat::Ed25519 => "ed25519",
        }
    }
}

impl core::str::FromStr for TextSignFormat {
    type Err = String;

    fn from_str(s: &str) -> (format: Result<TextSignFormat, String>)
        ensures
            match format_of_tag(s@) {
                Some(f) => format == Ok::<TextSignFormat, String>(f),
                None => format matches Err(message) && message@ == invalid_format_message(s@),
            },
    {
        match TextSignFormat::from_tag(s) {
            Ok(f) => Ok(f),
            Err(_) => Err("Invalid format: ".to_owned().concat(s)),
        }
    }
}

/// Reads a scheme's tag as the command line gives it. On a tag that names no
/// scheme the error is a message that quotes the tag.
pub fn parse_format(format: &str) -> (parsed: Result<TextSignFormat, String>)
    ensures
        match format_of_tag(format@) {
            Some(f) => parsed == Ok::<TextSignFormat, String>(f),
            None => parsed matches Err(message) && message@
                == invalid_text_sign_format_message(format@),
        },
{
    match TextSignFormat::from_tag(format) {
        Ok(f) => Ok(f),
        Err(_) => Err("Invalid text sign format: ".to_owned().concat(format)),
    }
}

} // verus!
