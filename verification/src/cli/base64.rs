//! Options of the `base64` commands, and the name that selects an alphabet.

use crate::text_ops::{lowercase, lowercased, same_text};
use vstd::prelude::*;
use vstd::std_specs::convert::{FromSpecImpl, TryFromSpecImpl};
use vstd::string::*;

verus! {

/// The `base64` commands.
#[derive(Debug)]
pub enum Base64SubCommand {
    /// Encode text as base64.
    Encode(Base64EncodeOpts),
    /// Decode base64 text.
    Decode(Base64DecodeOpts),
}

/// What `base64 encode` is given.
#[derive(Debug)]
pub struct Base64EncodeOpts {
    /// Where the text comes from: a file's name, or `-` for standard input.
    pub input: String,
    /// The form of base64 to write.
    pub format: Base64Format,
}

/// What `base64 decode` is given.
#[derive(Debug)]
pub struct Base64DecodeOpts {
    /// Where the text comes from: a file's name, or `-` for standard input.
    pub input: String,
    /// The form of base64 to read.
    pub format: Base64Format,
}

/// The forms of base64.
#[derive(Debug, Clone, Copy, PartialEq, Eq, Structural)]
pub enum Base64Format {
    /// The standard alphabet, padded.
    Standard,
    /// The URL-safe alphabet, unpadded.
    UrlSafe,
}

/// The form that a name in lower case selects, if any.
pub open spec fn format_of_lower(lower: Seq<char>) -> Option<Base64Format> {
    if lower == "standard"@ {
        Some(Base64Format::Standard)
    } else if lower == "urlsafe"@ || lower == "url_safe"@ {
        Some(Base64Format::UrlSafe)
    } else {
        None
    }
}

/// Each of the three names selects its form, and the empty name selects
/// none.
pub proof fn lemma_names_select_forms()
    ensures
        format_of_lower("standard"@) == Some(Base64Format::Standard),
        format_of_lower("urlsafe"@) == Some(Base64Format::UrlSafe),
        format_of_lower("url_safe"@) == Some(Base64Format::UrlSafe),
        format_of_lower(""@) is None,
{
    reveal_strlit("standard");
    reveal_strlit("urlsafe");
    reveal_strlit("url_safe");
    reveal_strlit("");
    assert("standard"@.len() == 8);
    assert("urlsafe"@.len() == 7);
    assert("url_safe"@[3] == '_');
    assert("standard"@[3] == 'n');
    assert(""@.len() == 0);
}

/// The form that a name selects, if any. Case does not matter.
pub open spec fn format_of_name(name: Seq<char>) -> Option<Base64Format> {
    format_of_lower(lowercase(name))
}

/// Selects the form that a name in lower case names.
pub fn format_of_lowered(lower: &str) -> (format: Option<Base64Format>)
    ensures
        format == format_of_lower(lower@),
{
    if same_text(lower, "standard") {
        Some(Base64Format::Standard)
    } else if same_text(lower, "urlsafe") || same_text(lower, "url_safe") {
        Some(Base64Format::UrlSafe)
    } else {
        None
    }
}

/// What is said of a name that selects no form.
pub open spec fn invalid_format_message(name: Seq<char>) -> Seq<char> {
    "Invalid base64 format: "@ + name + ". Use 'standard' or 'urlsafe'"@
}

impl Base64Format {
    /// Selects the form that `name` names. On a name that selects none the
    /// error is a message that quotes the name.
    pub fn from_name(name: &str) -> (format: Result<Base64Format, String>)
        ensures
            match format_of_name(name@) {
                Some(f) => format == Ok::<Base64Format, String>(f),
                None => format matches Err(message) && message@ == invalid_format_message(name@),
            },
    {
        match format_of_lowered(lowercased(name).as_str()) {
            Some(format) => Ok(format),
            None => Err(
                "Invalid base64 format: ".to_owned().concat(name).concat(
                    ". Use 'standard' or 'urlsafe'",
                ),
            ),
        }
    }

    /// The form's name.
    pub fn name(self) -> (name: &'static str)
        ensures
            name == match self {
                Base64Format::Standard => "standard",
                Base64Format::UrlSafe => "urlsafe",
            },
    {
        match self {
            Base64Format::Standard => "standard",
            Base64Format::UrlSafe => "urlsafe",
        }
    }
}

impl From<Base64Format> for &'static str {
    fn from(format: Base64Format) -> (name: &'static str) {
        format.name()
    }
}

impl FromSpecImpl<Base64Format> for &'static str {
    open spec fn obeys_from_spec() -> bool {
        true
    }

    open spec fn from_spec(format: Base64Format) -> &'static str {
        match format {
            Base64Format::Standard => "standard",
            Base64Format::UrlSafe => "urlsafe",
        }
    }
}

impl<'a> TryFrom<&'a str> for Base64Format {
    type Error = String;

    fn try_from(value: &'a str) -> (format: Result<Base64Format, String>)
        ensures
            match format_of_name(value@) {
                Some(f) => format == Ok::<Base64Format, String>(f),
                None => format matches Err(message) && message@ == invalid_format_message(value@),
            },
    {
        Base64Format::from_name(value)
    }
}

/// An error of `try_from` is a fresh message, and `String` has no value to
/// name it by: what `try_from` returns is stated by its own clause.
impl<'a> TryFromSpecImpl<&'a str> for Base64Format {
    open spec fn obeys_try_from_spec() -> bool {
        false
    }

    open spec fn try_from_spec(value: &'a str) -> Result<Base64Format, String> {
        match format_of_name(value@) {
            Some(f) => Ok(f),
            None => Err(arbitrary()),
        }
    }
}

impl core::str::FromStr for Base64Format {
    type Err = String;

    fn from_str(format: &str) -> (parsed: Result<Base64Format, String>)
        ensures
            match format_of_name(format@) {
                Some(f) => parsed == Ok::<Base64Format, String>(f),
                None => parsed matches Err(message) && message@ == invalid_format_message(
                    format@,
                ),
            },
    {
        Base64Format::from_name(format)
    }
}

/// Reads a form's name as the command line gives it.
pub fn parse_base64_format(format: &str) -> (parsed: Result<Base64Format, String>)
    ensures
        match format_of_name(format@) {
            Some(f) => parsed == Ok::<Base64Format, String>(f),
            None => parsed matches Err(message) && message@ == invalid_format_message(format@),
        },
{
    Base64Format::from_name(format)
}

} // verus!
