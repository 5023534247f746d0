//! Why a signing, verifying or key-loading request was refused.

use vstd::prelude::*;
use vstd::string::*;

verus! {

/// The failures that the text-signing functions report.
///
/// A signature that does not match is not among them: verification then
/// returns `Ok(false)`.
#[derive(Debug, Clone, Copy, PartialEq, Eq, Structural)]
pub enum SignError {
    /// Input that had to be UTF-8 text is not.
    MalformedInput,
    /// Key material holds fewer than 32 bytes.
    KeyTooShort,
    /// The 32 key bytes are not the encoding of a point on the curve.
    InvalidKeyEncoding,
    /// Signature text that is not URL-safe base64, or signature bytes of a
    /// length that the scheme cannot take.
    InvalidSignatureEncoding,
    /// A format tag that names no scheme.
    UnknownFormat,
}

impl SignError {
    /// The characters of the failure's report.
    pub open spec fn message_text(self) -> Seq<char> {
        match self {
            SignError::MalformedInput => "not valid UTF-8"@,
            SignError::KeyTooShort => "Key length is too short, need at least 32 bytes"@,
            SignError::InvalidKeyEncoding => "Key is not the encoding of a point on the curve"@,
            SignError::InvalidSignatureEncoding => "Signature cannot be decoded"@,
            SignError::UnknownFormat => "Unknown signing format"@,
        }
    }

    /// The failure's report, as a program shows it.
    pub fn message(self) -> (text: String)
        ensures
            text@ == self.message_text(),
    {
        match self {
            SignError::MalformedInput => "not valid UTF-8".to_owned(),
            SignError::KeyTooShort => "Key length is too short, need at least 32 bytes".to_owned(),
            SignError::InvalidKeyEncoding => "Key is not the encoding of a point on the curve".to_owned(),
            SignError::InvalidSignatureEncoding => "Signature cannot be decoded".to_owned(),
            SignError::UnknownFormat => "Unknown signing format".to_owned(),
        }
    }
}

} // verus!
