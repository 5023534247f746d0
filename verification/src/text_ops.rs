//! Operations on text: the few that this library takes from the standard
//! library without a proof, and what is proved of them.

use vstd::prelude::*;
use vstd::utf8::*;

verus! {

/// Whether a character has Unicode's `White_Space` property.
pub open spec fn is_whitespace(c: char) -> bool {
    let code = c as u32;
    ||| 0x09 <= code <= 0x0d
    ||| code == 0x20
    ||| code == 0x85
    ||| code == 0xa0
    ||| code == 0x1680
    ||| 0x2000 <= code <= 0x200a
    ||| code == 0x2028
    ||| code == 0x2029
    ||| code == 0x202f
    ||| code == 0x205f
    ||| code == 0x3000
}

/// `text` without the whitespace that it starts with.
pub open spec fn trim_start(text: Seq<char>) -> Seq<char>
    decreases text.len(),
{
    if text.len() > 0 && is_whitespace(text.first()) {
        trim_start(text.drop_first())
    } else {
        text
    }
}

/// `text` without the whitespace that it ends with.
pub open spec fn trim_end(text: Seq<char>) -> Seq<char>
    decreases text.len(),
{
    if text.len() > 0 && is_whitespace(text.last()) {
        trim_end(text.drop_last())
    } else {
        text
    }
}

/// `text` without the whitespace at either end. What lies between the first
/// and the last character that is no whitespace stays as it is.
pub open spec fn trim(text: Seq<char>) -> Seq<char> {
    trim_end(trim_start(text))
}

/// A text's encoding is its first character's, then that of the rest.
proof fn lemma_encoding_splits_first(text: Seq<char>)
    requires
        text.len() > 0,
    ensures
        encode_utf8(text).len() >= encode_utf8(text.drop_first()).len(),
{
}

/// A text without its last character has no longer an encoding.
proof fn lemma_encoding_without_last(text: Seq<char>)
    requires
        text.len() > 0,
    ensures
        encode_utf8(text.drop_last()).len() <= encode_utf8(text).len(),
    decreases text.len(),
{
    if text.len() > 1 {
        lemma_encoding_without_last(text.drop_first());
        assert(text.drop_last().drop_first() =~= text.drop_first().drop_last());
        assert(text.drop_last()[0] == text[0]);
    } else {
        assert(text.drop_last() =~= Seq::<char>::empty());
    }
}

/// Trimming a text's start does not lengthen its encoding.
proof fn lemma_trim_start_encoding(text: Seq<char>)
    ensures
        encode_utf8(trim_start(text)).len() <= encode_utf8(text).len(),
    decreases text.len(),
{
    if text.len() > 0 && is_whitespace(text.first()) {
        lemma_trim_start_encoding(text.drop_first());
        lemma_encoding_splits_first(text);
    }
}

/// Trimming a text's end does not lengthen its encoding.
proof fn lemma_trim_end_encoding(text: Seq<char>)
    ensures
        encode_utf8(trim_end(text)).len() <= encode_utf8(text).len(),
    decreases text.len(),
{
    if text.len() > 0 && is_whitespace(text.last()) {
        lemma_trim_end_encoding(text.drop_last());
        lemma_encoding_without_last(text);
    }
}

/// A trimmed text takes no more bytes than the text it was trimmed from.
pub proof fn lemma_trim_encoding_not_longer(text: Seq<char>)
    ensures
        encode_utf8(trim(text)).len() <= encode_utf8(text).len(),
{
    lemma_trim_start_encoding(text);
    lemma_trim_end_encoding(trim_start(text));
}

/// Tells whether two texts are the same characters.
pub fn same_text(first: &str, second: &str) -> (same: bool)
    ensures
        same == (first@ == second@),
{
    first.to_owned() == second.to_owned()
}

/// The lower-case form of a text under Unicode's rules.
pub uninterp spec fn lowercase(text: Seq<char>) -> Seq<char>;

/// Reads bytes as text with `core::str::from_utf8`.
///
/// Trusted: there is a text exactly where the bytes are well-formed UTF-8,
/// and its encoding is those bytes.
#[verifier::external_body]
pub(crate) fn utf8_text(bytes: &[u8]) -> (text: Option<&str>)
    ensures
        text is Some <==> valid_utf8(bytes@),
        text matches Some(t) ==> encode_utf8(t@) == bytes@,
{
    core::str::from_utf8(bytes).ok()
}

/// Trims with `str::trim`.
///
/// Trusted: what is removed is the whitespace at both ends, whitespace being
/// the characters with the `White_Space` property.
#[verifier::external_body]
pub(crate) fn trimmed(text: &str) -> (inner: &str)
    ensures
        inner@ == trim(text@),
{
    text.trim()
}

/// Lower-cases with `str::to_lowercase`.
///
/// Trusted: the result depends on the text alone.
#[verifier::external_body]
pub(crate) fn lowercased(text: &str) -> (lower: String)
    ensures
        lower@ == lowercase(text@),
{
    text.to_lowercase()
}

/// Makes a text of characters by collecting them into a `String`.
///
/// Trusted: the text holds the characters in their order.
#[verifier::external_body]
pub(crate) fn string_of(chars: &Vec<char>) -> (text: String)
    ensures
        text@ == chars@,
{
    chars.iter().collect()
}

} // verus!
