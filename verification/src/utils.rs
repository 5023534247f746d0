//! Input bytes, made ready for a command.

use crate::error::SignError;
use crate::text_ops::{lemma_trim_encoding_not_longer, trim, trimmed, utf8_text};
use vstd::prelude::*;
use vstd::slice::slice_to_vec;
use vstd::utf8::*;

verus! {

/// What input comes to once it is made ready. Untrimmed input stays as it
/// is, whatever its bytes. Input to trim has to be UTF-8 text; of the text,
/// the whitespace at both ends goes and the rest stays.
pub open spec fn prepared(buf: Seq<u8>, trim_text: bool) -> Result<Seq<u8>, SignError> {
    if !trim_text {
        Ok(buf)
    } else if !valid_utf8(buf) {
        Err(SignError::MalformedInput)
    } else {
        Ok(encode_utf8(trim(decode_utf8(buf))))
    }
}

/// Makes the bytes that were read ready for a command: as they are, or
/// trimmed as text. Ready input is never longer than what was read.
pub fn prepare_input(buf: Vec<u8>, trim_text: bool) -> (ready: Result<Vec<u8>, SignError>)
    ensures
        match prepared(buf@, trim_text) {
            Ok(bytes) => ready matches Ok(r) && r@ == bytes && bytes.len() <= buf@.len(),
            Err(e) => ready == Err::<Vec<u8>, SignError>(e),
        },
{
    if !trim_text {
        return Ok(buf);
    }
    match utf8_text(buf.as_slice()) {
        None => Err(SignError::MalformedInput),
        Some(text) => {
            proof {
                encode_utf8_decode_utf8(text@);
                lemma_trim_encoding_not_longer(text@);
            }
            let inner = trimmed(text);
            Ok(slice_to_vec(inner.as_bytes()))
        },
    }
}

} // verus!
