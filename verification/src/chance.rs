//! Random choices, drawn by the `rand` crate from the thread's generator.
//!
//! Nothing here says which outcome comes: each contract states what holds of
//! every outcome.

use vstd::prelude::*;

verus! {

/// Picks one character of `set` with `rand::seq::IteratorRandom::choose`.
///
/// Trusted: there is a pick exactly where `set` is not empty, and the pick
/// is one of its characters.
#[verifier::external_body]
pub(crate) fn pick_char(set: &str) -> (picked: Option<char>)
    ensures
        picked is None <==> set@.len() == 0,
        picked matches Some(c) ==> set@.contains(c),
{
    rand::seq::IteratorRandom::choose(set.chars(), &mut rand::thread_rng())
}

/// Shuffles in place with `rand::seq::SliceRandom::shuffle`.
///
/// Trusted: the characters are the same, each as often as before; only
/// their order may differ.
#[verifier::external_body]
pub(crate) fn shuffle_chars(chars: &mut Vec<char>)
    ensures
        final(chars)@.to_multiset() == old(chars)@.to_multiset(),
{
    rand::seq::SliceRandom::shuffle(chars.as_mut_slice(), &mut rand::thread_rng());
}

} // verus!
