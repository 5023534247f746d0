//! How strong a password is, as the `zxcvbn` crate estimates it.

use vstd::prelude::*;

verus! {

/// The five labels of a strength estimate, weakest first.
pub open spec fn is_score_label(label: Seq<char>) -> bool {
    ||| label == "Zero"@
    ||| label == "One"@
    ||| label == "Two"@
    ||| label == "Three"@
    ||| label == "Four"@
}

/// Estimates with `zxcvbn::zxcvbn`, without user inputs, and prints the
/// score's name.
///
/// Trusted: the label is one of the five. Which one is not a function of the
/// password: the estimate of a date in it depends on the current year.
#[verifier::external_body]
pub(crate) fn score_label(password: &str) -> (label: String)
    ensures
        is_score_label(label@),
{
    format!("{:?}", zxcvbn::zxcvbn(password, &[]).score())
}

} // verus!
