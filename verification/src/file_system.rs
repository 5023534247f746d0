//! What this library asks of the file system: whether a path names
//! something. It opens and reads nothing.

use vstd::prelude::*;

verus! {

/// Makes `std::path::PathBuf` known as a type. Nothing is claimed of its
/// values.
#[verifier::external_type_specification]
#[verifier::external_body]
pub struct ExPathBuf(std::path::PathBuf);

/// How a path is quoted in a message: in double quotes, with escapes.
pub uninterp spec fn quoted_path(path: Seq<char>) -> Seq<char>;

/// Asks `std::path::Path::exists` whether the path names anything.
///
/// Trusted, and nothing is claimed: the answer is the disk's.
#[verifier::external_body]
pub(crate) fn path_exists(path: &str) -> (found: bool) {
    std::path::Path::new(path).exists()
}

/// Asks `std::path::Path::is_dir` whether the path names a directory.
///
/// Trusted, and nothing is claimed: the answer is the disk's.
#[verifier::external_body]
pub(crate) fn path_is_dir(path: &str) -> (is_dir: bool) {
    std::path::Path::new(path).is_dir()
}

/// Quotes a path as `Debug` prints a `std::path::Path`.
///
/// Trusted: the quoted form depends on the path's text alone.
#[verifier::external_body]
pub(crate) fn quote_path(path: &str) -> (quoted: String)
    ensures
        quoted@ == quoted_path(path@),
{
    format!("{:?}", std::path::Path::new(path))
}

} // verus!
