//! What the file server answers, once the file system was asked.

use vstd::prelude::*;
use vstd::string::*;

verus! {

/// What looking for a file came to.
#[derive(Debug)]
pub enum FileLookup {
    /// Nothing has the path.
    Missing,
    /// There is something, and it could not be read as text.
    Unreadable,
    /// The file's text.
    Read(String),
}

/// The status `200 OK`.
pub const STATUS_OK: u16 = 200;

/// The status `404 Not Found`.
pub const STATUS_NOT_FOUND: u16 = 404;

/// The status `500 Internal Server Error`.
pub const STATUS_INTERNAL_SERVER_ERROR: u16 = 500;

/// The answer to a request for a file: its text with `200`, or a message
/// that ends in the path as the caller quotes it, with `404` for a file
/// that is not there and `500` for one that cannot be read.
pub fn file_response(lookup: FileLookup, quoted_path: &str) -> (response: (u16, String))
    ensures
        match lookup {
            FileLookup::Read(content) => response.0 == 200 && response.1@ == content@,
            FileLookup::Unreadable => response.0 == 500 && response.1@ == "Error reading file: "@
                + quoted_path@,
            FileLookup::Missing => response.0 == 404 && response.1@ == "File not found: "@
                + quoted_path@,
        },
{
    match lookup {
        FileLookup::Read(content) => (STATUS_OK, content),
        FileLookup::Unreadable => (
            STATUS_INTERNAL_SERVER_ERROR,
            "Error reading file: ".to_owned().concat(quoted_path),
        ),
        FileLookup::Missing => (STATUS_NOT_FOUND, "File not found: ".to_owned().concat(quoted_path)),
    }
}

} // verus!
