//! The command line's options, as plain values, and the checks that its
//! arguments go through.

pub mod base64;
pub mod csv;
pub mod genpass;
pub mod http;
pub mod text;

use crate::cli::base64::Base64SubCommand;
use crate::cli::csv::CsvOpts;
use crate::cli::genpass::GenPassOpts;
use crate::cli::http::HttpSubCommand;
use crate::cli::text::TextSubCommand;
use crate::file_system::{path_exists, path_is_dir, quote_path, quoted_path};
use crate::text_ops::same_text;
use vstd::prelude::*;
use vstd::string::*;

verus! {

/// What the program is given: one command with its options.
#[derive(Debug)]
pub struct Opts {
    /// The command.
    pub cmd: SubCommand,
}

/// The commands.
#[derive(Debug)]
pub enum SubCommand {
    /// Convert CSV to another format.
    Csv(CsvOpts),
    /// Generate a random password.
    GenPass(GenPassOpts),
    /// Encode or decode base64.
    Base64(Base64SubCommand),
    /// Sign or verify text, or generate keys.
    Text(TextSubCommand),
    /// Serve files.
    Http(HttpSubCommand),
}

/// Whether a file name stands for standard input.
pub open spec fn is_stdin(filename: Seq<char>) -> bool {
    filename == "-"@
}

/// What is said of an input file that is not there.
pub open spec fn missing_file_message(filename: Seq<char>) -> Seq<char> {
    "Input file "@ + filename + " does not exist"@
}

/// What is said of a path that names no directory.
pub open spec fn not_a_directory_message(path: Seq<char>) -> Seq<char> {
    "Input file "@ + quoted_path(path) + " does not exist or is not a directory"@
}

/// Tells whether a file name stands for standard input.
pub fn names_stdin(filename: &str) -> (stdin: bool)
    ensures
        stdin == is_stdin(filename@),
{
    same_text(filename, "-")
}

/// Accepts an input file's name for which the file system was asked: `-`
/// always, another name only if something of that name exists.
pub fn checked_file(filename: &str, found: bool) -> (checked: Result<String, String>)
    ensures
        is_stdin(filename@) || found ==> (checked matches Ok(name) && name@ == filename@),
        !is_stdin(filename@) && !found ==> (checked matches Err(message) && message@
            == missing_file_message(filename@)),
{
    if found || names_stdin(filename) {
        Ok(filename.to_owned())
    } else {
        Err("Input file ".to_owned().concat(filename).concat(" does not exist"))
    }
}

/// Accepts the name of an input file: `-`, for standard input, or the name
/// of something that exists. The name is handed back unchanged.
pub fn verify_file(filename: &str) -> (checked: Result<String, String>)
    ensures
        is_stdin(filename@) ==> checked is Ok,
        match checked {
            Ok(name) => name@ == filename@,
            Err(message) => message@ == missing_file_message(filename@),
        },
{
    let found = !names_stdin(filename) && path_exists(filename);
    checked_file(filename, found)
}

/// Accepts the name of an input file that has to be a file, for which the
/// file system was asked: only if something of that name exists.
pub fn checked_input_file(filename: &str, found: bool) -> (checked: Result<String, String>)
    ensures
        found ==> (checked matches Ok(name) && name@ == filename@),
        !found ==> (checked matches Err(message) && message@ == missing_file_message(filename@)),
{
    if found {
        Ok(filename.to_owned())
    } else {
        Err("Input file ".to_owned().concat(filename).concat(" does not exist"))
    }
}

/// Accepts the name of an input file that has to be a file: the name of
/// something that exists. The name is handed back unchanged.
pub fn verify_input_file(filename: &str) -> (checked: Result<String, String>)
    ensures
        match checked {
            Ok(name) => name@ == filename@,
            Err(message) => message@ == missing_file_message(filename@),
        },
{
    checked_input_file(filename, path_exists(filename))
}

/// Accepts a path for which the file system was asked, if it names a
/// directory that exists. The path is handed back unchanged.
pub fn checked_directory(path: &str, found: bool, is_dir: bool) -> (checked: Result<
    String,
    String,
>)
    ensures
        found && is_dir ==> (checked matches Ok(directory) && directory@ == path@),
        !(found && is_dir) ==> (checked matches Err(message) && message@
            == not_a_directory_message(path@)),
{
    if found && is_dir {
        Ok(path.to_owned())
    } else {
        Err(
            "Input file ".to_owned().concat(quote_path(path).as_str()).concat(
                " does not exist or is not a directory",
            ),
        )
    }
}

/// Accepts the path of a directory that exists. The path is handed back
/// unchanged; of any other path the error is a message that quotes it.
pub fn verify_path(path: &str) -> (checked: Result<String, String>)
    ensures
        match checked {
            Ok(directory) => directory@ == path@,
            Err(message) => message@ == not_a_directory_message(path@),
        },
{
    let found = path_exists(path);
    let is_dir = found && path_is_dir(path);
    checked_directory(path, found, is_dir)
}

} // verus!
