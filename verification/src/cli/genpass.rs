//! Options of the `genpass` command.

use vstd::prelude::*;

verus! {

/// What the `genpass` command is given.
#[derive(Debug)]
pub struct GenPassOpts {
    /// How many characters the password has.
    pub length: u8,
    /// Whether upper-case letters are used.
    pub uppercase: bool,
    /// Whether lower-case letters are used.
    pub lowercase: bool,
    /// Whether digits are used.
    pub numbers: bool,
    /// Whether symbols are used.
    pub symbols: bool,
}

} // verus!
