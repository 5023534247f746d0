//! Signing, encoding and password utilities with machine-checked contracts.
//!
//! The commands' logic stands in `process`, the options they are given in
//! `cli`. The other modules hold what is taken on trust from outside crates
//! and from the standard library, each call behind one small function.

pub mod base64_codec;
pub mod chance;
pub mod cli;
pub mod ed25519_keys;
pub mod error;
pub mod file_system;
pub mod keyed_hash;
pub mod process;
pub mod strength;
pub mod text_ops;
pub mod utils;

pub use cli::base64::{Base64DecodeOpts, Base64EncodeOpts, Base64Format, Base64SubCommand};
pub use cli::csv::{parse_format, CsvOpts, OutputFormat};
pub use cli::genpass::GenPassOpts;
pub use cli::http::{HttpServerOpts, HttpSubCommand};
pub use cli::text::{KeyGenerateOpts, TextSignFormat, TextSignOpts, TextSubCommand, TextVerifyOpts};
pub use cli::{verify_file, verify_path, Opts, SubCommand};
pub use error::SignError;
pub use process::b64::{process_decode, process_encode, Base64Error};
pub use process::gen_pass::{process_gen_pass, GenPassError};
pub use process::text::{
    process_key_generate,
    process_sign,
    process_verify,
    Blake3,
    Ed25519TextSigner,
    Ed25519TextVerifier,
    KeyGenerator,
    KeyLoadable,
    TextSignable,
    TextVerifiable,
};
pub use utils::prepare_input;
