//! Options of the `http` commands.

use vstd::prelude::*;

verus! {

/// The `http` commands.
#[derive(Debug)]
pub enum HttpSubCommand {
    /// Serve a directory over HTTP.
    Server(HttpServerOpts),
}

/// What `http server` is given.
#[derive(Debug)]
pub struct HttpServerOpts {
    /// The directory whose files are served.
    pub directory: std::path::PathBuf,
    /// The port to listen on.
    pub port: u16,
}

} // verus!
