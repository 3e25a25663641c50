//! Errors of the library.

use vstd::prelude::*;

verus! {

/// What went wrong, for the quote and revocation pipelines.
#[derive(Debug)]
pub enum Error {
    /// The configuration does not allow the work to be done.
    Configuration(String),
    /// A file or an action could not be found.
    NotFound(String),
    /// A revocation message is malformed or did not verify.
    InvalidRequest,
    /// A revocation action exited unsuccessfully: its name, its exit code
    /// (none when a signal ended it) and what it wrote to stderr.
    Script(String, Option<i32>, Vec<u8>),
    /// A base64 text could not be decoded.
    Serialization(String),
}

} // verus!
