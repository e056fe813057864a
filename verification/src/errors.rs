//! The errors that the library's own logic reports.

use vstd::prelude::*;

verus! {

/// Why an operation of the library failed.
#[derive(Debug, PartialEq, Eq)]
pub enum Error {
    /// No configuration was found in the scanned directories.
    MissingConfig,
    /// The judge's answer to a login carried no session id.
    MissingSessionId,
    /// The problem id was neither given nor guessable from the names.
    MissingProblemId,
    /// A URL did not parse.
    UrlParseError(url::ParseError),
}

} // verus!
