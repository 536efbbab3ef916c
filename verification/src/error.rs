//! The single error kind of the client.
//!
//! Every transport or decoding failure of the upstream API collapses into one
//! variant carrying a human-readable message; the application maps its HTTP
//! client's errors into this type before handing results to the library.

use vstd::prelude::*;

verus! {

/// A failed fetch: the network call failed or the response could not be
/// decoded. The payload is a displayable description of the failure.
#[derive(Debug)]
pub enum Error {
    Fetch(String),
}

impl Error {
    /// The displayable description of the failure.
    pub fn message(&self) -> (m: &String)
        ensures
            self matches Error::Fetch(s) && m@ == s@,
    {
        match self {
            Error::Fetch(s) => s,
        }
    }
}

} // verus!
