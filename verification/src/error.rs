//! The single error taxonomy of the library: every transport or decoding
//! failure surfaces as one wrapped message.

use vstd::prelude::*;

verus! {

/// Error resulting from an API request. Connection failures, non-2xx HTTP
/// statuses and malformed response bodies are all reported through the one
/// variant, carrying the underlying failure's description.
#[derive(Debug, Clone)]
pub enum Error {
    /// A failure of the transport or of response decoding.
    NetworkError(String),
}

impl Error {
    /// The description of the underlying failure.
    pub fn message(&self) -> (r: &String)
        ensures
            self matches Error::NetworkError(m) && r@ == m@,
    {
        match self {
            Error::NetworkError(m) => m,
        }
    }
}

} // verus!
