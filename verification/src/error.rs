//! The failures that a request can end in.

use vstd::prelude::*;

verus! {

/// Why a request did not yield a decoded response. Each variant carries a
/// text that describes the failure.
#[derive(Clone, Debug, PartialEq, Eq)]
pub enum RestError {
    /// The HTTPS transport could not be set up.
    HttpsConnectorError(String),
    /// The final request URI is no valid URI; the text is that URI.
    UriError(String),
    /// The network failed, or the server did not answer with success.
    TransportError(String),
    /// The response body is no JSON of the expected shape.
    DecodeError(String),
}

impl RestError {
    /// The text that the error carries.
    pub open spec fn text(self) -> Seq<char> {
        match self {
            RestError::HttpsConnectorError(t) => t@,
            RestError::UriError(t) => t@,
            RestError::TransportError(t) => t@,
            RestError::DecodeError(t) => t@,
        }
    }

    /// The text that the error carries.
    pub fn message(&self) -> (r: &str)
        ensures
            r@ == self.text(),
    {
        match self {
            RestError::HttpsConnectorError(t) => t.as_str(),
            RestError::UriError(t) => t.as_str(),
            RestError::TransportError(t) => t.as_str(),
            RestError::DecodeError(t) => t.as_str(),
        }
    }
}

} // verus!
