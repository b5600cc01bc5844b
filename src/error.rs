use vstd::prelude::*;

verus! {

/// The structured error body that the server sends with a failure status.
#[derive(Debug)]
pub struct PostgrestError {
    pub code: String,
    pub details: String,
    pub message: String,
}

/// Every way a query can fail; each kind stays distinguishable.
#[derive(Debug)]
pub enum QueryError {
    /// Encoding or decoding JSON failed.
    JsonError(serde_json::Error),
    /// The transport failed to send the request or to read the response.
    ReqwestError(reqwest::Error),
    /// The server answered with a failure status and this error body.
    PostgrestError(PostgrestError),
    /// A header value holds a byte that headers cannot carry.
    InvalidHeaderValueError(reqwest::header::InvalidHeaderValue),
    /// A header name is not a valid token.
    InvalidHeaderNameError(reqwest::header::InvalidHeaderName),
    /// A count was requested and the `content-range` header carries no numeric total.
    InvalidContentRange,
    Unknown,
}

} // verus!
