use vstd::prelude::*;

verus! {

/// `serde_json::Error`, carried as it is in `QueryError::JsonError`.
#[verifier::external_type_specification]
#[verifier::external_body]
pub struct ExJsonError(serde_json::Error);

/// `reqwest::Error`, carried as it is in `QueryError::ReqwestError`.
#[verifier::external_type_specification]
#[verifier::external_body]
pub struct ExReqwestError(reqwest::Error);

/// `reqwest::header::InvalidHeaderValue`, what `HeaderValue::from_str` refuses with.
#[verifier::external_type_specification]
#[verifier::external_body]
pub struct ExInvalidHeaderValue(reqwest::header::InvalidHeaderValue);

/// `reqwest::header::InvalidHeaderName`, what `HeaderName::from_bytes` refuses with.
#[verifier::external_type_specification]
#[verifier::external_body]
pub struct ExInvalidHeaderName(reqwest::header::InvalidHeaderName);

/// `url::ParseError`, what `Url::parse` refuses with.
#[verifier::external_type_specification]
#[verifier::external_body]
pub struct ExParseError(url::ParseError);

} // verus!
