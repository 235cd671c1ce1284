//! Checking a response: its status decides, then its body must be JSON.

use vstd::prelude::*;

verus! {

#[verifier::external_type_specification]
#[verifier::external_body]
pub struct ExHyperError(hyper::Error);

#[verifier::external_type_specification]
#[verifier::external_body]
pub struct ExJsonError(serde_json::Error);

#[verifier::external_type_specification]
#[verifier::external_body]
pub struct ExJsonValue(serde_json::Value);

/// Why a call failed.
#[derive(Debug)]
pub enum FetchError {
    /// The transport failed: DNS, TLS, a reset connection, a malformed response.
    Http(hyper::Error),
    /// The body is not JSON of the expected shape.
    Json(serde_json::Error),
    /// The server answered with a status outside the success range.
    Status(u16),
}

impl From<hyper::Error> for FetchError {
    fn from(err: hyper::Error) -> (r: FetchError)
        ensures
            r == FetchError::Http(err),
    {
        FetchError::Http(err)
    }
}

impl vstd::std_specs::convert::FromSpecImpl<hyper::Error> for FetchError {
    open spec fn obeys_from_spec() -> bool {
        true
    }

    open spec fn from_spec(err: hyper::Error) -> FetchError {
        FetchError::Http(err)
    }
}

impl From<serde_json::Error> for FetchError {
    fn from(err: serde_json::Error) -> (r: FetchError)
        ensures
            r == FetchError::Json(err),
    {
        FetchError::Json(err)
    }
}

impl vstd::std_specs::convert::FromSpecImpl<serde_json::Error> for FetchError {
    open spec fn obeys_from_spec() -> bool {
        true
    }

    open spec fn from_spec(err: serde_json::Error) -> FetchError {
        FetchError::Json(err)
    }
}

/// A status in the success range, 200 to 299.
pub open spec fn is_success(status: u16) -> bool {
    200 <= status < 300
}

/// Whether `serde_json` parses a byte string as a JSON value.
pub uninterp spec fn json_accepts(b: Seq<u8>) -> bool;

/// Relies on `serde_json::from_slice` into a `serde_json::Value`: whether the
/// bytes parse depends on the bytes alone.
#[verifier::external_body]
fn parse_json(body: &[u8]) -> (r: Result<serde_json::Value, serde_json::Error>)
    ensures
        r is Ok <==> json_accepts(body@),
{
    serde_json::from_slice::<serde_json::Value>(body)
}

/// Checks a status: a success goes on, any other status is the error.
pub fn check_status(status: u16) -> (r: Result<(), FetchError>)
    ensures
        is_success(status) ==> r is Ok,
        !is_success(status) ==> r == Err::<(), FetchError>(FetchError::Status(status)),
{
    if 200 <= status && status < 300 {
        Ok(())
    } else {
        Err(FetchError::Status(status))
    }
}

/// Handles a complete response. A status outside the success range is the
/// error, and the body is not looked at; otherwise the body must parse as JSON.
pub fn handle_response(status: u16, body: &[u8]) -> (r: Result<serde_json::Value, FetchError>)
    ensures
        !is_success(status) ==> r == Err::<serde_json::Value, FetchError>(FetchError::Status(status)),
        is_success(status) ==> (r is Ok <==> json_accepts(body@)),
        is_success(status) && r is Err ==> r->Err_0 is Json,
{
    match check_status(status) {
        Ok(()) => {},
        Err(e) => {
            return Err(e);
        },
    }
    match parse_json(body) {
        Ok(v) => Ok(v),
        Err(e) => Err(FetchError::from(e)),
    }
}

} // verus!
