//! The standardized response envelope handed to the service boundary.
//!
//! Every authentication error maps to an unauthorized envelope at the
//! boundary; the envelope itself carries a numeric status code so that
//! the HTTP layer above owns the wire mapping.

use vstd::prelude::*;
use serde_json::Value;

verus! {

/// Standardized API response structure.
#[derive(Debug)]
pub struct ApiResponse<T> {
    /// HTTP status code.
    pub status_code: u16,
    /// Optional message, typically used for errors.
    pub message: Option<String>,
    /// Optional error code, if applicable.
    pub error: Option<u16>,
    /// Response data.
    pub data: Option<T>,
}

impl<T> ApiResponse<T> {
    /// Create a success response with data.
    pub fn success(data: T, status_code: u16) -> (r: Self)
        ensures
            r.status_code == status_code,
            r.message is None,
            r.error is None,
            r.data == Some(data),
    {
        Self { status_code, message: None, error: None, data: Some(data) }
    }

    /// Create an error response.
    pub fn error(message: String, status_code: u16, error_code: Option<u16>) -> (r: Self)
        ensures
            r.status_code == status_code,
            r.message == Some(message),
            r.error == error_code,
            r.data is None,
    {
        Self { status_code, message: Some(message), error: error_code, data: None }
    }

    /// Create a success response with status code 200 OK.
    pub fn ok(data: T) -> (r: Self)
        ensures
            r.status_code == 200,
            r.message is None,
            r.error is None,
            r.data == Some(data),
    {
        Self::success(data, 200)
    }

    /// Create a success response with status code 201 CREATED.
    pub fn created(data: T) -> (r: Self)
        ensures
            r.status_code == 201,
            r.message is None,
            r.error is None,
            r.data == Some(data),
    {
        Self::success(data, 201)
    }

    /// Create a not found error response.
    pub fn not_found(message: String) -> (r: Self)
        ensures
            r.status_code == 404,
            r.message == Some(message),
            r.error == Some(404u16),
            r.data is None,
    {
        Self::error(message, 404, Some(404))
    }

    /// Create a bad request error response.
    pub fn bad_request(message: String) -> (r: Self)
        ensures
            r.status_code == 400,
            r.message == Some(message),
            r.error == Some(400u16),
            r.data is None,
    {
        Self::error(message, 400, Some(400))
    }

    /// Create an internal server error response.
    pub fn internal_error(message: String) -> (r: Self)
        ensures
            r.status_code == 500,
            r.message == Some(message),
            r.error == Some(500u16),
            r.data is None,
    {
        Self::error(message, 500, Some(500))
    }

    /// Create an unauthorized error response.
    pub fn unauthorized(message: String) -> (r: Self)
        ensures
            r.status_code == 401,
            r.message == Some(message),
            r.error == Some(401u16),
            r.data is None,
    {
        Self::error(message, 401, Some(401))
    }

    /// Create a forbidden error response.
    pub fn forbidden(message: String) -> (r: Self)
        ensures
            r.status_code == 403,
            r.message == Some(message),
            r.error == Some(403u16),
            r.data is None,
    {
        Self::error(message, 403, Some(403))
    }
}

/// Wraps any data in a standard OK response.
pub fn json_response<T>(data: T) -> (r: ApiResponse<T>)
    ensures
        r.status_code == 200,
        r.data == Some(data),
{
    ApiResponse::ok(data)
}

/// Wraps a list in a standard OK response.
pub fn list_response<T>(items: Vec<T>) -> (r: ApiResponse<Vec<T>>)
    ensures
        r.status_code == 200,
        r.data == Some(items),
{
    ApiResponse::ok(items)
}

/// Builds an error response whose error code repeats its status code.
pub fn error_response<T>(message: String, status_code: u16) -> (r: ApiResponse<T>)
    ensures
        r.status_code == status_code,
        r.message == Some(message),
        r.error == Some(status_code),
        r.data is None,
{
    ApiResponse::error(message, status_code, Some(status_code))
}

/// Builds a validation error response; the detail document is not
/// carried in the envelope.
pub fn validation_error<T>(message: String, details: Option<Value>) -> (r: ApiResponse<T>)
    ensures
        r.status_code == 400,
        r.message == Some(message),
        r.data is None,
{
    ApiResponse::<T>::bad_request(message)
}

} // verus!
