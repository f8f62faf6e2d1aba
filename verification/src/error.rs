//! Framework errors and the JSON failure envelope they are answered with:
//! `{ "success": false, "error": { "code", "message", "details"? } }` under the HTTP
//! status that the error kind fixes.

use vstd::prelude::*;

verus! {

/// A JSON value (`serde_json::Value`), carried through as details of an error.
#[verifier::external_type_specification]
#[verifier::external_body]
pub struct ExJsonValue(serde_json::Value);

/// An error a handler answers with; each kind holds its message.
#[derive(Debug)]
pub enum RezisError {
    BadRequest(String),
    Unauthorized(String),
    Forbidden(String),
    NotFound(String),
    Validation(String),
    InvalidJson(String),
    Internal(String),
}

/// The machine-readable code of each error kind.
pub open spec fn spec_code(e: RezisError) -> Seq<char> {
    match e {
        RezisError::BadRequest(_) => "BAD_REQUEST"@,
        RezisError::Unauthorized(_) => "UNAUTHORIZED"@,
        RezisError::Forbidden(_) => "FORBIDDEN"@,
        RezisError::NotFound(_) => "NOT_FOUND"@,
        RezisError::Validation(_) => "VALIDATION_ERROR"@,
        RezisError::InvalidJson(_) => "INVALID_JSON"@,
        RezisError::Internal(_) => "INTERNAL_ERROR"@,
    }
}

/// The HTTP status of each error kind: 400 for a bad request, a failed validation or
/// malformed JSON, 401, 403, 404, and 500 for an internal error.
pub open spec fn spec_status(e: RezisError) -> u16 {
    match e {
        RezisError::BadRequest(_) | RezisError::Validation(_) | RezisError::InvalidJson(_) => 400,
        RezisError::Unauthorized(_) => 401,
        RezisError::Forbidden(_) => 403,
        RezisError::NotFound(_) => 404,
        RezisError::Internal(_) => 500,
    }
}

/// The message an error carries.
pub open spec fn spec_message(e: RezisError) -> Seq<char> {
    match e {
        RezisError::BadRequest(m) => m@,
        RezisError::Unauthorized(m) => m@,
        RezisError::Forbidden(m) => m@,
        RezisError::NotFound(m) => m@,
        RezisError::Validation(m) => m@,
        RezisError::InvalidJson(m) => m@,
        RezisError::Internal(m) => m@,
    }
}

/// [`RezisError`] plus optional `details` for `VALIDATION_ERROR`-style payloads.
#[derive(Debug)]
pub struct DetailedRezisError {
    pub inner: RezisError,
    pub details: Option<serde_json::Value>,
}

/// Inner `error` object for failure responses.
#[derive(Debug)]
pub struct ApiErrorBody {
    pub code: &'static str,
    pub message: String,
    pub details: Option<serde_json::Value>,
}

/// Failure API envelope: `{ "success": false, "error": { ... } }`.
#[derive(Debug)]
pub struct ApiFailure {
    pub success: bool,
    pub error: ApiErrorBody,
}

/// `f` is the failure envelope of `e` with `details`.
pub open spec fn is_failure_of(f: ApiFailure, e: RezisError, details: Option<serde_json::Value>) -> bool {
    &&& !f.success
    &&& f.error.code@ == spec_code(e)
    &&& f.error.message@ == spec_message(e)
    &&& f.error.details == details
}

impl RezisError {
    /// The machine-readable code of this error (`NOT_FOUND`, `VALIDATION_ERROR`, …).
    pub fn code(&self) -> (c: &'static str)
        ensures
            c@ == spec_code(*self),
    {
        match self {
            RezisError::BadRequest(_) => "BAD_REQUEST",
            RezisError::Unauthorized(_) => "UNAUTHORIZED",
            RezisError::Forbidden(_) => "FORBIDDEN",
            RezisError::NotFound(_) => "NOT_FOUND",
            RezisError::Validation(_) => "VALIDATION_ERROR",
            RezisError::InvalidJson(_) => "INVALID_JSON",
            RezisError::Internal(_) => "INTERNAL_ERROR",
        }
    }

    /// The HTTP status this error is answered with.
    pub fn status_code(&self) -> (s: u16)
        ensures
            s == spec_status(*self),
    {
        match self {
            RezisError::BadRequest(_) | RezisError::Validation(_) | RezisError::InvalidJson(_) => 400,
            RezisError::Unauthorized(_) => 401,
            RezisError::Forbidden(_) => 403,
            RezisError::NotFound(_) => 404,
            RezisError::Internal(_) => 500,
        }
    }

    /// The message this error carries.
    pub fn message(&self) -> (m: String)
        ensures
            m@ == spec_message(*self),
    {
        match self {
            RezisError::BadRequest(m) => m.clone(),
            RezisError::Unauthorized(m) => m.clone(),
            RezisError::Forbidden(m) => m.clone(),
            RezisError::NotFound(m) => m.clone(),
            RezisError::Validation(m) => m.clone(),
            RezisError::InvalidJson(m) => m.clone(),
            RezisError::Internal(m) => m.clone(),
        }
    }

    /// Attach structured validation details.
    pub fn with_details(self, details: serde_json::Value) -> (d: DetailedRezisError)
        ensures
            d.inner == self,
            d.details == Some(details),
    {
        DetailedRezisError { inner: self, details: Some(details) }
    }

    /// The status and failure envelope this error is answered with; the envelope has no
    /// details.
    pub fn into_failure(self) -> (r: (u16, ApiFailure))
        ensures
            r.0 == spec_status(self),
            is_failure_of(r.1, self, None),
    {
        let status = self.status_code();
        let body = ApiFailure {
            success: false,
            error: ApiErrorBody { code: self.code(), message: self.message(), details: None },
        };
        (status, body)
    }
}

impl DetailedRezisError {
    /// The status and failure envelope this error is answered with, details included.
    pub fn into_failure(self) -> (r: (u16, ApiFailure))
        ensures
            r.0 == spec_status(self.inner),
            is_failure_of(r.1, self.inner, self.details),
    {
        let status = self.inner.status_code();
        let body = ApiFailure {
            success: false,
            error: ApiErrorBody {
                code: self.inner.code(),
                message: self.inner.message(),
                details: self.details,
            },
        };
        (status, body)
    }
}

} // verus!
