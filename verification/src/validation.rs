//! What a JSON request body that is decoded and then validated is answered with.

use vstd::prelude::*;

use crate::error::{DetailedRezisError, RezisError};

verus! {

/// A request body that was decoded from JSON and passed its validation.
#[derive(Debug)]
pub struct ValidatedJson<T>(pub T);

/// The message of a body that was decoded but failed its validation.
pub const INVALID_BODY_MSG: &'static str = "Invalid request body";

/// The outcome of decoding a body: the value, or (where the body is not the expected
/// JSON) an `INVALID_JSON` error carrying the decoder's message.
pub fn decoded<T>(decoding: Result<T, String>) -> (r: Result<T, RezisError>)
    ensures
        match decoding {
            Ok(v) => r == Ok::<T, RezisError>(v),
            Err(msg) => r == Err::<T, RezisError>(RezisError::InvalidJson(msg)),
        },
{
    match decoding {
        Ok(v) => Ok(v),
        Err(msg) => Err(RezisError::InvalidJson(msg)),
    }
}

/// The outcome of validating a decoded `value`: the validated body, or (where the
/// validation reported errors) a `VALIDATION_ERROR` with the message `Invalid request
/// body` and the reported errors as details.
pub fn validated<T>(value: T, validation: Result<(), serde_json::Value>) -> (r: Result<
    ValidatedJson<T>,
    DetailedRezisError,
>)
    ensures
        match validation {
            Ok(()) => r == Ok::<ValidatedJson<T>, DetailedRezisError>(ValidatedJson(value)),
            Err(details) => {
                &&& r is Err
                &&& r->Err_0.details == Some(details)
                &&& r->Err_0.inner is Validation
                &&& r->Err_0.inner->Validation_0@ == INVALID_BODY_MSG@
            },
        },
{
    match validation {
        Ok(()) => Ok(ValidatedJson(value)),
        Err(details) => Err(
            RezisError::Validation(String::from_str(INVALID_BODY_MSG)).with_details(details),
        ),
    }
}

impl<T> ValidatedJson<T> {
    /// The validated value.
    pub fn inner(&self) -> (v: &T)
        ensures
            *v == self.0,
    {
        &self.0
    }
}

} // verus!
