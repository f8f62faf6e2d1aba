//! The JSON success envelope: `{ "success": true, "data": T }`.

use vstd::prelude::*;

verus! {

/// Successful API envelope: `{ "success": true, "data": T }`.
#[derive(Debug)]
pub struct ApiSuccess<T> {
    pub success: bool,
    pub data: T,
}

/// Wrap `value` in the standard success envelope for JSON responses.
pub fn json<T>(value: T) -> (r: ApiSuccess<T>)
    ensures
        r.success,
        r.data == value,
{
    ApiSuccess { success: true, data: value }
}

} // verus!
