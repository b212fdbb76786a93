//! The envelope of every answer of the multi-tenant interface.

use vstd::prelude::*;

verus! {

/// Either the data of a successful call or the message of a failed one.
#[derive(Debug)]
pub struct ApiResponse<T> {
    pub success: bool,
    pub data: Option<T>,
    pub error: Option<String>,
}

impl<T> ApiResponse<T> {
    /// The answer to a call that succeeded with `data`.
    pub fn success(data: T) -> (response: Self)
        ensures
            response.success,
            response.data == Some(data),
            response.error is None,
    {
        Self { success: true, data: Some(data), error: None }
    }

    /// The answer to a call that failed with `error`.
    pub fn error(error: String) -> (response: Self)
        ensures
            !response.success,
            response.data is None,
            response.error == Some(error),
    {
        Self { success: false, data: None, error: Some(error) }
    }
}

} // verus!
