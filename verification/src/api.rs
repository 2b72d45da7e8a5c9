//! What the HTTP interface answers: a result with a code, data and message,
//! or a refusal of an unauthenticated request.

use vstd::prelude::*;

verus! {

/// The body of every answer: code 0 with data on success, code -1 with a message on failure.
pub struct ApiResult<T> {
    pub code: i32,
    pub data: Option<T>,
    pub message: Option<String>,
}

/// Why a request failed.
pub enum ApiError {
    /// The request failed; the text says why.
    BasicError(String),
    /// The request carried no valid session.
    AuthenticationError,
}

/// The answer sent for a request.
pub enum ApiReply<T> {
    /// A JSON body with status 200.
    Json(ApiResult<T>),
    /// A bare status with a short text.
    Status(u16, String),
}

/// The answer to a request that succeeded.
pub fn success<T>(data: Option<T>) -> (r: ApiReply<T>)
    ensures
        r matches ApiReply::Json(body) && body.code == 0 && body.data == data && body.message is None,
{
    ApiReply::Json(ApiResult { code: 0, data, message: None })
}

impl ApiError {
    /// The answer to a request that failed: a failure is answered with code
    /// -1 and its message; a missing or stale session with status 401.
    pub fn into_reply(self) -> (r: ApiReply<String>)
        ensures
            self matches ApiError::BasicError(m) ==> (r matches ApiReply::Json(body)
                && body.code == -1 && body.data is None && body.message == Some(m)),
            self is AuthenticationError ==> (r matches ApiReply::Status(code, text)
                && code == 401 && text@ == "Unauthorized"@),
    {
        match self {
            ApiError::BasicError(m) => ApiReply::Json(ApiResult { code: -1, data: None, message: Some(m) }),
            ApiError::AuthenticationError => ApiReply::Status(401, "Unauthorized".to_string()),
        }
    }
}

} // verus!
