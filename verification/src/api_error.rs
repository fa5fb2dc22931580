//! Errors of the gateway's API: each answers with a status and a JSON body
//! `{ "error": <code>, "message": <text> }`.
use vstd::prelude::*;

verus! {

#[derive(Debug)]
pub enum ApiError {
    BadGateway { error: &'static str, message: String },
    Internal { error: &'static str, message: String },
    BadRequest { error: &'static str, message: String },
}

impl ApiError {
    pub fn bad_gateway(error: &'static str, message: String) -> (r: Self)
        ensures
            r == (ApiError::BadGateway { error, message }),
    {
        ApiError::BadGateway { error, message }
    }

    pub fn internal(error: &'static str, message: String) -> (r: Self)
        ensures
            r == (ApiError::Internal { error, message }),
    {
        ApiError::Internal { error, message }
    }

    pub fn bad_request(error: &'static str, message: String) -> (r: Self)
        ensures
            r == (ApiError::BadRequest { error, message }),
    {
        ApiError::BadRequest { error, message }
    }

    pub open spec fn status_spec(&self) -> u16 {
        match self {
            ApiError::BadGateway { .. } => 502,
            ApiError::Internal { .. } => 500,
            ApiError::BadRequest { .. } => 400,
        }
    }

    pub open spec fn code_spec(&self) -> &'static str {
        match self {
            ApiError::BadGateway { error, .. } => *error,
            ApiError::Internal { error, .. } => *error,
            ApiError::BadRequest { error, .. } => *error,
        }
    }

    pub open spec fn message_spec(&self) -> Seq<char> {
        match self {
            ApiError::BadGateway { message, .. } => message@,
            ApiError::Internal { message, .. } => message@,
            ApiError::BadRequest { message, .. } => message@,
        }
    }

    /// The response this error answers with: its status, error code and
    /// message (`IntoResponse::into_response`).
    pub fn into_parts(self) -> (r: (u16, &'static str, String))
        ensures
            r.0 == self.status_spec(),
            r.1 == self.code_spec(),
            r.2@ == self.message_spec(),
    {
        match self {
            ApiError::BadGateway { error, message } => (502, error, message),
            ApiError::Internal { error, message } => (500, error, message),
            ApiError::BadRequest { error, message } => (400, error, message),
        }
    }
}

} // verus!
