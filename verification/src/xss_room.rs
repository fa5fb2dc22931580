//! The stored-XSS / CSRF training room. It trusts the identity headers the
//! gateway adds, stores comment bodies exactly as posted, and changes the
//! room password without any CSRF token: that is the exercise.
//!
//! Its handlers read and write the comments and accounts tables; this
//! module holds what they decide.
use vstd::prelude::*;
use vstd::string::*;
use crate::auth::opt_bytes;
use crate::headers::{header_text, header_text_spec};
use crate::ids::{is_v4_uuid, new_id};
use crate::text::{trim, trim_spec};

verus! {

/// Errors of the room's API.
#[derive(Debug)]
pub enum ApiError {
    Internal { error: &'static str, message: String },
    Unauthorized { error: &'static str, message: String },
    BadRequest { error: &'static str, message: String },
}

/// An error as its response: status, error code and message.
pub open spec fn error_view(e: ApiError) -> (u16, &'static str, Seq<char>) {
    match e {
        ApiError::Internal { error, message } => (500, error, message@),
        ApiError::Unauthorized { error, message } => (401, error, message@),
        ApiError::BadRequest { error, message } => (400, error, message@),
    }
}

impl ApiError {
    pub fn internal(error: &'static str, message: String) -> (r: Self)
        ensures
            r == (ApiError::Internal { error, message }),
    {
        ApiError::Internal { error, message }
    }

    pub fn unauthorized(error: &'static str, message: String) -> (r: Self)
        ensures
            r == (ApiError::Unauthorized { error, message }),
    {
        ApiError::Unauthorized { error, message }
    }

    pub fn bad_request(error: &'static str, message: String) -> (r: Self)
        ensures
            r == (ApiError::BadRequest { error, message }),
    {
        ApiError::BadRequest { error, message }
    }

    /// The response this error answers with (`IntoResponse::into_response`).
    pub fn into_parts(self) -> (r: (u16, &'static str, String))
        ensures
            (r.0, r.1, r.2@) == error_view(self),
    {
        match self {
            ApiError::Internal { error, message } => (500, error, message),
            ApiError::Unauthorized { error, message } => (401, error, message),
            ApiError::BadRequest { error, message } => (400, error, message),
        }
    }
}

pub struct ChangePasswordRequest {
    pub new_password: String,
}

pub struct RoomAccount {
    pub user_id: String,
    pub display_password_value: String,
    pub updated_at: String,
}

pub struct Comment {
    pub id: String,
    pub user_id: String,
    pub username: String,
    pub body: String,
    pub created_at: String,
}

pub struct PostCommentRequest {
    pub body: String,
}

pub struct Post {
    pub id: &'static str,
    pub title: &'static str,
    pub body: &'static str,
}

/// A comment to insert.
pub struct NewComment {
    pub id: String,
    pub user_id: String,
    pub username: String,
    pub body: String,
}

/// The room's one post.
pub fn get_post() -> (r: Post)
    ensures
        r.id == "welcome-post",
        r.title == "Stored XSS and CSRF Demo",
        r.body == "This is a vulnerable training post. Leave a comment below.",
{
    Post {
        id: "welcome-post",
        title: "Stored XSS and CSRF Demo",
        body: "This is a vulnerable training post. Leave a comment below.",
    }
}

/// A header's text (`header_str`), from the bytes of its value: absent
/// when the header is, or when it is not visible ASCII.
pub fn header_str(value: Option<&[u8]>) -> (r: Option<String>)
    ensures
        match opt_bytes(value) {
            None => r is None,
            Some(b) => match header_text_spec(b) {
                None => r is None,
                Some(t) => r matches Some(s) && s@ == t,
            },
        },
{
    match value {
        None => None,
        Some(b) => header_text(b),
    }
}

pub open spec fn header_of(value: Option<Seq<u8>>) -> Option<Seq<char>> {
    match value {
        None => None,
        Some(b) => header_text_spec(b),
    }
}

/// The comment to store for a post (`post_comment` before its insert): the
/// poster must be identified by both identity headers (401
/// `missing_identity`), the body must not be blank (400 `empty_body`); the
/// body is stored exactly as posted.
pub fn prepare_comment(user_id_header: Option<&[u8]>, username_header: Option<&[u8]>, request: PostCommentRequest) -> (r: Result<NewComment, ApiError>)
    ensures
        match (header_of(opt_bytes(user_id_header)), header_of(opt_bytes(username_header))) {
            (None, _) => r matches Err(e) && error_view(e) == (401u16, "missing_identity", "X-Lab-User-Id header is required"@),
            (Some(_), None) => r matches Err(e) && error_view(e) == (401u16, "missing_identity", "X-Lab-Username header is required"@),
            (Some(uid), Some(uname)) => if trim_spec(request.body@).len() == 0 {
                r matches Err(e) && error_view(e) == (400u16, "empty_body", "comment body must not be empty"@)
            } else {
                r matches Ok(c) && is_v4_uuid(c.id@) && c.user_id@ == uid && c.username@ == uname
                    && c.body@ == request.body@
            },
        },
{
    let user_id = match header_str(user_id_header) {
        Some(s) => s,
        None => {
            return Err(
                ApiError::unauthorized("missing_identity", String::from_str("X-Lab-User-Id header is required")),
            );
        },
    };
    let username = match header_str(username_header) {
        Some(s) => s,
        None => {
            return Err(
                ApiError::unauthorized("missing_identity", String::from_str("X-Lab-Username header is required")),
            );
        },
    };
    if trim(request.body.as_str()).unicode_len() == 0 {
        return Err(ApiError::bad_request("empty_body", String::from_str("comment body must not be empty")));
    }
    Ok(NewComment { id: new_id(), user_id, username, body: request.body })
}

/// The account change to store (`change_password` before its upsert): the
/// user must be identified (401 `missing_identity`) and the new password
/// must not be blank (400 `empty_password`); it is stored as sent.
pub fn prepare_password_change(user_id_header: Option<&[u8]>, request: ChangePasswordRequest) -> (r: Result<(String, String), ApiError>)
    ensures
        match header_of(opt_bytes(user_id_header)) {
            None => r matches Err(e) && error_view(e) == (401u16, "missing_identity", "X-Lab-User-Id header is required"@),
            Some(uid) => if trim_spec(request.new_password@).len() == 0 {
                r matches Err(e) && error_view(e) == (400u16, "empty_password", "new_password must not be empty"@)
            } else {
                r matches Ok(p) && p.0@ == uid && p.1@ == request.new_password@
            },
        },
{
    let user_id = match header_str(user_id_header) {
        Some(s) => s,
        None => {
            return Err(
                ApiError::unauthorized("missing_identity", String::from_str("X-Lab-User-Id header is required")),
            );
        },
    };
    if trim(request.new_password.as_str()).unicode_len() == 0 {
        return Err(ApiError::bad_request("empty_password", String::from_str("new_password must not be empty")));
    }
    Ok((user_id, request.new_password))
}

} // verus!
