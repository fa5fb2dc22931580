//! The auth service: users, password hashing and cookie sessions.
//!
//! Its handlers read and write the users and sessions tables; this module
//! holds what they decide: which registrations are accepted and what is
//! stored for them, which logins succeed, and how a session is answered.
use vstd::prelude::*;
use vstd::string::*;
use crate::digest::utf8_bytes;
use crate::ids::{is_v4_uuid, new_id};
use crate::passwords::{
    check_password_hash, hash_password, password_matches, phc_parse_error, phc_parses,
    verify_password,
};
use crate::text::{concat2, contains, contains_spec, trim, trim_spec};

verus! {

/// The session cookie's name.
pub const SESSION_COOKIE: &'static str = "lab_session";

/// How long a session lasts, in days.
pub const SESSION_TTL_DAYS: i64 = 7;

/// Errors of the auth service's API.
#[derive(Debug)]
pub enum ApiError {
    BadRequest { error: &'static str, message: String },
    Unauthorized { error: &'static str, message: String },
    Conflict { error: &'static str, message: String },
    Internal { error: &'static str, message: String },
}

/// An error as its response: status, error code and message.
pub open spec fn error_view(e: ApiError) -> (u16, &'static str, Seq<char>) {
    match e {
        ApiError::BadRequest { error, message } => (400, error, message@),
        ApiError::Unauthorized { error, message } => (401, error, message@),
        ApiError::Conflict { error, message } => (409, error, message@),
        ApiError::Internal { error, message } => (500, error, message@),
    }
}

impl ApiError {
    pub fn bad_request(error: &'static str, message: String) -> (r: Self)
        ensures
            r == (ApiError::BadRequest { error, message }),
    {
        ApiError::BadRequest { error, message }
    }

    pub fn unauthorized(error: &'static str, message: String) -> (r: Self)
        ensures
            r == (ApiError::Unauthorized { error, message }),
    {
        ApiError::Unauthorized { error, message }
    }

    pub fn conflict(error: &'static str, message: String) -> (r: Self)
        ensures
            r == (ApiError::Conflict { error, message }),
    {
        ApiError::Conflict { error, message }
    }

    pub fn internal(error: &'static str, message: String) -> (r: Self)
        ensures
            r == (ApiError::Internal { error, message }),
    {
        ApiError::Internal { error, message }
    }

    /// The response this error answers with (`IntoResponse::into_response`).
    pub fn into_parts(self) -> (r: (u16, &'static str, String))
        ensures
            (r.0, r.1, r.2@) == error_view(self),
    {
        match self {
            ApiError::BadRequest { error, message } => (400, error, message),
            ApiError::Unauthorized { error, message } => (401, error, message),
            ApiError::Conflict { error, message } => (409, error, message),
            ApiError::Internal { error, message } => (500, error, message),
        }
    }
}

pub struct RegisterRequest {
    pub username: String,
    pub password: String,
}

pub struct LoginRequest {
    pub username: String,
    pub password: String,
}

pub struct VerifySessionRequest {
    pub session_id: String,
}

pub struct MessageResponse {
    pub message: &'static str,
}

pub struct LoginResponse {
    pub message: &'static str,
    pub username: String,
}

pub struct UserResponse {
    pub user_id: String,
    pub username: String,
}

pub struct HealthResponse {
    pub message: &'static str,
}

/// A user to insert: fresh id, trimmed name and the password's PHC hash.
pub struct NewUser {
    pub id: String,
    pub username: String,
    pub password_hash: String,
}

/// A user's row as login reads it.
pub struct UserRecord {
    pub id: String,
    pub username: String,
    pub password_hash: String,
}

/// A successful login: the user, and the id of the session to open.
pub struct LoginGrant {
    pub user: UserRecord,
    pub session_id: String,
}

/// A session's row joined with its user.
pub struct SessionUser {
    pub user_id: String,
    pub username: String,
}

/// The health answer.
pub fn health() -> (r: HealthResponse)
    ensures
        r.message == "auth-service ready",
{
    HealthResponse { message: "auth-service ready" }
}

/// Why a registration is refused before anything is stored, if it is: the
/// name is blank, or the password is under 8 bytes.
pub open spec fn registration_refusal(username: Seq<char>, password: Seq<char>) -> Option<(u16, &'static str, Seq<char>)> {
    if trim_spec(username).len() == 0 {
        Some((400, "validation_error", "username is required"@))
    } else if utf8_bytes(password).len() < 8 {
        Some((400, "validation_error", "password must be at least 8 characters"@))
    } else {
        None
    }
}

/// The user to insert for a registration (`register` before its insert):
/// 400 `validation_error` for a blank name or a password under 8 bytes;
/// 500 `hash_failed` when hashing fails. A stored user has a fresh id, the
/// trimmed name, and a hash that the password verifies against. Hashing
/// fails only for a password over 0xFFFF_FFFF bytes.
pub fn prepare_registration(body: RegisterRequest) -> (r: Result<NewUser, ApiError>)
    ensures
        match registration_refusal(body.username@, body.password@) {
            Some(v) => r matches Err(e) && error_view(e) == v,
            None => {
                &&& r is Ok <==> utf8_bytes(body.password@).len() <= 0xFFFF_FFFF
                &&& match r {
                    Ok(u) => is_v4_uuid(u.id@) && u.username@ == trim_spec(body.username@)
                        && phc_parses(u.password_hash@) && password_matches(
                        utf8_bytes(body.password@),
                        u.password_hash@,
                    ),
                    Err(e) => error_view(e) == (500u16, "hash_failed", "invalid password"@),
                }
            },
        },
        trim_spec(body.username@).len() == 0 ==> (r matches Err(e) && error_view(e) == (
            400u16,
            "validation_error",
            "username is required"@,
        )),
        trim_spec(body.username@).len() > 0 && utf8_bytes(body.password@).len() < 8 ==> (r matches Err(e)
            && error_view(e) == (400u16, "validation_error", "password must be at least 8 characters"@)),
        trim_spec(body.username@).len() > 0 && 8 <= utf8_bytes(body.password@).len() <= 0xFFFF_FFFF ==> (r
            matches Ok(u) && u.username@ == trim_spec(body.username@)),
{
    let username = trim(body.username.as_str());
    if username.unicode_len() == 0 {
        return Err(ApiError::bad_request("validation_error", String::from_str("username is required")));
    }
    if body.password.as_str().as_bytes().len() < 8 {
        return Err(
            ApiError::bad_request("validation_error", String::from_str("password must be at least 8 characters")),
        );
    }
    let password_hash = match hash_password(body.password.as_str().as_bytes()) {
        Ok(h) => h,
        Err(e) => {
            return Err(ApiError::internal("hash_failed", e));
        },
    };
    Ok(NewUser { id: new_id(), username: String::from_str(username), password_hash })
}

/// A registration is refused before hashing exactly when its trimmed name
/// is empty or its password has fewer than 8 UTF-8 bytes; a blank name is
/// reported first.
pub proof fn lemma_registration_refusal(username: Seq<char>, password: Seq<char>)
    ensures
        registration_refusal(username, password) is None <==> (trim_spec(username).len() > 0 && utf8_bytes(
            password,
        ).len() >= 8),
        trim_spec(username).len() == 0 ==> registration_refusal(username, password) == Some(
            (400u16, "validation_error", "username is required"@),
        ),
        trim_spec(username).len() > 0 && utf8_bytes(password).len() < 8 ==> registration_refusal(
            username,
            password,
        ) == Some((400u16, "validation_error", "password must be at least 8 characters"@)),
{
}

/// The error for a failed user insert: 409 `username_taken` when the
/// database's error mentions `UNIQUE`, 500 `db_error` otherwise.
pub fn registration_error(db_error: &str) -> (r: ApiError)
    ensures
        if contains_spec(db_error@, "UNIQUE"@) {
            error_view(r) == (409u16, "username_taken", "username is already taken"@)
        } else {
            error_view(r) == (500u16, "db_error", "failed to create user: "@ + db_error@)
        },
{
    if contains(db_error, "UNIQUE") {
        ApiError::conflict("username_taken", String::from_str("username is already taken"))
    } else {
        ApiError::internal("db_error", concat2("failed to create user: ", db_error))
    }
}

/// The answer to a login attempt, given the password and the stored hash
/// of the user found under the name (if any).
pub open spec fn login_verdict(password: Seq<u8>, stored_hash: Option<Seq<char>>) -> Result<(), (u16, &'static str, Seq<char>)> {
    match stored_hash {
        None => Err((401, "invalid_credentials", "invalid username or password"@)),
        Some(h) => if !phc_parses(h) {
            Err((500, "hash_parse_failed", phc_parse_error(h)))
        } else if !password_matches(password, h) {
            Err((401, "invalid_credentials", "invalid username or password"@))
        } else {
            Ok(())
        },
    }
}

pub open spec fn stored_hash_of(user: Option<UserRecord>) -> Option<Seq<char>> {
    match user {
        Some(u) => Some(u.password_hash@),
        None => None,
    }
}

/// The credentials check of `login`: no user, or a password that does not
/// verify, is 401 `invalid_credentials`; a stored hash that does not parse
/// is 500 `hash_parse_failed`; otherwise the user logs in, with a fresh
/// session id.
pub fn check_login(password: &str, user: Option<UserRecord>) -> (r: Result<LoginGrant, ApiError>)
    ensures
        match login_verdict(utf8_bytes(password@), stored_hash_of(user)) {
            Ok(()) => r matches Ok(g) && user == Some(g.user) && is_v4_uuid(g.session_id@),
            Err(v) => r matches Err(e) && error_view(e) == v,
        },
{
    let user = match user {
        Some(u) => u,
        None => {
            return Err(
                ApiError::unauthorized("invalid_credentials", String::from_str("invalid username or password")),
            );
        },
    };
    match check_password_hash(user.password_hash.as_str()) {
        Ok(()) => {},
        Err(e) => {
            return Err(ApiError::internal("hash_parse_failed", e));
        },
    }
    if !verify_password(password.as_bytes(), user.password_hash.as_str()) {
        return Err(
            ApiError::unauthorized("invalid_credentials", String::from_str("invalid username or password")),
        );
    }
    Ok(LoginGrant { user, session_id: new_id() })
}

/// The body of a successful login.
pub fn login_response(user: UserRecord) -> (r: LoginResponse)
    ensures
        r.message == "logged in",
        r.username == user.username,
{
    LoginResponse { message: "logged in", username: user.username }
}

/// The body of a logout.
pub fn logout_response() -> (r: MessageResponse)
    ensures
        r.message == "logged out",
{
    MessageResponse { message: "logged out" }
}

/// The body of a registration.
pub fn registered_response() -> (r: MessageResponse)
    ensures
        r.message == "registered",
{
    MessageResponse { message: "registered" }
}

/// The session that `me` resolves: 401 `no_session` without the cookie.
pub fn me_session(cookie: Option<String>) -> (r: Result<String, ApiError>)
    ensures
        match cookie {
            Some(s) => r == Ok::<String, ApiError>(s),
            None => r matches Err(e) && error_view(e) == (401u16, "no_session", "not authenticated"@),
        },
{
    match cookie {
        Some(s) => Ok(s),
        None => Err(ApiError::unauthorized("no_session", String::from_str("not authenticated"))),
    }
}

/// The answer for a session (`resolve_session` after its query): the
/// user of a live session, or 401 `invalid_session`.
pub fn resolve_session(row: Option<SessionUser>) -> (r: Result<UserResponse, ApiError>)
    ensures
        match row {
            Some(s) => r matches Ok(u) && u.user_id == s.user_id && u.username == s.username,
            None => r matches Err(e) && error_view(e) == (401u16, "invalid_session", "session is invalid or expired"@),
        },
{
    match row {
        Some(s) => Ok(UserResponse { user_id: s.user_id, username: s.username }),
        None => Err(ApiError::unauthorized("invalid_session", String::from_str("session is invalid or expired"))),
    }
}

/// A login attempt gives away nothing about which names exist: an unknown
/// name and a wrong password for a known name get the same answer.
pub proof fn lemma_login_refusals_indistinguishable(password: Seq<u8>, stored_hash: Seq<char>)
    requires
        phc_parses(stored_hash),
        !password_matches(password, stored_hash),
    ensures
        login_verdict(password, Some(stored_hash)) == login_verdict(password, None),
{
}

/// A user registered with a password logs in with that password: what
/// registration stores parses, and the password verifies against it.
pub proof fn lemma_registered_password_logs_in(password: Seq<char>, stored_hash: Seq<char>)
    requires
        phc_parses(stored_hash),
        password_matches(utf8_bytes(password), stored_hash),
    ensures
        login_verdict(utf8_bytes(password), Some(stored_hash)) is Ok,
{
}

} // verus!
