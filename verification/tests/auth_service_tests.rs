use exp_box::auth_service::{
    check_login, health, login_response, logout_response, me_session, prepare_registration,
    registered_response, registration_error, resolve_session, ApiError, RegisterRequest, SessionUser,
    UserRecord, SESSION_COOKIE, SESSION_TTL_DAYS,
};

fn parts(e: ApiError) -> (u16, &'static str, String) {
    e.into_parts()
}

fn register(username: &str, password: &str) -> Result<exp_box::auth_service::NewUser, ApiError> {
    prepare_registration(RegisterRequest { username: username.to_string(), password: password.to_string() })
}

#[test]
fn registration_validates_input() {
    assert_eq!(parts(register("   ", "longenough").err().unwrap()), (400, "validation_error", "username is required".to_string()));
    assert_eq!(
        parts(register("alice", "short").err().unwrap()),
        (400, "validation_error", "password must be at least 8 characters".to_string())
    );
    // eight bytes, fewer characters
    assert!(register("alice", "ééééé").is_ok() == ("ééééé".len() >= 8));
}

#[test]
fn registration_stores_trimmed_name_and_hash() {
    let user = register("  alice  ", "correct horse").ok().unwrap();
    assert_eq!(user.username, "alice");
    assert_eq!(user.id.len(), 36);
    assert!(user.password_hash.starts_with("$argon2id$"));
    assert_ne!(user.password_hash, "correct horse");
}

#[test]
fn registered_password_logs_in() {
    let user = register("bob", "hunter2hunter2").ok().unwrap();
    let record = UserRecord { id: user.id.clone(), username: user.username.clone(), password_hash: user.password_hash };
    let grant = check_login("hunter2hunter2", Some(record)).ok().unwrap();
    assert_eq!(grant.user.id, user.id);
    assert_eq!(grant.session_id.len(), 36);
    let resp = login_response(grant.user);
    assert_eq!((resp.message, resp.username.as_str()), ("logged in", "bob"));
}

#[test]
fn login_refusals_look_the_same() {
    let user = register("carol", "s3cretpassword").ok().unwrap();
    let record = UserRecord { id: user.id, username: user.username, password_hash: user.password_hash };
    let wrong = parts(check_login("wrongpassword", Some(record)).err().unwrap());
    let unknown = parts(check_login("wrongpassword", None).err().unwrap());
    assert_eq!(wrong, unknown);
    assert_eq!(unknown, (401, "invalid_credentials", "invalid username or password".to_string()));
}

#[test]
fn login_with_corrupt_hash_is_internal() {
    let record = UserRecord { id: "1".into(), username: "d".into(), password_hash: "not a phc string".into() };
    let (status, code, _) = parts(check_login("whatever1", Some(record)).err().unwrap());
    assert_eq!((status, code), (500, "hash_parse_failed"));
}

#[test]
fn registration_error_maps_unique_violation() {
    assert_eq!(
        parts(registration_error("UNIQUE constraint failed: users.username")),
        (409, "username_taken", "username is already taken".to_string())
    );
    assert_eq!(
        parts(registration_error("disk full")),
        (500, "db_error", "failed to create user: disk full".to_string())
    );
}

#[test]
fn sessions_are_resolved() {
    assert_eq!(me_session(Some("s".into())).ok().unwrap(), "s");
    assert_eq!(parts(me_session(None).err().unwrap()), (401, "no_session", "not authenticated".to_string()));
    let u = resolve_session(Some(SessionUser { user_id: "u".into(), username: "n".into() })).ok().unwrap();
    assert_eq!((u.user_id.as_str(), u.username.as_str()), ("u", "n"));
    assert_eq!(
        parts(resolve_session(None).err().unwrap()),
        (401, "invalid_session", "session is invalid or expired".to_string())
    );
}

#[test]
fn fixed_answers() {
    assert_eq!(health().message, "auth-service ready");
    assert_eq!(logout_response().message, "logged out");
    assert_eq!(registered_response().message, "registered");
    assert_eq!(SESSION_COOKIE, "lab_session");
    assert_eq!(SESSION_TTL_DAYS, 7);
}

#[test]
fn auth_service_error_statuses() {
    assert_eq!(parts(ApiError::bad_request("a", "b".into())).0, 400);
    assert_eq!(parts(ApiError::unauthorized("a", "b".into())).0, 401);
    assert_eq!(parts(ApiError::conflict("a", "b".into())).0, 409);
    assert_eq!(parts(ApiError::internal("a", "b".into())).0, 500);
}
