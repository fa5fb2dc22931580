use exp_box::auth::{
    check_verify_status, extract_session_cookie, identity_from_body, reject, session_from_cookie_text,
    session_or_reject, verify_url, VerifyResponse,
};

#[test]
fn session_cookie_alone() {
    assert_eq!(extract_session_cookie(Some(b"lab_session=abc123")), Some("abc123".to_string()));
}

#[test]
fn session_cookie_among_others() {
    assert_eq!(
        extract_session_cookie(Some(b"theme=dark; lab_session=s-1; sid=zz")),
        Some("s-1".to_string())
    );
    assert_eq!(session_from_cookie_text("a=1;lab_session=x"), Some("x".to_string()));
    assert_eq!(session_from_cookie_text("  lab_session=  padded  ;"), Some("  padded".to_string()));
}

#[test]
fn first_session_cookie_wins() {
    assert_eq!(session_from_cookie_text("lab_session=one; lab_session=two"), Some("one".to_string()));
}

#[test]
fn session_cookie_absent() {
    assert_eq!(extract_session_cookie(None), None);
    assert_eq!(extract_session_cookie(Some(b"")), None);
    assert_eq!(extract_session_cookie(Some(b"sid=1; other=2")), None);
    assert_eq!(extract_session_cookie(Some(b"xlab_session=1")), None);
    assert_eq!(extract_session_cookie(Some(b"lab_session")), None);
}

#[test]
fn session_cookie_empty_value() {
    assert_eq!(extract_session_cookie(Some(b"lab_session=")), Some(String::new()));
}

#[test]
fn session_cookie_header_not_visible_ascii() {
    assert_eq!(extract_session_cookie(Some(b"lab_session=\x01abc")), None);
    assert_eq!(extract_session_cookie(Some("lab_session=\u{e9}".as_bytes())), None);
}

#[test]
fn session_cookie_roundtrip() {
    for v in ["abc", "0b8f-11", "", "with space inside"] {
        let header = format!("lab_session={v}");
        assert_eq!(session_from_cookie_text(&header), Some(v.to_string()));
    }
}

#[test]
fn missing_cookie_is_401() {
    let r = session_or_reject(None).err().unwrap();
    assert_eq!((r.status, r.error, r.message), (401, "unauthorized", "not authenticated"));
    let ok = session_or_reject(Some(b"lab_session=zz")).ok().unwrap();
    assert_eq!(ok.session_id, "zz");
}

#[test]
fn verify_status_decisions() {
    let r = check_verify_status(None).err().unwrap();
    assert_eq!(
        (r.status, r.error, r.message),
        (502, "auth_service_unavailable", "authentication service is temporarily unavailable")
    );
    let r = check_verify_status(Some(401)).err().unwrap();
    assert_eq!((r.status, r.error, r.message), (401, "unauthorized", "session is invalid or expired"));
    let r = check_verify_status(Some(500)).err().unwrap();
    assert_eq!(r.status, 401);
    assert!(check_verify_status(Some(200)).is_ok());
    assert!(check_verify_status(Some(204)).is_ok());
    assert!(check_verify_status(Some(300)).is_err());
}

#[test]
fn identity_from_body_decisions() {
    let u = identity_from_body(Some(VerifyResponse { user_id: "u1".to_string(), username: "alice".to_string() }))
        .ok()
        .unwrap();
    assert_eq!((u.user_id.as_str(), u.username.as_str()), ("u1", "alice"));
    let r = identity_from_body(None).err().unwrap();
    assert_eq!(r.status, 502);
    assert_eq!(r.error, "auth_service_unavailable");
}

#[test]
fn verify_url_and_reject() {
    assert_eq!(verify_url("http://auth-service:9001"), "http://auth-service:9001/sessions/verify");
    let r = reject(418, "teapot", "short and stout");
    assert_eq!((r.status, r.error, r.message), (418, "teapot", "short and stout"));
}
