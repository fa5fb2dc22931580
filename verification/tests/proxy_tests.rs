use exp_box::api_error::ApiError;
use exp_box::auth::AuthUser;
use exp_box::proxy::{forward_request, forward_response, keep_valid_cookies, UpstreamReply};
use exp_box::xss_proxy::{authed_post_request, authed_post_response};

#[test]
fn forward_request_with_body() {
    let r = forward_request(
        "http://auth-service:9001/login",
        Some(b"lab_session=1".to_vec()),
        Some(b"application/json".to_vec()),
        b"{}".to_vec(),
    );
    assert_eq!(r.url, "http://auth-service:9001/login");
    assert_eq!(
        r.headers,
        vec![("Cookie", b"lab_session=1".to_vec()), ("Content-Type", b"application/json".to_vec())]
    );
    assert_eq!(r.body, Some(b"{}".to_vec()));
}

#[test]
fn forward_request_without_body_drops_content_type() {
    let r = forward_request("http://a/me", None, Some(b"application/json".to_vec()), Vec::new());
    assert!(r.headers.is_empty());
    assert_eq!(r.body, None);
    let r = forward_request("http://a/me", Some(b"x=1".to_vec()), None, Vec::new());
    assert_eq!(r.headers, vec![("Cookie", b"x=1".to_vec())]);
}

fn gateway_parts(e: ApiError) -> (&'static str, String) {
    match e {
        ApiError::BadGateway { error, message } => (error, message),
        other => panic!("expected 502, got {}", other.into_parts().0),
    }
}

#[test]
fn forward_response_passes_status_and_cookies() {
    let reply = UpstreamReply::Received {
        status: 401,
        set_cookies: vec![b"lab_session=abc; Path=/".to_vec(), b"bad\x01cookie".to_vec(), b"b=2".to_vec()],
        body: Ok(b"{\"error\":\"x\"}".to_vec()),
    };
    let resp = forward_response(reply).ok().unwrap();
    assert_eq!(resp.status, 401);
    assert_eq!(resp.set_cookies, vec![b"lab_session=abc; Path=/".to_vec(), b"b=2".to_vec()]);
    assert_eq!(resp.body, b"{\"error\":\"x\"}".to_vec());
}

#[test]
fn forward_response_invalid_status_becomes_500() {
    let reply = UpstreamReply::Received { status: 42, set_cookies: Vec::new(), body: Ok(Vec::new()) };
    assert_eq!(forward_response(reply).ok().unwrap().status, 500);
}

#[test]
fn forward_response_failures_are_502() {
    let (code, message) = gateway_parts(forward_response(UpstreamReply::SendFailed("refused".into())).err().unwrap());
    assert_eq!(code, "service_unavailable");
    assert_eq!(message, "upstream unreachable: refused");
    let reply = UpstreamReply::Received { status: 200, set_cookies: Vec::new(), body: Err("eof".into()) };
    let (code, message) = gateway_parts(forward_response(reply).err().unwrap());
    assert_eq!(code, "service_response_failed");
    assert_eq!(message, "failed to read upstream response: eof");
}

#[test]
fn keep_valid_cookies_keeps_order() {
    let kept = keep_valid_cookies(vec![b"a\x7f".to_vec(), b"c=3".to_vec(), b"d\t=4".to_vec()]);
    assert_eq!(kept, vec![b"c=3".to_vec(), b"d\t=4".to_vec()]);
}

#[test]
fn authed_post_carries_identity() {
    let user = AuthUser { user_id: "id-7".to_string(), username: "bob".to_string() };
    let r = authed_post_request(
        "http://room-xss:9000/comments".to_string(),
        &user,
        Some(b"application/json".to_vec()),
        b"{\"body\":\"hi\"}".to_vec(),
    );
    assert_eq!(r.url, "http://room-xss:9000/comments");
    assert_eq!(
        r.headers,
        vec![
            ("Content-Type", b"application/json".to_vec()),
            ("X-Lab-User-Id", b"id-7".to_vec()),
            ("X-Lab-Username", b"bob".to_vec()),
        ]
    );
    assert_eq!(r.body, Some(b"{\"body\":\"hi\"}".to_vec()));
}

#[test]
fn authed_post_response_decisions() {
    let reply = UpstreamReply::Received { status: 201, set_cookies: vec![b"x=1".to_vec()], body: Ok(b"{}".to_vec()) };
    let resp = authed_post_response("xss", reply).ok().unwrap();
    assert_eq!(resp.status, 201);
    assert!(resp.set_cookies.is_empty());
    let (code, message) = gateway_parts(authed_post_response("xss", UpstreamReply::SendFailed("dns".into())).err().unwrap());
    assert_eq!(code, "room_unavailable");
    assert_eq!(message, "room xss unreachable: dns");
    let reply = UpstreamReply::Received { status: 200, set_cookies: Vec::new(), body: Err("reset".into()) };
    let (code, message) = gateway_parts(authed_post_response("xss", reply).err().unwrap());
    assert_eq!(code, "room_response_failed");
    assert_eq!(message, "failed to read room xss response: reset");
}
