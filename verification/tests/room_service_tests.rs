use exp_box::config::{auth_service_url, database_url, sqlite_dir};
use exp_box::rce_room::exec_response;
use exp_box::rooms::{progress_owner, room_from_nullable, room_listing, NullableRoomRow, RoomResponse, RoomRow};
use exp_box::xss_room::{
    get_post, header_str, prepare_comment, prepare_password_change, ApiError, ChangePasswordRequest,
    PostCommentRequest,
};

fn parts(e: ApiError) -> (u16, &'static str, String) {
    e.into_parts()
}

#[test]
fn comment_needs_identity_and_body() {
    let r = prepare_comment(None, Some(b"bob"), PostCommentRequest { body: "hi".into() });
    assert_eq!(parts(r.err().unwrap()), (401, "missing_identity", "X-Lab-User-Id header is required".to_string()));
    let r = prepare_comment(Some(b"u1"), None, PostCommentRequest { body: "hi".into() });
    assert_eq!(parts(r.err().unwrap()), (401, "missing_identity", "X-Lab-Username header is required".to_string()));
    let r = prepare_comment(Some(b"u1"), Some(b"bob"), PostCommentRequest { body: " \n ".into() });
    assert_eq!(parts(r.err().unwrap()), (400, "empty_body", "comment body must not be empty".to_string()));
}

#[test]
fn comment_body_is_stored_as_posted() {
    let body = "<script>alert(1)</script>";
    let c = prepare_comment(Some(b"u1"), Some(b"bob"), PostCommentRequest { body: body.into() }).ok().unwrap();
    assert_eq!(c.body, body);
    assert_eq!((c.user_id.as_str(), c.username.as_str()), ("u1", "bob"));
    assert_eq!(c.id.len(), 36);
}

#[test]
fn password_change_rules() {
    let r = prepare_password_change(None, ChangePasswordRequest { new_password: "x".into() });
    assert_eq!(parts(r.err().unwrap()).1, "missing_identity");
    let r = prepare_password_change(Some(b"u1"), ChangePasswordRequest { new_password: "   ".into() });
    assert_eq!(parts(r.err().unwrap()), (400, "empty_password", "new_password must not be empty".to_string()));
    let (uid, pw) = prepare_password_change(Some(b"u1"), ChangePasswordRequest { new_password: " pw ".into() }).ok().unwrap();
    assert_eq!((uid.as_str(), pw.as_str()), ("u1", " pw "));
}

#[test]
fn header_str_reads_visible_ascii_only() {
    assert_eq!(header_str(Some(b"abc def\t")), Some("abc def\t".to_string()));
    assert_eq!(header_str(Some(b"caf\xc3\xa9")), None);
    assert_eq!(header_str(Some(b"a\nb")), None);
    assert_eq!(header_str(None), None);
}

#[test]
fn xss_room_errors_and_post() {
    assert_eq!(parts(ApiError::internal("a", "b".into())).0, 500);
    assert_eq!(parts(ApiError::unauthorized("a", "b".into())).0, 401);
    assert_eq!(parts(ApiError::bad_request("a", "b".into())).0, 400);
    let p = get_post();
    assert_eq!(p.id, "welcome-post");
    assert_eq!(p.title, "Stored XSS and CSRF Demo");
}

#[test]
fn exec_response_is_text_of_output() {
    let r = exec_response(Ok((b"uid=0(root)\n".to_vec(), b"\xff".to_vec())));
    assert_eq!(r.stdout, "uid=0(root)\n");
    assert_eq!(r.stderr, "\u{fffd}");
    let r = exec_response(Err("No such file or directory".into()));
    assert_eq!(r.stdout, "");
    assert_eq!(r.stderr, "No such file or directory");
}

#[test]
fn configuration_defaults() {
    assert_eq!(database_url(None), "sqlite://data/exp-box.db");
    assert_eq!(database_url(Some("sqlite://x.db".into())), "sqlite://x.db");
    assert_eq!(auth_service_url(None), "http://auth-service:9001");
    assert_eq!(auth_service_url(Some("http://a".into())), "http://a");
}

#[test]
fn sqlite_directory() {
    assert_eq!(sqlite_dir("sqlite://data/exp-box.db"), Some("data".to_string()));
    assert_eq!(sqlite_dir("sqlite://exp-box.db"), None);
    assert_eq!(sqlite_dir("sqlite:///var/lib/app/x.db"), Some("/var/lib/app".to_string()));
    assert_eq!(sqlite_dir("postgres://host/db"), None);
}

#[test]
fn room_rows_become_responses() {
    let row = RoomRow {
        slug: "rce".into(),
        title: "RCE".into(),
        category: "web".into(),
        difficulty: "easy".into(),
        position: 1,
        description: "d".into(),
        solved: true,
    };
    let r = RoomResponse::from(row);
    assert_eq!((r.slug.as_str(), r.position, r.solved), ("rce", 1, true));
    let row = NullableRoomRow {
        slug: "xss".into(),
        title: "XSS".into(),
        category: "web".into(),
        difficulty: "medium".into(),
        position: 2,
        description: "d".into(),
        solved: None,
    };
    assert!(!room_from_nullable(row).solved);
    assert_eq!(progress_owner(None), "");
    assert_eq!(progress_owner(Some("u".into())), "u");
}

fn row(slug: &str, position: i32, solved: bool) -> RoomRow {
    RoomRow {
        slug: slug.into(),
        title: slug.to_uppercase(),
        category: "web".into(),
        difficulty: "easy".into(),
        position,
        description: "d".into(),
        solved,
    }
}

#[test]
fn anonymous_listing_marks_nothing_solved() {
    let rows = vec![row("rce", 1, true), row("xss", 2, false)];
    let anon = room_listing(&rows, false);
    assert_eq!(anon.len(), 2);
    assert!(anon.iter().all(|r| !r.solved));
    assert_eq!((anon[0].slug.as_str(), anon[1].position), ("rce", 2));
    let known = room_listing(&rows, true);
    assert!(known[0].solved);
    assert!(!known[1].solved);
    assert_eq!(known[1].title, "XSS");
}
