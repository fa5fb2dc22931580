use exp_box::api_error::ApiError;
use exp_box::room_actions::{action_call, room_target};
use exp_box::room_registry::RoomRegistry;
use exp_box::xss_proxy::room_url;

#[test]
fn default_registry_holds_the_two_rooms() {
    let registry = RoomRegistry::default();
    let rce = registry.get("rce").expect("rce is registered");
    assert_eq!(rce.slug, "rce");
    assert_eq!(rce.base_url, "http://room-rce:9000");
    assert_eq!(rce.actions, &["exec"]);
    let xss = registry.get("xss").expect("xss is registered");
    assert_eq!(xss.base_url, "http://room-xss:9000");
    assert_eq!(xss.actions, &["post", "comments", "change-password"]);
    assert!(registry.get("sqli").is_none());
    assert!(registry.get("").is_none());
    assert!(registry.get("RCE").is_none());
}

#[test]
fn action_url_joins_with_one_slash() {
    let rce = RoomRegistry::default().get("rce").unwrap();
    assert_eq!(rce.action_url("exec"), "http://room-rce:9000/exec");
    assert_eq!(rce.action_url("/exec"), "http://room-rce:9000/exec");
    assert_eq!(rce.action_url("///exec"), rce.action_url("exec"));
}

#[test]
fn supports_lists_only_registered_actions() {
    let xss = RoomRegistry::default().get("xss").unwrap();
    assert!(xss.supports("comments"));
    assert!(xss.supports("change-password"));
    assert!(!xss.supports("reset"));
    assert!(!xss.supports("exec"));
}

fn bad_request_parts(e: ApiError) -> (&'static str, String) {
    match e {
        ApiError::BadRequest { error, message } => (error, message),
        other => panic!("expected a bad request, got status {}", other.into_parts().0),
    }
}

#[test]
fn room_target_refuses_unknown_slug() {
    let registry = RoomRegistry::default();
    assert_eq!(room_target(&registry, "rce").unwrap().slug, "rce");
    let (code, message) = bad_request_parts(room_target(&registry, "nope").err().unwrap());
    assert_eq!(code, "unknown_room");
    assert_eq!(message, "room target is not configured for slug nope");
}

#[test]
fn action_call_checks_room_and_action() {
    let registry = RoomRegistry::default();
    let call = action_call(&registry, "rce", "exec").ok().unwrap();
    assert_eq!(call.room_slug, "rce");
    assert_eq!(call.url, "http://room-rce:9000/exec");
    let (code, message) = bad_request_parts(action_call(&registry, "rce", "rm").err().unwrap());
    assert_eq!(code, "unsupported_room_action");
    assert_eq!(message, "room rce does not support action rm");
    let (code, _) = bad_request_parts(action_call(&registry, "zzz", "exec").err().unwrap());
    assert_eq!(code, "unknown_room");
}

#[test]
fn room_url_checks_room_and_action() {
    let registry = RoomRegistry::default();
    assert_eq!(room_url(&registry, "xss", "comments").ok().unwrap(), "http://room-xss:9000/comments");
    assert_eq!(room_url(&registry, "xss", "post").ok().unwrap(), "http://room-xss:9000/post");
    let (code, message) = bad_request_parts(room_url(&registry, "abc", "post").err().unwrap());
    assert_eq!(code, "unknown_room");
    assert_eq!(message, "no room configured for slug abc");
    let (code, message) = bad_request_parts(room_url(&registry, "xss", "exec").err().unwrap());
    assert_eq!(code, "unsupported_action");
    assert_eq!(message, "room xss does not support action exec");
}

#[test]
fn reset_is_never_forwarded() {
    let registry = RoomRegistry::default();
    for slug in ["rce", "xss", "other"] {
        assert!(room_url(&registry, slug, "reset").is_err());
    }
}

#[test]
fn api_error_statuses() {
    assert_eq!(ApiError::bad_gateway("x", "m".to_string()).into_parts(), (502, "x", "m".to_string()));
    assert_eq!(ApiError::internal("y", "n".to_string()).into_parts(), (500, "y", "n".to_string()));
    assert_eq!(ApiError::bad_request("z", "o".to_string()).into_parts(), (400, "z", "o".to_string()));
}
