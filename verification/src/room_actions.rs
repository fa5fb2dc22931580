//! Room actions and flag submissions through the gateway
//! (`/rooms/{slug}/actions/{action}` and `/rooms/{slug}/submit`).
//!
//! Forwarding an action is I/O; this module decides where it goes, whether
//! it may go at all, and what the room's answer becomes. A submission is
//! judged here; recording the solve is the caller's database write.
use vstd::prelude::*;
use vstd::string::*;
use crate::api_error::ApiError;
use crate::digest::{flag_digest, flag_digest_spec, hex_spec, sha256_spec, utf8_bytes};
use crate::headers::{is_success, is_success_status, is_valid_status, status_display, status_text};
use crate::json::{json_accepts, json_compact, json_error_text, parse_json_value};
use crate::room_registry::{action_url_spec, first_with_slug, RoomRegistry, RoomTarget};
use crate::text::{concat2, trim_spec};

verus! {

pub struct SubmitRequest {
    pub flag: String,
}

pub struct SubmitResponse {
    pub correct: bool,
}

/// A room's row as the submission reads it: its id and stored flag digest.
pub struct RoomFlag {
    pub id: i64,
    pub flag_hash: String,
}

/// Where an accepted action is forwarded.
pub struct ActionCall {
    pub room_slug: &'static str,
    pub url: String,
}

/// What came back from forwarding an action: the request could not be
/// sent, the answer's body could not be read, or the answer itself.
pub enum RoomReply {
    SendFailed(String),
    ReadFailed(String),
    Received { status: u16, text: String },
}

pub open spec fn is_bad_request(e: ApiError, code: &'static str, message: Seq<char>) -> bool {
    e matches ApiError::BadRequest { error, message: m } && error == code && m@ == message
}

pub open spec fn is_bad_gateway(e: ApiError, code: &'static str, message: Seq<char>) -> bool {
    e matches ApiError::BadGateway { error, message: m } && error == code && m@ == message
}

/// The target of a room slug; 400 `unknown_room` for a slug that is not
/// registered.
pub fn room_target(registry: &RoomRegistry, slug: &str) -> (r: Result<RoomTarget, ApiError>)
    ensures
        match first_with_slug(registry.targets(), slug@) {
            Some(t) => r == Ok::<RoomTarget, ApiError>(t),
            None => r matches Err(e) && is_bad_request(
                e,
                "unknown_room",
                "room target is not configured for slug "@ + slug@,
            ),
        },
{
    match registry.get(slug) {
        Some(t) => Ok(t),
        None => Err(
            ApiError::bad_request("unknown_room", concat2("room target is not configured for slug ", slug)),
        ),
    }
}

/// Where an action goes (the first half of `proxy_action`): the room must
/// be registered and must accept the action (400 `unsupported_room_action`
/// otherwise); the action is then posted to the room's action URL.
pub fn action_call(registry: &RoomRegistry, slug: &str, action: &str) -> (r: Result<ActionCall, ApiError>)
    ensures
        match first_with_slug(registry.targets(), slug@) {
            None => r matches Err(e) && is_bad_request(
                e,
                "unknown_room",
                "room target is not configured for slug "@ + slug@,
            ),
            Some(t) => if t.supports_spec(action@) {
                r matches Ok(call) && call.room_slug == t.slug && call.url@ == action_url_spec(
                    t.base_url@,
                    action@,
                )
            } else {
                r matches Err(e) && is_bad_request(
                    e,
                    "unsupported_room_action",
                    "room "@ + slug@ + " does not support action "@ + action@,
                )
            },
        },
{
    let room = match room_target(registry, slug) {
        Ok(t) => t,
        Err(e) => {
            return Err(e);
        },
    };
    if !room.supports(action) {
        let mut m = String::from_str("room ");
        m.append(slug);
        m.append(" does not support action ");
        m.append(action);
        return Err(ApiError::bad_request("unsupported_room_action", m));
    }
    Ok(ActionCall { room_slug: room.slug, url: room.action_url(action) })
}

/// What the room's answer becomes (the second half of `proxy_action`):
/// failures to reach the room or to read its answer, and answers outside
/// 2xx, are 502; a 2xx answer must be JSON, which is passed on.
pub fn action_result(room_slug: &str, reply: RoomReply) -> (r: Result<String, ApiError>)
    requires
        reply matches RoomReply::Received { status, .. } ==> is_valid_status(status),
    ensures
        match reply {
            RoomReply::SendFailed(err) => r matches Err(e) && is_bad_gateway(
                e,
                "room_unavailable",
                "failed to call "@ + room_slug@ + " room target: "@ + err@,
            ),
            RoomReply::ReadFailed(err) => r matches Err(e) && is_bad_gateway(
                e,
                "room_response_read_failed",
                "failed to read "@ + room_slug@ + " room response body: "@ + err@,
            ),
            RoomReply::Received { status, text } => if !is_success_status(status) {
                r matches Err(e) && is_bad_gateway(
                    e,
                    "room_bad_status",
                    room_slug@ + " room returned status "@ + status_display(status) + ": "@ + text@,
                )
            } else if json_accepts(text@) {
                r matches Ok(json) && json@ == json_compact(text@)
            } else {
                r matches Err(e) && is_bad_gateway(
                    e,
                    "room_invalid_json",
                    "failed to parse "@ + room_slug@ + " room response as JSON: "@ + json_error_text(
                        text@,
                    ) + "; body: "@ + text@,
                )
            },
        },
{
    match reply {
        RoomReply::SendFailed(err) => {
            let mut m = String::from_str("failed to call ");
            m.append(room_slug);
            m.append(" room target: ");
            m.append(err.as_str());
            Err(ApiError::bad_gateway("room_unavailable", m))
        },
        RoomReply::ReadFailed(err) => {
            let mut m = String::from_str("failed to read ");
            m.append(room_slug);
            m.append(" room response body: ");
            m.append(err.as_str());
            Err(ApiError::bad_gateway("room_response_read_failed", m))
        },
        RoomReply::Received { status, text } => {
            if !is_success(status) {
                let st = status_text(status);
                let mut m = String::from_str(room_slug);
                m.append(" room returned status ");
                m.append(st.as_str());
                m.append(": ");
                m.append(text.as_str());
                return Err(ApiError::bad_gateway("room_bad_status", m));
            }
            match parse_json_value(text.as_str()) {
                Ok(json) => Ok(json),
                Err(err) => {
                    let mut m = String::from_str("failed to parse ");
                    m.append(room_slug);
                    m.append(" room response as JSON: ");
                    m.append(err.as_str());
                    m.append("; body: ");
                    m.append(text.as_str());
                    Err(ApiError::bad_gateway("room_invalid_json", m))
                },
            }
        },
    }
}

/// Whether a submitted flag is the room's flag: the room exists and its
/// stored digest is `hex(sha256(flag.trim()))`.
pub open spec fn submission_correct(flag: Seq<char>, room: Option<RoomFlag>) -> bool {
    room matches Some(rf) && rf.flag_hash@ == flag_digest_spec(flag)
}

/// A room whose stored digest is that of its flag judges correct every
/// submission equal to the flag once both are trimmed.
pub proof fn lemma_room_flag_accepted(submitted: Seq<char>, room_flag: Seq<char>, rf: RoomFlag)
    requires
        rf.flag_hash@ == hex_spec(sha256_spec(utf8_bytes(trim_spec(room_flag)))),
        trim_spec(submitted) == trim_spec(room_flag),
    ensures
        submission_correct(submitted, Some(rf)),
{
}

/// The judgement of a submission (`submit_for_slug`): whether it is
/// correct, and the room to record as solved by the user when it is.
pub fn judge_submission(flag: &str, room: Option<RoomFlag>) -> (r: (SubmitResponse, Option<i64>))
    ensures
        r.0.correct == submission_correct(flag@, room),
        r.0.correct == (room matches Some(rf) && rf.flag_hash@ == hex_spec(
            sha256_spec(utf8_bytes(trim_spec(flag@))),
        )),
        r.1 == (if r.0.correct {
            Some(room->0.id)
        } else {
            None::<i64>
        }),
{
    let hash = flag_digest(flag);
    match room {
        Some(rf) => {
            let correct = rf.flag_hash == hash;
            if correct {
                (SubmitResponse { correct: true }, Some(rf.id))
            } else {
                (SubmitResponse { correct: false }, None)
            }
        },
        None => (SubmitResponse { correct: false }, None),
    }
}

} // verus!
