//! Anonymous play: a visitor is tracked by an `sid` cookie, the RCE room is
//! called directly, and a correct flag marks the room solved for that
//! `sid`.
use vstd::prelude::*;
use vstd::string::*;
use crate::api_error::ApiError;
use crate::digest::{flag_digest, flag_digest_spec, hex_spec, sha256_spec, utf8_bytes};
use crate::text::trim_spec;
use crate::headers::{is_success, is_success_status, is_valid_status, status_display, status_text};
use crate::ids::{is_v4_uuid, new_id};
use crate::json::{json_accepts, json_compact, json_error_text, parse_json_value};
use crate::room_actions::RoomReply;

verus! {

/// What the RCE room's answer becomes (`exec`): 502 when the room could not
/// be reached (`room_unavailable`), its answer could not be read
/// (`room_response_read_failed`), was outside 2xx (`room_bad_status`) or was
/// not JSON (`room_invalid_json`); its JSON otherwise.
pub fn rce_exec_result(reply: RoomReply) -> (r: Result<String, ApiError>)
    requires
        reply matches RoomReply::Received { status, .. } ==> is_valid_status(status),
    ensures
        match reply {
            RoomReply::SendFailed(err) => r matches Err(e) && e matches ApiError::BadGateway { error, message }
                && error == "room_unavailable" && message@ == "failed to call room-rce: "@ + err@,
            RoomReply::ReadFailed(err) => r matches Err(e) && e matches ApiError::BadGateway { error, message }
                && error == "room_response_read_failed" && message@ == "failed to read room-rce response body: "@
                + err@,
            RoomReply::Received { status, text } => if !is_success_status(status) {
                r matches Err(e) && e matches ApiError::BadGateway { error, message } && error
                    == "room_bad_status" && message@ == "room-rce returned status "@ + status_display(status)
                    + ": "@ + text@
            } else if json_accepts(text@) {
                r matches Ok(json) && json@ == json_compact(text@)
            } else {
                r matches Err(e) && e matches ApiError::BadGateway { error, message } && error
                    == "room_invalid_json" && message@ == "failed to parse room-rce response as JSON: "@
                    + json_error_text(text@) + "; body: "@ + text@
            },
        },
{
    match reply {
        RoomReply::SendFailed(err) => {
            let mut m = String::from_str("failed to call room-rce: ");
            m.append(err.as_str());
            Err(ApiError::bad_gateway("room_unavailable", m))
        },
        RoomReply::ReadFailed(err) => {
            let mut m = String::from_str("failed to read room-rce response body: ");
            m.append(err.as_str());
            Err(ApiError::bad_gateway("room_response_read_failed", m))
        },
        RoomReply::Received { status, text } => {
            if !is_success(status) {
                let st = status_text(status);
                let mut m = String::from_str("room-rce returned status ");
                m.append(st.as_str());
                m.append(": ");
                m.append(text.as_str());
                return Err(ApiError::bad_gateway("room_bad_status", m));
            }
            match parse_json_value(text.as_str()) {
                Ok(json) => Ok(json),
                Err(err) => {
                    let mut m = String::from_str("failed to parse room-rce response as JSON: ");
                    m.append(err.as_str());
                    m.append("; body: ");
                    m.append(text.as_str());
                    Err(ApiError::bad_gateway("room_invalid_json", m))
                },
            }
        },
    }
}

/// What the RCE room's answer becomes for the plain handler: any failure
/// to reach the room, read its answer or read that as JSON is 502, and the
/// room's status is not looked at.
pub fn plain_exec_result(reply: RoomReply) -> (r: Result<String, u16>)
    ensures
        match reply {
            RoomReply::Received { text, .. } => if json_accepts(text@) {
                r matches Ok(json) && json@ == json_compact(text@)
            } else {
                r == Err::<String, u16>(502)
            },
            _ => r == Err::<String, u16>(502),
        },
{
    match reply {
        RoomReply::Received { text, .. } => match parse_json_value(text.as_str()) {
            Ok(json) => Ok(json),
            Err(_) => Err(502),
        },
        _ => Err(502),
    }
}

/// Whether a submitted flag matches the stored digest of the RCE room (none
/// stored: never).
pub fn flag_matches(flag: &str, stored: Option<String>) -> (r: bool)
    ensures
        r == (stored matches Some(h) && h@ == flag_digest_spec(flag@)),
        r == (stored matches Some(h) && h@ == hex_spec(sha256_spec(utf8_bytes(trim_spec(flag@))))),
{
    let hash = flag_digest(flag);
    match stored {
        Some(h) => h == hash,
        None => false,
    }
}

/// The visitor's `sid`: the one its cookie carries, or a fresh one.
pub fn session_id_or_new(existing: Option<String>) -> (r: String)
    ensures
        match existing {
            Some(s) => r == s,
            None => is_v4_uuid(r@),
        },
{
    match existing {
        Some(s) => s,
        None => new_id(),
    }
}

} // verus!
