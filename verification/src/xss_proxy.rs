//! The gateway's routes to the XSS/CSRF room (`/rooms/xss/...`): reads go
//! through `proxy_to_service`; writes are posted on behalf of the
//! authenticated user, whose identity the room receives in headers.
use vstd::prelude::*;
use vstd::string::*;
use crate::api_error::ApiError;
use crate::auth::AuthUser;
use crate::digest::utf8_bytes;
use crate::headers::is_valid_status;
use crate::proxy::{header_seq, opt_bytes_view, passed_status, OutboundRequest, ProxiedResponse, UpstreamReply};
use crate::room_registry::{action_url_spec, actions_view, first_with_slug, RoomRegistry};
use crate::text::concat2;

verus! {

/// The URL of a room action (`room_url`): 400 `unknown_room` for a slug
/// that is not registered, 400 `unsupported_action` for an action the room
/// does not accept.
pub fn room_url(registry: &RoomRegistry, slug: &str, action: &str) -> (r: Result<String, ApiError>)
    ensures
        match first_with_slug(registry.targets(), slug@) {
            None => r matches Err(e) && e matches ApiError::BadRequest { error, message } && error
                == "unknown_room" && message@ == "no room configured for slug "@ + slug@,
            Some(t) => if t.supports_spec(action@) {
                r matches Ok(url) && url@ == action_url_spec(t.base_url@, action@)
            } else {
                r matches Err(e) && e matches ApiError::BadRequest { error, message } && error
                    == "unsupported_action" && message@ == "room "@ + slug@ + " does not support action "@
                    + action@
            },
        },
{
    let room = match registry.get(slug) {
        Some(t) => t,
        None => {
            return Err(ApiError::bad_request("unknown_room", concat2("no room configured for slug ", slug)));
        },
    };
    if !room.supports(action) {
        let mut m = String::from_str("room ");
        m.append(slug);
        m.append(" does not support action ");
        m.append(action);
        return Err(ApiError::bad_request("unsupported_action", m));
    }
    Ok(room.action_url(action))
}

/// The headers of a post made for a user: the request's `Content-Type`
/// when it had one, then the user's id and name.
pub open spec fn identity_headers(content_type: Option<Seq<u8>>, user_id: Seq<char>, username: Seq<char>) -> Seq<(Seq<char>, Seq<u8>)> {
    let t = match content_type {
        Some(v) => seq![("Content-Type"@, v)],
        None => Seq::empty(),
    };
    t + seq![("X-Lab-User-Id"@, utf8_bytes(user_id)), ("X-Lab-Username"@, utf8_bytes(username))]
}

/// The post to send to the room for an authenticated user (the first half
/// of `proxy_authed_post`); the body goes along as it came.
pub fn authed_post_request(url: String, user: &AuthUser, content_type: Option<Vec<u8>>, body: Vec<u8>) -> (r: OutboundRequest)
    ensures
        r.url@ == url@,
        header_seq(r.headers@) == identity_headers(opt_bytes_view(content_type), user.user_id@, user.username@),
        r.body matches Some(b) && b@ == body@,
{
    let mut headers: Vec<(&'static str, Vec<u8>)> = Vec::new();
    match content_type {
        Some(ct) => {
            headers.push(("Content-Type", ct));
        },
        None => {},
    }
    headers.push(("X-Lab-User-Id", user.user_id.as_str().as_bytes_vec()));
    headers.push(("X-Lab-Username", user.username.as_str().as_bytes_vec()));
    proof {
        assert(header_seq(headers@) =~= identity_headers(
            opt_bytes_view(content_type),
            user.user_id@,
            user.username@,
        ));
    }
    OutboundRequest { url, headers, body: Some(body) }
}

/// The answer to give the client (the second half of `proxy_authed_post`):
/// 502 `room_unavailable` when the room could not be reached, 502
/// `room_response_failed` when its answer could not be read, and otherwise
/// its status and body. No cookie of the room is passed on.
pub fn authed_post_response(slug: &str, reply: UpstreamReply) -> (r: Result<ProxiedResponse, ApiError>)
    ensures
        match reply {
            UpstreamReply::SendFailed(err) => r matches Err(e) && e matches ApiError::BadGateway { error, message }
                && error == "room_unavailable" && message@ == "room "@ + slug@ + " unreachable: "@ + err@,
            UpstreamReply::Received { status, body, .. } => match body {
                Err(err) => r matches Err(e) && e matches ApiError::BadGateway { error, message }
                    && error == "room_response_failed" && message@ == "failed to read room "@ + slug@
                    + " response: "@ + err@,
                Ok(b) => r matches Ok(resp) && resp.status == passed_status(status) && resp.body@ == b@
                    && resp.set_cookies@.len() == 0,
            },
        },
{
    match reply {
        UpstreamReply::SendFailed(err) => {
            let mut m = String::from_str("room ");
            m.append(slug);
            m.append(" unreachable: ");
            m.append(err.as_str());
            Err(ApiError::bad_gateway("room_unavailable", m))
        },
        UpstreamReply::Received { status, body, .. } => match body {
            Err(err) => {
                let mut m = String::from_str("failed to read room ");
                m.append(slug);
                m.append(" response: ");
                m.append(err.as_str());
                Err(ApiError::bad_gateway("room_response_failed", m))
            },
            Ok(b) => {
                let st: u16 = if 100 <= status && status <= 999 { status } else { 500 };
                Ok(ProxiedResponse { status: st, set_cookies: Vec::new(), body: b })
            },
        },
    }
}

/// The default registry forwards no `reset` to any room: the XSS room's
/// actions do not include it.
pub proof fn lemma_reset_is_never_forwarded(registry: RoomRegistry, slug: Seq<char>)
    requires
        registry.targets().len() == 2,
        actions_view(registry.targets()[0].actions@) == seq!["exec"@],
        actions_view(registry.targets()[1].actions@) == seq!["post"@, "comments"@, "change-password"@],
    ensures
        first_with_slug(registry.targets(), slug) matches Some(t) ==> !t.supports_spec("reset"@),
{
    reveal_strlit("reset");
    reveal_strlit("exec");
    reveal_strlit("post");
    reveal_strlit("comments");
    reveal_strlit("change-password");
    let ts = registry.targets();
    assert(ts.drop_first().drop_first().len() == 0);
    reveal_with_fuel(first_with_slug, 3);
    assert(ts.drop_first()[0] == ts[1]);
    if let Some(t) = first_with_slug(ts, slug) {
        assert(t == ts[0] || t == ts[1]);
        assert(!seq!["exec"@].contains("reset"@)) by {
            assert("exec"@ != "reset"@) by {
                assert("exec"@.len() != "reset"@.len());
            }
        }
        assert(!seq!["post"@, "comments"@, "change-password"@].contains("reset"@)) by {
            assert("post"@ != "reset"@) by {
                assert("post"@.len() != "reset"@.len());
            }
            assert("comments"@ != "reset"@) by {
                assert("comments"@.len() != "reset"@.len());
            }
            assert("change-password"@ != "reset"@) by {
                assert("change-password"@.len() != "reset"@.len());
            }
        }
    }
}

} // verus!
