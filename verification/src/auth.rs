//! Platform authentication at the gateway: the `lab_session` cookie is read
//! from the request's `Cookie` header and verified against the auth
//! service.
//!
//! The exchange with the auth service is I/O; this module holds its
//! decisions: which session to verify, and what each answer of the auth
//! service means for the request (401, 502 or an authenticated user).
use vstd::prelude::*;
use vstd::string::*;
use crate::headers::{header_text, header_text_spec, is_success, is_success_status};
use crate::text::{
    is_ws, lemma_first_index_of_skip, lemma_trim_end_take, lemma_trim_start_skip, split_spec,
    strip_prefix, strip_prefix_spec, trim, trim_spec, ws_pred,
};

verus! {

/// Authenticated platform user, resolved from the `lab_session` cookie.
pub struct AuthUser {
    pub user_id: String,
    pub username: String,
}

/// The body sent to the auth service's session check.
pub struct VerifyRequest {
    pub session_id: String,
}

/// The body the auth service answers a valid session with.
pub struct VerifyResponse {
    pub user_id: String,
    pub username: String,
}

/// A refused request: its status and its JSON error body.
pub struct Rejection {
    pub status: u16,
    pub error: &'static str,
    pub message: &'static str,
}

pub open spec fn session_prefix() -> Seq<char> {
    "lab_session="@
}

/// The session carried by one `;`-separated piece of a `Cookie` header.
pub open spec fn session_in_part(part: Seq<char>) -> Option<Seq<char>> {
    strip_prefix_spec(trim_spec(part), session_prefix())
}

/// The session of the first piece that carries one.
pub open spec fn first_session(parts: Seq<Seq<char>>) -> Option<Seq<char>>
    decreases parts.len(),
{
    if parts.len() == 0 {
        None
    } else {
        match session_in_part(parts[0]) {
            Some(v) => Some(v),
            None => first_session(parts.drop_first()),
        }
    }
}

/// The session named by a `Cookie` header's text.
pub open spec fn session_in_cookie_text(text: Seq<char>) -> Option<Seq<char>> {
    first_session(split_spec(text, ';'))
}

/// The session named by the bytes of a request's `Cookie` header, if any.
pub open spec fn session_in_cookie_header(header: Option<Seq<u8>>) -> Option<Seq<char>> {
    match header {
        None => None,
        Some(bytes) => match header_text_spec(bytes) {
            None => None,
            Some(text) => session_in_cookie_text(text),
        },
    }
}

pub open spec fn opt_bytes(o: Option<&[u8]>) -> Option<Seq<u8>> {
    match o {
        Some(b) => Some(b@),
        None => None,
    }
}

/// The session named by a `Cookie` header's text.
pub fn session_from_cookie_text(h: &str) -> (r: Option<String>)
    ensures
        r matches Some(v) ==> session_in_cookie_text(h@) == Some(v@),
        r is None ==> session_in_cookie_text(h@) is None,
{
    let n = h.unicode_len();
    let mut pos: usize = 0;
    assert(h@.skip(0) =~= h@);
    loop
        invariant
            n == h@.len(),
            pos <= n,
            session_in_cookie_text(h@) == first_session(split_spec(h@.skip(pos as int), ';')),
        decreases n - pos,
    {
        let mut k: usize = pos;
        while k < n && h.get_char(k) != ';'
            invariant
                n == h@.len(),
                pos <= k <= n,
                forall|i: int| pos <= i < k ==> #[trigger] h@[i] != ';',
            decreases n - k,
        {
            k = k + 1;
        }
        let part = h.substring_char(pos, k);
        let ghost s = h@.skip(pos as int);
        proof {
            lemma_first_index_of_skip(h@, ';', pos as int, k as int);
            assert(s.take(k - pos) =~= part@);
            if k < n {
                assert(s.skip(k - pos + 1) =~= h@.skip(k + 1));
                assert(split_spec(s, ';') == seq![s.take(k - pos)] + split_spec(
                    s.skip(k - pos + 1),
                    ';',
                ));
                let parts = split_spec(s, ';');
                assert(parts[0] == part@);
                assert(parts.drop_first() =~= split_spec(h@.skip(k + 1), ';'));
            } else {
                assert(s =~= part@);
                assert(split_spec(s, ';') == seq![s]);
                assert(seq![s].drop_first() =~= Seq::<Seq<char>>::empty());
            }
        }
        let t = trim(part);
        match strip_prefix(t, "lab_session=") {
            Some(v) => {
                return Some(String::from_str(v));
            },
            None => {},
        }
        proof {
            let parts = split_spec(s, ';');
            assert(session_in_part(parts[0]) is None);
            assert(first_session(parts) == first_session(parts.drop_first()));
        }
        if k == n {
            proof {
                assert(first_session(Seq::<Seq<char>>::empty()) is None);
            }
            return None;
        }
        pos = k + 1;
    }
}

/// The `lab_session` cookie of a request, from the bytes of its `Cookie`
/// header: the first `;`-separated piece that, trimmed, starts with
/// `lab_session=`, without that prefix. A header that is not visible ASCII
/// names no session.
pub fn extract_session_cookie(cookie_header: Option<&[u8]>) -> (r: Option<String>)
    ensures
        r matches Some(v) ==> session_in_cookie_header(opt_bytes(cookie_header)) == Some(v@),
        r is None ==> session_in_cookie_header(opt_bytes(cookie_header)) is None,
{
    match cookie_header {
        None => None,
        Some(bytes) => match header_text(bytes) {
            None => None,
            Some(text) => session_from_cookie_text(text.as_str()),
        },
    }
}

/// A refusal with its status and error body.
pub fn reject(status: u16, error: &'static str, message: &'static str) -> (r: Rejection)
    ensures
        r.status == status,
        r.error == error,
        r.message == message,
{
    Rejection { status, error, message }
}

/// `{auth_service_url}/sessions/verify`.
pub fn verify_url(auth_service_url: &str) -> (r: String)
    ensures
        r@ == auth_service_url@ + "/sessions/verify"@,
{
    let mut u = String::from_str(auth_service_url);
    u.append("/sessions/verify");
    u
}

/// Step one of authenticating a request: the session to verify, or 401
/// `unauthorized` ("not authenticated") when the request names none.
pub fn session_or_reject(cookie_header: Option<&[u8]>) -> (r: Result<VerifyRequest, Rejection>)
    ensures
        match session_in_cookie_header(opt_bytes(cookie_header)) {
            Some(v) => r matches Ok(req) && req.session_id@ == v,
            None => r matches Err(rej) && rej.status == 401 && rej.error == "unauthorized"
                && rej.message == "not authenticated",
        },
{
    match extract_session_cookie(cookie_header) {
        Some(session_id) => Ok(VerifyRequest { session_id }),
        None => Err(reject(401, "unauthorized", "not authenticated")),
    }
}

/// Step two: what the auth service's status means. `sent` is `None` when
/// the request could not be sent (502 `auth_service_unavailable`); a status
/// outside 2xx means the session is invalid or expired (401); a 2xx status
/// means the identity is to be read from the body.
pub fn check_verify_status(sent: Option<u16>) -> (r: Result<(), Rejection>)
    ensures
        match sent {
            None => r matches Err(rej) && rej.status == 502 && rej.error == "auth_service_unavailable"
                && rej.message == "authentication service is temporarily unavailable",
            Some(code) => if is_success_status(code) {
                r is Ok
            } else {
                r matches Err(rej) && rej.status == 401 && rej.error == "unauthorized" && rej.message
                    == "session is invalid or expired"
            },
        },
{
    match sent {
        None => Err(
            reject(502, "auth_service_unavailable", "authentication service is temporarily unavailable"),
        ),
        Some(code) => if is_success(code) {
            Ok(())
        } else {
            Err(reject(401, "unauthorized", "session is invalid or expired"))
        },
    }
}

/// Step three: the identity in the auth service's answer; `None` when the
/// body could not be read as one (502 `auth_service_unavailable`).
pub fn identity_from_body(body: Option<VerifyResponse>) -> (r: Result<AuthUser, Rejection>)
    ensures
        match body {
            Some(b) => r matches Ok(u) && u.user_id == b.user_id && u.username == b.username,
            None => r matches Err(rej) && rej.status == 502 && rej.error == "auth_service_unavailable"
                && rej.message == "authentication service is temporarily unavailable",
        },
{
    match body {
        Some(b) => Ok(AuthUser { user_id: b.user_id, username: b.username }),
        None => Err(
            reject(502, "auth_service_unavailable", "authentication service is temporarily unavailable"),
        ),
    }
}

/// A request whose `Cookie` header is exactly `lab_session=<v>` names `v`,
/// when `v` holds no `;` and does not end in whitespace.
pub proof fn lemma_session_cookie_roundtrip(v: Seq<char>)
    requires
        forall|i: int| 0 <= i < v.len() ==> #[trigger] v[i] != ';',
        v.len() == 0 || !is_ws(v.last()),
    ensures
        session_in_cookie_text(session_prefix() + v) == Some(v),
{
    reveal_strlit("lab_session=");
    let h = session_prefix() + v;
    assert forall|i: int| 0 <= i < h.len() implies #[trigger] h[i] != ';' by {
        if i >= 12 {
            assert(h[i] == v[i - 12]);
        }
    }
    lemma_first_index_of_skip(h, ';', 0, h.len() as int);
    assert(h.skip(0) =~= h);
    assert(split_spec(h, ';') == seq![h]);
    // trimming keeps the whole header: it starts with 'l' and ends in no whitespace
    lemma_trim_start_skip(h, ws_pred(), 0);
    assert(h.skip(0) =~= h);
    if v.len() > 0 {
        assert(h[h.len() - 1] == v.last());
    } else {
        assert(h[h.len() - 1] == '=');
    }
    lemma_trim_end_take(h, ws_pred(), h.len() as int);
    assert(h.take(h.len() as int) =~= h);
    assert(trim_spec(h) == h);
    assert(session_prefix().is_prefix_of(h)) by {
        assert forall|i: int| 0 <= i < session_prefix().len() implies session_prefix()[i] == h[i] by {
        }
    }
    assert(h.skip(12) =~= v);
}

/// A cookie piece that names no session does not change which session a
/// header names: `<other>;<rest>` names what `<rest>` names.
pub proof fn lemma_other_cookie_skipped(other: Seq<char>, rest: Seq<char>)
    requires
        forall|i: int| 0 <= i < other.len() ==> #[trigger] other[i] != ';',
        session_in_part(other) is None,
    ensures
        session_in_cookie_text(other + seq![';'] + rest) == session_in_cookie_text(rest),
{
    let h = other + seq![';'] + rest;
    let k = other.len() as int;
    assert forall|i: int| 0 <= i < k implies #[trigger] h[i] != ';' by {
        assert(h[i] == other[i]);
    }
    assert(h[k] == ';');
    lemma_first_index_of_skip(h, ';', 0, k);
    assert(h.skip(0) =~= h);
    assert(h.take(k) =~= other);
    assert(h.skip(k + 1) =~= rest);
    let parts = split_spec(h, ';');
    assert(parts == seq![other] + split_spec(rest, ';'));
    assert(parts[0] == other);
    assert(parts.drop_first() =~= split_spec(rest, ';'));
}

} // verus!
