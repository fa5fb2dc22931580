//! Forwarding a request to an internal service (`proxy_to_service`): the
//! request's `Cookie` header goes along, and its body with its
//! `Content-Type` when there is a body; the service's status and
//! `Set-Cookie` headers come back. Only failures to reach the service or
//! to read its answer become 502.
use vstd::prelude::*;
use vstd::string::*;
use crate::api_error::ApiError;
use crate::headers::{is_valid_header_value, is_valid_status, valid_header_value};

verus! {

/// A request to send to an internal service: URL, headers (name and value
/// bytes, in order) and body.
pub struct OutboundRequest {
    pub url: String,
    pub headers: Vec<(&'static str, Vec<u8>)>,
    pub body: Option<Vec<u8>>,
}

/// The answer to give the client: status, `Set-Cookie` values to append,
/// and body. Its `Content-Type` is always `application/json`.
pub struct ProxiedResponse {
    pub status: u16,
    pub set_cookies: Vec<Vec<u8>>,
    pub body: Vec<u8>,
}

/// What came back from the service: the request could not be sent, or an
/// answer with its status and `Set-Cookie` values, whose body was read or
/// failed to read.
pub enum UpstreamReply {
    SendFailed(String),
    Received { status: u16, set_cookies: Vec<Vec<u8>>, body: Result<Vec<u8>, String> },
}

pub open spec fn header_seq(headers: Seq<(&'static str, Vec<u8>)>) -> Seq<(Seq<char>, Seq<u8>)> {
    headers.map_values(|h: (&'static str, Vec<u8>)| (h.0@, h.1@))
}

pub open spec fn opt_bytes_view(o: Option<Vec<u8>>) -> Option<Seq<u8>> {
    match o {
        Some(v) => Some(v@),
        None => None,
    }
}

/// The headers a forwarded request carries: `Cookie` when the request had
/// one, then `Content-Type` when there is a body and the request had one.
pub open spec fn forwarded_headers(cookie: Option<Seq<u8>>, content_type: Option<Seq<u8>>, has_body: bool) -> Seq<(Seq<char>, Seq<u8>)> {
    let c = match cookie {
        Some(v) => seq![("Cookie"@, v)],
        None => Seq::empty(),
    };
    let t = match content_type {
        Some(v) => if has_body { seq![("Content-Type"@, v)] } else { Seq::empty() },
        None => Seq::empty(),
    };
    c + t
}

/// The values of `Set-Cookie` that are valid header values, in order.
pub open spec fn valid_cookies(values: Seq<Vec<u8>>) -> Seq<Seq<u8>> {
    values.filter(|v: Vec<u8>| valid_header_value(v@)).map_values(|v: Vec<u8>| v@)
}

/// The status to answer with: the service's own, or 500 for a code that
/// is not a status.
pub open spec fn passed_status(status: u16) -> u16 {
    if is_valid_status(status) { status } else { 500 }
}

/// The request to send to the service (the first half of
/// `proxy_to_service`).
pub fn forward_request(url: &str, cookie: Option<Vec<u8>>, content_type: Option<Vec<u8>>, body: Vec<u8>) -> (r: OutboundRequest)
    ensures
        r.url@ == url@,
        header_seq(r.headers@) == forwarded_headers(
            opt_bytes_view(cookie),
            opt_bytes_view(content_type),
            body@.len() > 0,
        ),
        r.body matches Some(b) ==> b@ == body@,
        r.body is Some <==> body@.len() > 0,
        r.headers@.len() == (if cookie is Some { 1int } else { 0int }) + (if body@.len() > 0
            && content_type is Some { 1int } else { 0int }),
        cookie matches Some(c) ==> r.headers@[0].0@ == "Cookie"@ && r.headers@[0].1@ == c@,
        cookie is None ==> forall|i: int| 0 <= i < r.headers@.len() ==> r.headers@[i].0@ != "Cookie"@,
        (body@.len() > 0 && content_type is Some) ==> r.headers@.last().0@ == "Content-Type"@
            && r.headers@.last().1@ == content_type->0@,
        !(body@.len() > 0 && content_type is Some) ==> forall|i: int|
            0 <= i < r.headers@.len() ==> r.headers@[i].0@ != "Content-Type"@,
{
    let mut headers: Vec<(&'static str, Vec<u8>)> = Vec::new();
    match cookie {
        Some(c) => {
            headers.push(("Cookie", c));
        },
        None => {},
    }
    let has_body = body.len() > 0;
    let mut out_body: Option<Vec<u8>> = None;
    if has_body {
        match content_type {
            Some(ct) => {
                headers.push(("Content-Type", ct));
            },
            None => {},
        }
        out_body = Some(body);
    }
    proof {
        assert(header_seq(headers@) =~= forwarded_headers(
            opt_bytes_view(cookie),
            opt_bytes_view(content_type),
            has_body,
        ));
        lemma_forwarded_headers(opt_bytes_view(cookie), opt_bytes_view(content_type), has_body);
        assert(header_seq(headers@).len() == headers@.len());
        assert forall|i: int| 0 <= i < headers@.len() implies header_seq(headers@)[i] == (
        headers@[i].0@,
        headers@[i].1@,
        ) by {}
    }
    OutboundRequest { url: String::from_str(url), headers, body: out_body }
}

/// A forwarded request carries the request's `Content-Type` exactly when
/// there is a body and the request had one, whatever its `Cookie`; and it
/// carries the `Cookie` exactly when the request had one, first.
pub proof fn lemma_forwarded_headers(cookie: Option<Seq<u8>>, content_type: Option<Seq<u8>>, has_body: bool)
    ensures
        ({
            let h = forwarded_headers(cookie, content_type, has_body);
            &&& h.len() == (if cookie is Some { 1int } else { 0int }) + (if has_body && content_type is Some {
                1int
            } else {
                0int
            })
            &&& (exists|i: int| 0 <= i < h.len() && h[i] == ("Content-Type"@, content_type->0))
                <== (has_body && content_type is Some)
            &&& (has_body && content_type is Some) ==> h.last() == ("Content-Type"@, content_type->0)
            &&& !(has_body && content_type is Some) ==> forall|i: int|
                0 <= i < h.len() ==> h[i].0 != "Content-Type"@
            &&& cookie matches Some(c) ==> h[0] == ("Cookie"@, c)
            &&& cookie is None ==> forall|i: int| 0 <= i < h.len() ==> h[i].0 != "Cookie"@
        }),
{
    reveal_strlit("Cookie");
    reveal_strlit("Content-Type");
    let h = forwarded_headers(cookie, content_type, has_body);
    if has_body && content_type is Some {
        assert(h[h.len() - 1] == ("Content-Type"@, content_type->0));
    }
    assert("Cookie"@ != "Content-Type"@) by {
        assert("Cookie"@.len() != "Content-Type"@.len());
    }
}

/// Keeps the valid header values, in order.
pub fn keep_valid_cookies(values: Vec<Vec<u8>>) -> (r: Vec<Vec<u8>>)
    ensures
        r@.map_values(|v: Vec<u8>| v@) == valid_cookies(values@),
{
    let mut out: Vec<Vec<u8>> = Vec::new();
    let n = values.len();
    let mut i: usize = 0;
    let ghost pred = |v: Vec<u8>| valid_header_value(v@);
    while i < n
        invariant
            n == values@.len(),
            i <= n,
            out@.map_values(|v: Vec<u8>| v@) == values@.take(i as int).filter(pred).map_values(
                |v: Vec<u8>| v@,
            ),
            pred == (|v: Vec<u8>| valid_header_value(v@)),
        decreases n - i,
    {
        let v = &values[i];
        proof {
            reveal_with_fuel(Seq::<_>::filter, 1);
            assert(values@.take(i + 1).drop_last() =~= values@.take(i as int));
        }
        if is_valid_header_value(v.as_slice()) {
            let ghost old_out = out@;
            let w = vstd::slice::slice_to_vec(v.as_slice());
            out.push(w);
            proof {
                let f = |v: Vec<u8>| v@;
                assert(out@ == old_out.push(w));
                assert(out@.map_values(f) =~= old_out.map_values(f).push(w@));
                assert(values@.take(i as int).filter(pred).push(values@[i as int]).map_values(f) =~= values@.take(i as int).filter(pred).map_values(f).push(values@[i as int]@));
                assert(values@.take(i + 1).filter(pred) == values@.take(i as int).filter(pred).push(
                    values@[i as int],
                ));
                assert(out@.map_values(|v: Vec<u8>| v@) =~= values@.take(i + 1).filter(pred).map_values(
                    |v: Vec<u8>| v@,
                ));
            }
        } else {
            proof {
                assert(values@.take(i + 1).filter(pred) == values@.take(i as int).filter(pred));
            }
        }
        i = i + 1;
    }
    assert(values@.take(n as int) =~= values@);
    out
}

/// The answer to give the client (the second half of `proxy_to_service`):
/// 502 `service_unavailable` when the service could not be reached, 502
/// `service_response_failed` when its answer could not be read, and
/// otherwise its status, valid `Set-Cookie` values and body.
pub fn forward_response(reply: UpstreamReply) -> (r: Result<ProxiedResponse, ApiError>)
    ensures
        match reply {
            UpstreamReply::SendFailed(err) => r matches Err(e) && e matches ApiError::BadGateway { error, message }
                && error == "service_unavailable" && message@ == "upstream unreachable: "@ + err@,
            UpstreamReply::Received { status, set_cookies, body } => match body {
                Err(err) => r matches Err(e) && e matches ApiError::BadGateway { error, message }
                    && error == "service_response_failed" && message@ == "failed to read upstream response: "@
                    + err@,
                Ok(b) => r matches Ok(resp) && resp.status == passed_status(status) && resp.body@ == b@
                    && resp.set_cookies@.map_values(|v: Vec<u8>| v@) == valid_cookies(set_cookies@),
            },
        },
{
    match reply {
        UpstreamReply::SendFailed(err) => {
            let mut m = String::from_str("upstream unreachable: ");
            m.append(err.as_str());
            Err(ApiError::bad_gateway("service_unavailable", m))
        },
        UpstreamReply::Received { status, set_cookies, body } => match body {
            Err(err) => {
                let mut m = String::from_str("failed to read upstream response: ");
                m.append(err.as_str());
                Err(ApiError::bad_gateway("service_response_failed", m))
            },
            Ok(b) => {
                let st: u16 = if 100 <= status && status <= 999 { status } else { 500 };
                Ok(ProxiedResponse { status: st, set_cookies: keep_valid_cookies(set_cookies), body: b })
            },
        },
    }
}

} // verus!
