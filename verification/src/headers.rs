//! Header values as raw bytes: which bytes a header value may hold, when a
//! value reads as text, and HTTP status codes.
use vstd::prelude::*;
use vstd::string::*;
use vstd::utf8::*;

verus! {

/// A byte that `HeaderValue::to_str` accepts: visible ASCII or tab.
pub open spec fn is_visible_ascii(b: u8) -> bool {
    (32 <= b && b < 127) || b == 9
}

/// A byte that `HeaderValue::from_bytes` accepts: anything but control
/// characters other than tab, and DEL.
pub open spec fn is_valid_header_byte(b: u8) -> bool {
    (32 <= b && b != 127) || b == 9
}

pub open spec fn all_visible_ascii(bytes: Seq<u8>) -> bool {
    forall|i: int| 0 <= i < bytes.len() ==> is_visible_ascii(#[trigger] bytes[i])
}

pub open spec fn valid_header_value(bytes: Seq<u8>) -> bool {
    forall|i: int| 0 <= i < bytes.len() ==> is_valid_header_byte(#[trigger] bytes[i])
}

/// The characters of a sequence of ASCII bytes.
pub open spec fn ascii_chars(bytes: Seq<u8>) -> Seq<char> {
    bytes.map_values(|b: u8| b as char)
}

/// A header value read as text: `Some` exactly when every byte is visible
/// ASCII, and then the characters are the bytes.
pub open spec fn header_text_spec(bytes: Seq<u8>) -> Option<Seq<char>> {
    if all_visible_ascii(bytes) {
        Some(ascii_chars(bytes))
    } else {
        None
    }
}

/// A status code that `StatusCode::from_u16` accepts.
pub open spec fn is_valid_status(code: u16) -> bool {
    100 <= code <= 999
}

/// `StatusCode::is_success`.
pub open spec fn is_success_status(code: u16) -> bool {
    200 <= code < 300
}

pub proof fn lemma_ascii_decode(bytes: Seq<u8>)
    requires
        forall|i: int| 0 <= i < bytes.len() ==> #[trigger] bytes[i] < 0x80,
    ensures
        valid_utf8(bytes),
        decode_utf8(bytes) == ascii_chars(bytes),
    decreases bytes.len(),
{
    if bytes.len() > 0 {
        let b = bytes[0];
        assert(b & 0x7F == b) by (bit_vector)
            requires
                b < 0x80,
        ;
        let rest = bytes.subrange(1, bytes.len() as int);
        assert(pop_first_scalar(bytes) == rest);
        assert forall|i: int| 0 <= i < rest.len() implies #[trigger] rest[i] < 0x80 by {
            assert(rest[i] == bytes[i + 1]);
        }
        lemma_ascii_decode(rest);
        assert(ascii_chars(bytes) =~= seq![b as char] + ascii_chars(rest));
    }
}

/// `std::str::from_utf8`, keeping only the successful decode.
///
/// Contract: it succeeds exactly on valid UTF-8, and the text is what the
/// bytes encode (as `str::from_utf8` documents).
#[verifier::external_body]
fn str_from_utf8(bytes: &[u8]) -> (r: Option<&str>)
    ensures
        r is Some <==> valid_utf8(bytes@),
        r matches Some(s) ==> s@ == decode_utf8(bytes@),
{
    std::str::from_utf8(bytes).ok()
}

/// `HeaderValue::to_str` on the bytes of a header value.
pub fn header_text(bytes: &[u8]) -> (r: Option<String>)
    ensures
        r matches Some(s) ==> header_text_spec(bytes@) == Some(s@),
        r is None ==> header_text_spec(bytes@) is None,
{
    let n = bytes.len();
    let mut i: usize = 0;
    while i < n
        invariant
            n == bytes@.len(),
            i <= n,
            forall|k: int| 0 <= k < i ==> is_visible_ascii(#[trigger] bytes@[k]),
        decreases n - i,
    {
        let b = bytes[i];
        if !((32 <= b && b < 127) || b == 9) {
            return None;
        }
        i = i + 1;
    }
    proof {
        lemma_ascii_decode(bytes@);
    }
    match str_from_utf8(bytes) {
        Some(s) => Some(String::from_str(s)),
        None => None,
    }
}

/// Whether every byte may stand in a header value (`HeaderValue::from_bytes`).
pub fn is_valid_header_value(bytes: &[u8]) -> (r: bool)
    ensures
        r == valid_header_value(bytes@),
{
    let n = bytes.len();
    let mut i: usize = 0;
    while i < n
        invariant
            n == bytes@.len(),
            i <= n,
            forall|k: int| 0 <= k < i ==> is_valid_header_byte(#[trigger] bytes@[k]),
        decreases n - i,
    {
        let b = bytes[i];
        if !((32 <= b && b != 127) || b == 9) {
            return false;
        }
        i = i + 1;
    }
    true
}

/// The text `StatusCode`'s `Display` writes for a code: the number and its
/// canonical reason phrase.
pub uninterp spec fn status_display(code: u16) -> Seq<char>;

/// `StatusCode::from_u16(code)` written with `Display`.
///
/// Contract: the text is the named result `status_display` of the code.
/// `from_u16` accepts every code from 100 to 999, which `requires` asks.
#[verifier::external_body]
pub(crate) fn status_text(code: u16) -> (r: String)
    requires
        is_valid_status(code),
    ensures
        r@ == status_display(code),
{
    match reqwest::StatusCode::from_u16(code) {
        Ok(status) => status.to_string(),
        Err(err) => err.to_string(),
    }
}

/// `StatusCode::is_success` on a status code.
pub fn is_success(code: u16) -> (r: bool)
    ensures
        r == is_success_status(code),
{
    200 <= code && code < 300
}

} // verus!
