//! Fresh identifiers: random (version 4) UUIDs in their hyphenated form.
use vstd::prelude::*;

verus! {

pub open spec fn is_lower_hex(c: char) -> bool {
    ('0' <= c && c <= '9') || ('a' <= c && c <= 'f')
}

/// The hyphenated lowercase form of a UUID: 36 characters, `-` at 8, 13,
/// 18 and 23, lowercase hex digits elsewhere.
pub open spec fn is_hyphenated_uuid(s: Seq<char>) -> bool {
    &&& s.len() == 36
    &&& forall|i: int| 0 <= i < 36 ==> if i == 8 || i == 13 || i == 18 || i == 23 {
        #[trigger] s[i] == '-'
    } else {
        is_lower_hex(s[i])
    }
}

/// A version 4 (random) UUID in hyphenated form: the version digit `4`
/// at 14, and the variant digit (`10xx` in binary: `8`, `9`, `a` or `b`)
/// at 19.
pub open spec fn is_v4_uuid(s: Seq<char>) -> bool {
    &&& is_hyphenated_uuid(s)
    &&& s[14] == '4'
    &&& (s[19] == '8' || s[19] == '9' || s[19] == 'a' || s[19] == 'b')
}

/// `uuid::Uuid::new_v4().to_string()`.
///
/// Contract: the identifier is random, so only what holds of every outcome
/// is stated: the hyphenated lowercase form that `Uuid`'s `Display` writes,
/// with the version and variant bits that `new_v4` sets.
#[verifier::external_body]
pub(crate) fn new_id() -> (r: String)
    ensures
        is_v4_uuid(r@),
{
    uuid::Uuid::new_v4().to_string()
}

} // verus!
