//! Flag digests: SHA-256 of the submitted flag, written as lowercase hex.
use vstd::prelude::*;
use crate::text::{lemma_trim_idempotent, trim, trim_spec};

verus! {

/// The SHA-256 digest of `data` (`sha2::Sha256::digest`).
pub uninterp spec fn sha256_spec(data: Seq<u8>) -> Seq<u8>;

/// The lowercase hex digit of a value below 16.
pub open spec fn hex_digit(v: u8) -> char {
    if v < 10 {
        ((v + 48) as u8) as char
    } else {
        ((v + 87) as u8) as char
    }
}

/// `hex::encode`: two lowercase hex digits per byte, high nibble first.
pub open spec fn hex_spec(data: Seq<u8>) -> Seq<char>
    decreases data.len(),
{
    if data.len() == 0 {
        Seq::empty()
    } else {
        seq![hex_digit(data[0] / 16), hex_digit(data[0] % 16)] + hex_spec(data.drop_first())
    }
}

/// The UTF-8 bytes of a text.
pub open spec fn utf8_bytes(s: Seq<char>) -> Seq<u8> {
    vstd::utf8::encode_utf8(s)
}

/// The digest a flag is stored under: hex of SHA-256 of the trimmed flag.
pub open spec fn flag_digest_spec(flag: Seq<char>) -> Seq<char> {
    hex_spec(sha256_spec(utf8_bytes(trim_spec(flag))))
}

/// `sha2::Sha256::digest`.
///
/// Contract: the result is the digest named `sha256_spec` of the input,
/// and it is 32 bytes long (the output size of SHA-256).
#[verifier::external_body]
fn sha256(data: &[u8]) -> (r: Vec<u8>)
    ensures
        r@ == sha256_spec(data@),
        r@.len() == 32,
{
    <sha2::Sha256 as sha2::Digest>::digest(data).to_vec()
}

/// `hex::encode`.
///
/// Contract: two lowercase hex digits per byte, high nibble first, as the
/// crate's `encode` writes them with its lowercase table.
#[verifier::external_body]
fn hex_encode(data: &[u8]) -> (r: String)
    ensures
        r@ == hex_spec(data@),
{
    hex::encode(data)
}

/// The stored form of a submitted flag: `hex(sha256(flag.trim()))`.
pub fn flag_digest(flag: &str) -> (r: String)
    ensures
        r@ == flag_digest_spec(flag@),
        r@ == hex_spec(sha256_spec(utf8_bytes(trim_spec(flag@)))),
        r@.len() == 64,
{
    let t = trim(flag);
    let bytes = t.as_bytes();
    let d = sha256(bytes);
    proof {
        lemma_hex_len(d@);
    }
    hex_encode(d.as_slice())
}

/// Whitespace around a flag does not matter: a flag and its trimmed form
/// have the same digest.
pub proof fn lemma_flag_digest_ignores_surrounding_whitespace(flag: Seq<char>)
    ensures
        flag_digest_spec(trim_spec(flag)) == flag_digest_spec(flag),
{
    lemma_trim_idempotent(flag);
}

/// A flag's digest is the hex of SHA-256 over all the UTF-8 bytes of the
/// whole trimmed flag, so two flags that are equal once trimmed have the
/// same digest.
pub proof fn lemma_flag_digest_of_whole_trimmed_flag(flag: Seq<char>, other: Seq<char>)
    ensures
        flag_digest_spec(flag) == hex_spec(sha256_spec(utf8_bytes(trim_spec(flag)))),
        trim_spec(flag) == trim_spec(other) ==> flag_digest_spec(flag) == flag_digest_spec(other),
{
}

pub proof fn lemma_hex_len(data: Seq<u8>)
    ensures
        hex_spec(data).len() == 2 * data.len(),
    decreases data.len(),
{
    if data.len() > 0 {
        lemma_hex_len(data.drop_first());
    }
}

} // verus!
