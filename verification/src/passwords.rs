//! Password hashing with Argon2 (default parameters), stored as PHC strings.
use vstd::prelude::*;

verus! {

/// Whether `PasswordHash::new` parses the stored text as a PHC string.
pub uninterp spec fn phc_parses(hash: Seq<char>) -> bool;

/// The `Display` text of the error `PasswordHash::new` reports for a text it
/// does not parse.
pub uninterp spec fn phc_parse_error(hash: Seq<char>) -> Seq<char>;

/// Whether `Argon2::default().verify_password` accepts the password for the
/// parsed PHC string.
pub uninterp spec fn password_matches(password: Seq<u8>, hash: Seq<char>) -> bool;

/// `PasswordHash::new`, keeping whether it parsed and the error's text.
///
/// Contract: it succeeds exactly when the text parses (`phc_parses`); the
/// error text is the named `phc_parse_error` of the text.
#[verifier::external_body]
pub(crate) fn check_password_hash(hash: &str) -> (r: Result<(), String>)
    ensures
        r is Ok <==> phc_parses(hash@),
        r matches Err(e) ==> e@ == phc_parse_error(hash@),
{
    match argon2::PasswordHash::new(hash) {
        Ok(_) => Ok(()),
        Err(err) => Err(err.to_string()),
    }
}

/// `Argon2::default().verify_password(password, &PasswordHash::new(hash))`.
///
/// Contract: the answer is the named `password_matches` of the password
/// and the stored text, which `requires` asks to parse.
#[verifier::external_body]
pub(crate) fn verify_password(password: &[u8], hash: &str) -> (r: bool)
    requires
        phc_parses(hash@),
    ensures
        r == password_matches(password@, hash@),
{
    match argon2::PasswordHash::new(hash) {
        Ok(parsed) => <argon2::Argon2 as argon2::PasswordVerifier>::verify_password(
            &argon2::Argon2::default(),
            password,
            &parsed,
        ).is_ok(),
        Err(_) => false,
    }
}

/// `Argon2::default().hash_password` with a fresh random salt
/// (`SaltString::generate(&mut OsRng)`), written as a PHC string.
///
/// Contract: the salt is random, so the text itself is not stated. What is
/// stated: with default parameters and a generated salt, the only error the
/// call can report is a password over `argon2::MAX_PWD_LEN` (0xFFFF_FFFF)
/// bytes, whose text is "invalid password"; a successful result parses, and
/// the same password verifies against it (verification recomputes the hash
/// with the stored salt and parameters).
#[verifier::external_body]
pub(crate) fn hash_password(password: &[u8]) -> (r: Result<String, String>)
    ensures
        r is Ok <==> password@.len() <= 0xFFFF_FFFF,
        r matches Ok(h) ==> phc_parses(h@) && password_matches(password@, h@),
        r matches Err(e) ==> e@ == "invalid password"@,
{
    let salt = argon2::password_hash::SaltString::generate(&mut argon2::password_hash::rand_core::OsRng);
    match <argon2::Argon2 as argon2::PasswordHasher>::hash_password(&argon2::Argon2::default(), password, &salt) {
        Ok(hash) => Ok(hash.to_string()),
        Err(err) => Err(err.to_string()),
    }
}

} // verus!
