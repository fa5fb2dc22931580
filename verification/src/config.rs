//! Service configuration: where the database and the auth service are when
//! the environment does not say, and which database directory to create.
use vstd::prelude::*;
use vstd::string::*;
use crate::text::{strip_prefix, strip_prefix_spec};

verus! {

pub const DEFAULT_DATABASE_URL: &'static str = "sqlite://data/exp-box.db";

pub const DEFAULT_AUTH_SERVICE_URL: &'static str = "http://auth-service:9001";

/// The database URL: `DATABASE_URL` when set, the default otherwise.
pub fn database_url(configured: Option<String>) -> (r: String)
    ensures
        match configured {
            Some(u) => r == u,
            None => r@ == DEFAULT_DATABASE_URL@,
        },
{
    match configured {
        Some(u) => u,
        None => String::from_str(DEFAULT_DATABASE_URL),
    }
}

/// The auth service's URL: `AUTH_SERVICE_URL` when set, the default
/// otherwise.
pub fn auth_service_url(configured: Option<String>) -> (r: String)
    ensures
        match configured {
            Some(u) => r == u,
            None => r@ == DEFAULT_AUTH_SERVICE_URL@,
        },
{
    match configured {
        Some(u) => u,
        None => String::from_str(DEFAULT_AUTH_SERVICE_URL),
    }
}

/// `Path::parent` of a path: the path without its last component, absent
/// for a root, a prefix or the empty path.
pub uninterp spec fn path_parent_spec(path: Seq<char>) -> Option<Seq<char>>;

/// `std::path::Path::new(path).parent()`, as text.
///
/// Contract: the parent is the named result `path_parent_spec` of the path.
/// A parent of a path given as text is text again, so the lossy
/// conversion keeps it as it is.
#[verifier::external_body]
fn path_parent(path: &str) -> (r: Option<String>)
    ensures
        match path_parent_spec(path@) {
            Some(p) => r matches Some(s) && s@ == p,
            None => r is None,
        },
{
    match std::path::Path::new(path).parent() {
        Some(dir) => Some(dir.to_string_lossy().into_owned()),
        None => None,
    }
}

/// The directory to create before opening a SQLite database
/// (`ensure_sqlite_dir`): for a `sqlite://` URL, the non-empty parent of
/// its path; nothing for other URLs or a path without a parent directory.
pub fn sqlite_dir(database_url: &str) -> (r: Option<String>)
    ensures
        match strip_prefix_spec(database_url@, "sqlite://"@) {
            None => r is None,
            Some(path) => match path_parent_spec(path) {
                Some(dir) => if dir.len() > 0 {
                    r matches Some(s) && s@ == dir
                } else {
                    r is None
                },
                None => r is None,
            },
        },
{
    let path = match strip_prefix(database_url, "sqlite://") {
        Some(p) => p,
        None => {
            return None;
        },
    };
    match path_parent(path) {
        Some(dir) => if dir.as_str().unicode_len() > 0 {
            Some(dir)
        } else {
            None
        },
        None => None,
    }
}

} // verus!
