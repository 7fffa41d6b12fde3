//! The credential store: one-way password hashing. The hashing primitive is
//! an outside crate; its behaviour is named by `password_matches`, and the
//! two wrappers below are the only places the crate is touched.

use vstd::prelude::*;

verus! {

/// What `bcrypt::verify` returns for a password and a stored hash: whether
/// the password is the one the hash was derived from. The result is a
/// function of the two strings alone (the salt and cost are part of the
/// hash); a malformed hash matches nothing.
pub uninterp spec fn password_matches(password: Seq<char>, hash: Seq<char>) -> bool;

/// Relies on bcrypt::verify: it re-derives the hash from the password and
/// the salt and cost embedded in `hash`, and compares; the outcome depends
/// only on the two arguments. An error (a malformed hash) is reported as no
/// match.
#[verifier::external_body]
fn bcrypt_verify(password: &str, hash: &str) -> (r: bool)
    ensures
        r == password_matches(password@, hash@),
{
    bcrypt::verify(password, hash).unwrap_or(false)
}

/// Relies on bcrypt::hash: the hash it produces embeds its salt and cost and
/// verifies against the password it was derived from, and is always exactly
/// 60 characters of ASCII (the fixed-width format the crate documents). The
/// salt is drawn from the operating system, so the hash itself is not a
/// function of the password; it fails only when that randomness source
/// fails.
#[verifier::external_body]
fn bcrypt_hash(password: &str) -> (r: Option<String>)
    ensures
        r matches Some(h) ==> (password_matches(password@, h@) && h@.len() == 60),
{
    bcrypt::hash(password, bcrypt::DEFAULT_COST).ok()
}

/// Hashes the given password for storage. Returns `None` only when the
/// system randomness source that salts the hash is unavailable; a produced
/// hash matches the password and is never empty.
pub fn hash_password(password: &String) -> (r: Option<String>)
    ensures
        r matches Some(h) ==> (password_matches(password@, h@) && h@.len() == 60),
{
    bcrypt_hash(password.as_str())
}

/// Checks a password against a stored hash.
pub fn verify_password(password: &String, hash: &String) -> (r: bool)
    ensures
        r == password_matches(password@, hash@),
{
    bcrypt_verify(password.as_str(), hash.as_str())
}

} // verus!
