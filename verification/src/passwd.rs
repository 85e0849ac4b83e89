//! Password verification against a stored bcrypt hash.  The comparison is
//! deliberately slow and salted; a malformed stored hash fails closed: it
//! counts as a non-match and never aborts a request.

use vstd::prelude::*;

verus! {

/// What `bcrypt::verify` returns for a given plaintext and stored hash:
/// `None` when the stored hash is not a validly formatted bcrypt hash,
/// `Some(m)` when it is, with `m` saying whether the password matches.
pub uninterp spec fn bcrypt_verify_of(password: Seq<char>, hash: Seq<char>) -> Option<bool>;

/// A password matches a stored hash when the hash is well formed and the
/// slow bcrypt comparison accepts the pair.
pub open spec fn password_matches(password: Seq<char>, hash: Seq<char>) -> bool {
    bcrypt_verify_of(password, hash) == Some(true)
}

/// Relies on `bcrypt::verify`: it re-hashes the password with the cost and
/// salt carried in `hash` and compares in constant time; it errs exactly on
/// a malformed stored hash, never panics, and its result depends on its two
/// arguments alone.
#[verifier::external_body]
fn bcrypt_check(password: &str, hash: &str) -> (r: Option<bool>)
    ensures
        r == bcrypt_verify_of(password@, hash@),
{
    match bcrypt::verify(password, hash) {
        Ok(m) => Some(m),
        Err(_) => None,
    }
}

/// Check a plaintext password against a stored hash, failing closed: a
/// malformed stored hash is treated as a non-match, never as a panic.
pub fn verify_password(password: &str, stored_hash: &str) -> (r: bool)
    ensures
        r == password_matches(password@, stored_hash@),
{
    match bcrypt_check(password, stored_hash) {
        Some(m) => m,
        None => false,
    }
}

} // verus!
