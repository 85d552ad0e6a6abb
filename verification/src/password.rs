use vstd::prelude::*;
use argon2::PasswordVerifier;

verus! {

/// Whether `hash` is a well-formed PHC password-hash string, as
/// `argon2::PasswordHash::new` decides it.
pub uninterp spec fn phc_string_parses(hash: Seq<char>) -> bool;

/// Whether Argon2 with its default parameters accepts `password` against the
/// PHC string `hash`, as `Argon2::verify_password` decides it.
pub uninterp spec fn argon2_verifies(password: Seq<char>, hash: Seq<char>) -> bool;

/// `argon2::PasswordHash::new`: whether the stored hash parses. Claimed: the
/// answer depends on the string alone.
#[verifier::external_body]
pub(crate) fn phc_hash_parses(hash: &str) -> (parses: bool)
    ensures
        parses == phc_string_parses(hash@),
{
    argon2::PasswordHash::new(hash).is_ok()
}

/// `Argon2::default().verify_password` on the password's UTF-8 bytes and the
/// stored PHC string. Claimed: the answer depends on the two strings alone.
#[verifier::external_body]
pub(crate) fn argon2_accepts(password: &str, hash: &str) -> (accepted: bool)
    ensures
        accepted == argon2_verifies(password@, hash@),
{
    argon2::Argon2::default().verify_password(password.as_bytes(), hash).is_ok()
}

} // verus!
