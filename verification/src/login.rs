use vstd::prelude::*;

use crate::auth::TokenError;
use crate::password::{argon2_accepts, argon2_verifies, phc_hash_parses, phc_string_parses};
use crate::reply::{Reply, ReplyBody};
use crate::state::{issued_session_token, State};

verus! {

/// What looking up an admin's stored password hash gave.
pub enum HashLookup {
    /// The stored PHC string.
    Found(String),
    /// No admin has that name.
    NoSuchUser,
    /// The database failed.
    LookupFailed,
}

/// The reply once the password was accepted: the issued token, or a failure
/// to issue one.
pub fn token_reply(issued: Result<String, TokenError>) -> (reply: Reply)
    ensures
        issued matches Ok(token) ==> {
            &&& reply.status == 200
            &&& reply.body == ReplyBody::Token(token)
        },
        issued is Err ==> reply.is_text(500, "Internal auth failure"@),
{
    match issued {
        Ok(token) => Reply { status: 200, body: ReplyBody::Token(token) },
        Err(_) => Reply::text("Internal auth failure").with_status_code(500),
    }
}

/// `POST /admin/login`: checks the password against the stored hash and, when
/// it matches, answers with `token_reply` on the token that
/// `State::generate_new_token` issued.
pub fn handle_get(state: &mut State, lookup: HashLookup, password: &String) -> (reply: Reply)
    ensures
        final(state)@ == old(state)@,
        lookup is NoSuchUser ==> reply.is_text(401, "User does not exist"@),
        lookup is LookupFailed ==> reply.is_text(500, "Internal database failure"@),
        lookup matches HashLookup::Found(hash) ==> {
            &&& !phc_string_parses(hash@) ==> reply.is_text(500, "Internal failure"@)
            &&& phc_string_parses(hash@) && !argon2_verifies(password@, hash@) ==> reply.is_text(
                401,
                "Incorrect password"@,
            )
            &&& phc_string_parses(hash@) && argon2_verifies(password@, hash@) ==> {
                &&& reply.status == 200
                &&& reply.body matches ReplyBody::Token(t)
                &&& issued_session_token(old(state)@, t@)
            }
        },
{
    match lookup {
        HashLookup::Found(password_hash) => {
            if phc_hash_parses(password_hash.as_str()) {
                if argon2_accepts(password.as_str(), password_hash.as_str()) {
                    token_reply(state.generate_new_token())
                } else {
                    Reply::text("Incorrect password").with_status_code(401)
                }
            } else {
                Reply::text("Internal failure").with_status_code(500)
            }
        },
        HashLookup::NoSuchUser => Reply::text("User does not exist").with_status_code(401),
        HashLookup::LookupFailed => Reply::text("Internal database failure").with_status_code(500),
    }
}

} // verus!
