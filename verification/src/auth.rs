use vstd::prelude::*;
use jwt_simple::algorithms::{ECDSAP256KeyPairLike, ECDSAP256PublicKeyLike};

verus! {

/// How long an admin session token stays valid, in seconds.
pub const SESSION_TOKEN_SECS: u64 = 30;

#[verifier::external_type_specification]
#[verifier::external_body]
pub struct ExEs256KeyPair(jwt_simple::algorithms::ES256KeyPair);

#[verifier::external_type_specification]
#[verifier::external_body]
pub struct ExEs256PublicKey(jwt_simple::algorithms::ES256PublicKey);

#[verifier::external_type_specification]
#[verifier::external_body]
pub struct ExNoCustomClaims(jwt_simple::claims::NoCustomClaims);

#[verifier::external_type_specification]
#[verifier::external_body]
#[verifier::reject_recursive_types(CustomClaims)]
pub struct ExJwtClaims<CustomClaims>(jwt_simple::claims::JWTClaims<CustomClaims>);

#[verifier::external_type_specification]
#[verifier::external_body]
pub struct ExJwtError(jwt_simple::Error);

/// Why a session token could not be issued.
#[derive(Clone, Copy, Debug, PartialEq, Eq, Structural)]
pub enum TokenError {
    SigningFailed,
}

/// The JWS compact form of a token: three non-empty segments separated by
/// exactly two dots.
pub open spec fn is_compact_form(token: Seq<char>) -> bool {
    exists|i: int, j: int|
        0 < i && i + 1 < j && j + 1 < token.len() && #[trigger] token[i] == '.' && #[trigger] token[j]
            == '.' && forall|k: int| 0 <= k < token.len() && k != i && k != j ==> token[k] != '.'
}

/// The verifying key that belongs to a signing key, as
/// `ES256KeyPair::public_key` derives it from the key alone.
pub uninterp spec fn verifying_key(
    key: jwt_simple::algorithms::ES256KeyPair,
) -> jwt_simple::algorithms::ES256PublicKey;

/// Whether the ES256 signature part of the compact token `token` checks out
/// under `pk` over its header and claims parts (the check
/// `ECDSAP256PublicKeyLike::verify_token` makes; a function of the key and the
/// text alone).
pub uninterp spec fn signature_checks(
    pk: jwt_simple::algorithms::ES256PublicKey,
    token: Seq<char>,
) -> bool;

/// The `iat` (issued at) claim of a claims value, in whole Unix seconds as it
/// is serialised.
pub uninterp spec fn claims_issued_secs(
    claims: jwt_simple::claims::JWTClaims<jwt_simple::claims::NoCustomClaims>,
) -> int;

/// The `exp` (expires at) claim of a claims value, in whole Unix seconds as
/// it is serialised.
pub uninterp spec fn claims_expiry_secs(
    claims: jwt_simple::claims::JWTClaims<jwt_simple::claims::NoCustomClaims>,
) -> int;

/// The `iat` claim carried in the claims part of a compact token, in Unix
/// seconds.
pub uninterp spec fn token_issued_secs(token: Seq<char>) -> int;

/// The `exp` claim carried in the claims part of a compact token, in Unix
/// seconds.
pub uninterp spec fn token_expiry_secs(token: Seq<char>) -> int;

/// `ES256KeyPair::generate`: a fresh random P-256 signing key.
/// Nothing is stated of the key: it is drawn at random.
#[verifier::external_body]
pub(crate) fn generate_key_pair() -> (key: jwt_simple::algorithms::ES256KeyPair) {
    jwt_simple::algorithms::ES256KeyPair::generate()
}

/// `Claims::create`: standard claims issued now and expiring `valid_for_secs`
/// seconds from now. Claimed: the expiry is the issue time plus
/// `valid_for_secs` in whole seconds, as `Claims::create` sets `iat` to the
/// clock reading and `exp` to that reading plus `Duration::from_secs`, both in
/// coarsetime's 32.32 fixed point, serialised as their whole seconds. The
/// issue time comes from the clock, so it is not stated. The addition is
/// unchecked, so the duration is kept to a session's length.
#[verifier::external_body]
pub(crate) fn session_claims(valid_for_secs: u64) -> (claims: jwt_simple::claims::JWTClaims<
    jwt_simple::claims::NoCustomClaims,
>)
    requires
        valid_for_secs <= SESSION_TOKEN_SECS,
    ensures
        claims_expiry_secs(claims) == claims_issued_secs(claims) + valid_for_secs,
{
    jwt_simple::claims::Claims::create(jwt_simple::prelude::Duration::from_secs(valid_for_secs))
}

/// `ECDSAP256KeyPairLike::sign` on an ES256 key pair. Claimed: it returns a
/// token. `Token::build` can only fail where `serde_json` fails to serialise
/// the header or the claims (their fields are strings, numbers and optional
/// sets of strings, which always serialise) or where base64 encoding reports a
/// length overflow (only for inputs near the address space), and the ES256
/// signing step has no error path. Claimed of the token: it is in compact
/// form, as `Token::build` joins the URL-safe base64 encodings (whose alphabet
/// has no dot) of the header JSON, the claims JSON and the signature with
/// dots; its signature checks out under the key's verifying key, as it is an
/// ECDSA P-256 signature made with that key over the header and claims parts;
/// and its claims part carries the given claims' `iat` and `exp`. The
/// signature is randomised, so nothing more is stated of the text.
#[verifier::external_body]
pub(crate) fn sign_claims(
    key: &jwt_simple::algorithms::ES256KeyPair,
    claims: jwt_simple::claims::JWTClaims<jwt_simple::claims::NoCustomClaims>,
) -> (token: Result<String, jwt_simple::Error>)
    ensures
        token is Ok,
        token matches Ok(t) ==> {
            &&& is_compact_form(t@)
            &&& signature_checks(verifying_key(*key), t@)
            &&& token_issued_secs(t@) == claims_issued_secs(claims)
            &&& token_expiry_secs(t@) == claims_expiry_secs(claims)
        },
{
    key.sign(claims)
}

/// `ES256KeyPair::public_key`: the verifying half of the key pair. Claimed:
/// it is the key's verifying key, a function of the key alone.
#[verifier::external_body]
pub(crate) fn public_key_of(key: &jwt_simple::algorithms::ES256KeyPair) -> (pk:
    jwt_simple::algorithms::ES256PublicKey)
    ensures
        pk == verifying_key(*key),
{
    key.public_key()
}

/// `ECDSAP256PublicKeyLike::verify_token` with the default options: on success,
/// the expiry of the verified token in Unix seconds, if it carries one.
/// Claimed: it succeeds only on a token in compact form, as
/// `Token::verify_with_algorithms` splits the token at dots, fails unless there
/// are exactly three parts, and fails on an empty header or claims part (no
/// JSON) and on an empty signature part; it succeeds only when the token's
/// signature checks out under `pk`; and the expiry it reports is the token's
/// `exp` claim. Whether it succeeds beyond that depends on the current time
/// (expired tokens are rejected with a tolerance), so nothing more is stated.
#[verifier::external_body]
pub(crate) fn verify_token_expiry(
    pk: &jwt_simple::algorithms::ES256PublicKey,
    token: &str,
) -> (verdict: Result<Option<u64>, jwt_simple::Error>)
    ensures
        verdict is Ok ==> is_compact_form(token@) && signature_checks(*pk, token@),
        verdict matches Ok(Some(expires_at)) ==> expires_at == token_expiry_secs(token@),
{
    match pk.verify_token::<jwt_simple::claims::NoCustomClaims>(token, None) {
        Ok(claims) => Ok(match claims.expires_at {
            Some(expires_at) => Some(expires_at.as_secs()),
            None => None,
        }),
        Err(e) => Err(e),
    }
}

/// `SystemTime::elapsed` on the Unix epoch, in whole seconds; `None` when the
/// clock reads before the epoch. The clock gives no guarantee, so nothing is stated.
#[verifier::external_body]
pub(crate) fn unix_seconds_now() -> (now: Option<u64>) {
    match std::time::UNIX_EPOCH.elapsed() {
        Ok(elapsed) => Some(elapsed.as_secs()),
        Err(_) => None,
    }
}

/// Whether a token is accepted, given what verifying its signature gave
/// (`None` when verification failed, else the expiry it carries) and the
/// clock reading in Unix seconds (`None` when the clock is unusable).
pub open spec fn token_live(expiry: Option<Option<u64>>, now: Option<u64>) -> bool {
    match (expiry, now) {
        (Some(Some(expires_at)), Some(now)) => expires_at > now,
        _ => false,
    }
}

/// Decides a token from its verification result and the clock reading.
pub fn token_is_live(expiry: Option<Option<u64>>, now: Option<u64>) -> (live: bool)
    ensures
        live == token_live(expiry, now),
{
    match (expiry, now) {
        (Some(Some(expires_at)), Some(now)) => expires_at > now,
        _ => false,
    }
}

/// Maps the signer's result to the library's own error type.
pub fn issued_token(signed: Result<String, jwt_simple::Error>) -> (token: Result<String, TokenError>)
    ensures
        signed is Ok <==> token is Ok,
        signed is Ok ==> token->Ok_0@ == signed->Ok_0@,
        token is Err ==> token->Err_0 == TokenError::SigningFailed,
{
    match signed {
        Ok(t) => Ok(t),
        Err(_) => Err(TokenError::SigningFailed),
    }
}

} // verus!
