//! Token verification: the `Bearer ` header framing, the HS256 signature
//! check against the process secret, and the expiry policy.

use vstd::prelude::*;
use crate::claims::{Claims, ClaimsView, expired, in_force};
use crate::error::AuthError;
use crate::text::{starts_with, starts_with_seq};

verus! {

/// The scheme prefix that an `Authorization` header must carry.
pub open spec fn bearer_prefix() -> Seq<char> {
    "Bearer "@
}

/// The characters of an optional header value.
pub open spec fn header_view(h: Option<&str>) -> Option<Seq<char>> {
    match h {
        Some(s) => Some(s@),
        None => None,
    }
}

/// The token that a header carries: what follows `Bearer ` (case-sensitive),
/// when that is not empty.
pub open spec fn bearer_token_of(h: Option<Seq<char>>) -> Option<Seq<char>> {
    match h {
        Some(s) => if starts_with_seq(s, bearer_prefix()) && s.len() > bearer_prefix().len() {
            Some(s.subrange(bearer_prefix().len() as int, s.len() as int))
        } else {
            None
        },
        None => None,
    }
}

/// The claims that `jsonwebtoken::decode` yields for a token under an HS256
/// secret, with the expiry left unchecked: `None` where the signature, the
/// algorithm or the claim shapes are rejected.
pub uninterp spec fn hs256_claims(token: Seq<char>, secret: Seq<u8>) -> Option<ClaimsView>;

/// Relies on `jsonwebtoken::decode` (HS256, default validation but for the
/// expiry, which the caller checks): the signature check and the decoded
/// `sub`, `iat` and `exp` depend on the token and the secret alone.
#[verifier::external_body]
fn decode_hs256(token: &str, secret: &[u8]) -> (r: Option<Claims>)
    ensures
        match r {
            Some(c) => hs256_claims(token@, secret@) == Some(c@),
            None => hs256_claims(token@, secret@) is None,
        },
{
    let mut rules = jsonwebtoken::Validation::new(jsonwebtoken::Algorithm::HS256);
    rules.validate_exp = false;
    let key = jsonwebtoken::DecodingKey::from_secret(secret);
    let c = jsonwebtoken::decode::<serde_json::Value>(token, &key, &rules).ok()?.claims;
    Some(Claims { sub: c["sub"].as_str()?.to_string(), iat: c["iat"].as_u64()?, exp: c["exp"].as_u64()? })
}

/// Relies on `jsonwebtoken::get_current_timestamp`: the clock, in seconds
/// since the Unix epoch. Nothing is known of the value. (It panics only on
/// a system clock set before 1970.)
#[verifier::external_body]
fn current_timestamp() -> (r: u64) {
    jsonwebtoken::get_current_timestamp()
}

/// The outcome of checking decoded claims at `now`.
pub open spec fn decoded_outcome(decoded: Option<ClaimsView>, now: u64) -> Result<ClaimsView, AuthError> {
    match decoded {
        Some(c) => if in_force(c, now) {
            Ok(c)
        } else {
            Err(AuthError::InvalidToken)
        },
        None => Err(AuthError::InvalidToken),
    }
}

/// The outcome of verifying an `Authorization` header under `secret` at `now`.
pub open spec fn local_outcome(h: Option<Seq<char>>, secret: Seq<u8>, now: u64) -> Result<ClaimsView, AuthError> {
    match bearer_token_of(h) {
        Some(t) => decoded_outcome(hs256_claims(t, secret), now),
        None => Err(AuthError::MalformedAuthHeader),
    }
}

/// Whether an exec result of claims matches a result of views.
pub open spec fn claims_result_matches(r: Result<Claims, AuthError>, v: Result<ClaimsView, AuthError>) -> bool {
    match r {
        Ok(c) => v == Ok::<ClaimsView, AuthError>(c@),
        Err(e) => v == Err::<ClaimsView, AuthError>(e),
    }
}

/// The token that an `Authorization` header carries, or
/// `MalformedAuthHeader` where it is absent, lacks the exact `Bearer `
/// prefix, or carries nothing after it.
pub fn bearer_token<'a>(header: Option<&'a str>) -> (r: Result<&'a str, AuthError>)
    ensures
        match r {
            Ok(t) => bearer_token_of(header_view(header)) == Some(t@),
            Err(e) => e == AuthError::MalformedAuthHeader && bearer_token_of(header_view(header)) is None,
        },
{
    match header {
        None => Err(AuthError::MalformedAuthHeader),
        Some(h) => {
            let prefix = "Bearer ";
            proof {
                reveal_strlit("Bearer ");
            }
            let n = h.unicode_len();
            if starts_with(h, prefix) && n > 7 {
                Ok(h.substring_char(7, n))
            } else {
                Err(AuthError::MalformedAuthHeader)
            }
        }
    }
}

/// Checks claims that the signature check produced against the expiry
/// policy at `now`: accepted only when well formed and in force, else
/// `InvalidToken`; `None` (a failed signature check) is `InvalidToken` too.
pub fn check_decoded(decoded: Option<Claims>, now: u64) -> (r: Result<Claims, AuthError>)
    ensures
        claims_result_matches(r, decoded_outcome(
            match decoded {
                Some(c) => Some(c@),
                None => None,
            },
            now,
        )),
{
    match decoded {
        Some(c) => if c.is_in_force(now) {
            Ok(c)
        } else {
            Err(AuthError::InvalidToken)
        },
        None => Err(AuthError::InvalidToken),
    }
}

/// Verifies an `Authorization` header under the HS256 `secret` at `now`.
/// A header without the `Bearer ` framing fails with `MalformedAuthHeader`
/// before any signature work; a token that fails the signature check, or
/// whose claims are not in force at `now`, fails with `InvalidToken`.
pub fn verify_local(header: Option<&str>, secret: &[u8], now: u64) -> (r: Result<Claims, AuthError>)
    ensures
        claims_result_matches(r, local_outcome(header_view(header), secret@, now)),
{
    match bearer_token(header) {
        Err(e) => Err(e),
        Ok(token) => {
            let decoded = decode_hs256(token, secret);
            check_decoded(decoded, now)
        }
    }
}

/// Verifies an `Authorization` header under the HS256 `secret` at the
/// current time of the clock.
pub fn verify_local_now(header: Option<&str>, secret: &[u8]) -> (r: Result<Claims, AuthError>)
    ensures
        exists|now: u64| claims_result_matches(r, #[trigger] local_outcome(header_view(header), secret@, now)),
{
    let now = current_timestamp();
    verify_local(header, secret, now)
}

/// A token whose expiry lies before `now` is rejected as `InvalidToken`,
/// whether or not its signature checks out.
pub proof fn lemma_expired_token_rejected(h: Option<Seq<char>>, secret: Seq<u8>, now: u64)
    requires
        bearer_token_of(h) is Some,
        forall|c: ClaimsView| hs256_claims(bearer_token_of(h)->Some_0, secret) == Some(c) ==> expired(c, now),
    ensures
        local_outcome(h, secret, now) == Err::<ClaimsView, AuthError>(AuthError::InvalidToken),
{
    let t = bearer_token_of(h)->Some_0;
    match hs256_claims(t, secret) {
        Some(c) => {
            assert(expired(c, now));
        },
        None => {},
    }
}

} // verus!
