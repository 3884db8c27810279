//! Issuance and verification of signed, time-bounded session tokens,
//! backed by jsonwebtoken's HS256 encoding.
//!
//! A token asserts a subject (a user id) until an expiry instant. Its
//! validity is entirely a function of the token string, the signing
//! secret, and the clock reading at verification time: the signature is
//! checked first, and only a token whose signature holds is then tested
//! against the clock.

use vstd::prelude::*;

use jsonwebtoken::errors::ErrorKind;
use jsonwebtoken::{decode, encode, Algorithm, DecodingKey, EncodingKey, Header, Validation};
use serde_json::Value;
use std::collections::HashSet;

verus! {

/// The claims carried by a session token: the subject (a user id) and
/// the expiry instant, in seconds.
pub struct Claims {
    pub sub: String,
    pub exp: u64,
}

/// Why a token was refused. The variants are internal detail (for
/// logging); every one of them is collapsed to a single unauthorized
/// outcome at the service boundary.
#[derive(Debug, PartialEq, Eq, Structural, Clone, Copy)]
pub enum TokenError {
    /// The token does not parse as a signed claims record.
    Malformed,
    /// The token parses but its signature does not match the secret.
    BadSignature,
    /// Signature and shape are good, but the expiry instant has passed.
    Expired,
}

/// What jsonwebtoken's decode — HS256, signature validation on, expiry
/// validation off — yields for `token` under `secret`: the subject and
/// expiry claims when the token is well-formed and its signature
/// matches, and nothing otherwise. A function of the two arguments
/// alone; no clock is involved.
pub uninterp spec fn jwt_claims_of(token: Seq<char>, secret: Seq<char>) -> Option<(Seq<char>, u64)>;

/// Relies on jsonwebtoken::encode with the default (HS256) header and a
/// secret-keyed HMAC: the returned compact token carries exactly the
/// claims record {sub, exp} handed to it, and decoding it under the same
/// secret gives those claims back. The call cannot fail: the secret key
/// matches the default header's algorithm family, the claims object
/// serializes infallibly, and the HMAC is total.
#[verifier::external_body]
fn encode_jwt(sub: &str, exp: u64, secret: &str) -> (r: Option<String>)
    ensures
        r is Some,
        r matches Some(t) ==> jwt_claims_of(t@, secret@) == Some((sub@, exp)),
{
    let mut claims = serde_json::Map::new();
    claims.insert("sub".to_string(), Value::String(sub.to_string()));
    claims.insert("exp".to_string(), Value::from(exp));
    let key = EncodingKey::from_secret(secret.as_bytes());
    encode(&Header::default(), &Value::Object(claims), &key).ok()
}

/// Relies on jsonwebtoken::decode with HS256, signature validation on,
/// and expiry, audience and required-claims checks all off: returns the
/// sub and exp claims when the token parses and its signature matches
/// `secret`; a signature mismatch is told apart from every other
/// failure, and no clock is read.
#[verifier::external_body]
fn decode_jwt(token: &str, secret: &str) -> (r: Result<Claims, TokenError>)
    ensures
        r is Ok <==> jwt_claims_of(token@, secret@) is Some,
        r matches Ok(cl) ==> jwt_claims_of(token@, secret@) == Some((cl.sub@, cl.exp)),
        r matches Err(e) ==> (e == TokenError::Malformed || e == TokenError::BadSignature),
{
    let mut validation = Validation::new(Algorithm::HS256);
    validation.validate_exp = false;
    validation.validate_aud = false;
    validation.required_spec_claims = HashSet::new();
    let claims = match decode::<Value>(token, &DecodingKey::from_secret(secret.as_bytes()), &validation) {
        Ok(data) => data.claims,
        Err(e) if matches!(e.kind(), ErrorKind::InvalidSignature) => return Err(TokenError::BadSignature),
        Err(_) => return Err(TokenError::Malformed),
    };
    match (claims.get("sub").and_then(|v| v.as_str()), claims.get("exp").and_then(|v| v.as_u64())) {
        (Some(s), Some(e)) => Ok(Claims { sub: s.to_string(), exp: e }),
        _ => Err(TokenError::Malformed),
    }
}

/// Whether `token` is accepted under `secret` at clock reading `now`:
/// its signature and shape hold, and its expiry instant is still ahead.
pub open spec fn token_accepted(token: Seq<char>, secret: Seq<char>, now: u64) -> bool {
    jwt_claims_of(token, secret) matches Some(c) && now < c.1
}

/// The subject a token asserts, meaningful only when the token decodes.
pub open spec fn token_subject(token: Seq<char>, secret: Seq<char>) -> Seq<char>
    recommends
        jwt_claims_of(token, secret) is Some,
{
    jwt_claims_of(token, secret)->Some_0.0
}

/// Issues a token asserting `subject` from clock reading `now` for
/// `ttl_seconds` more seconds, signed with `secret`. The returned token
/// carries exactly those claims under that secret.
pub fn issue_token(subject: &str, ttl_seconds: u64, now: u64, secret: &str) -> (r: String)
    requires
        now + ttl_seconds <= u64::MAX,
    ensures
        jwt_claims_of(r@, secret@) == Some((subject@, (now + ttl_seconds) as u64)),
{
    let exp: u64 = now + ttl_seconds;
    encode_jwt(subject, exp, secret).unwrap()
}

/// Verifies `token` under `secret` at clock reading `now`: the signature
/// is checked first, and only then the expiry. Returns the asserted
/// subject exactly when the token decodes and `now` lies strictly before
/// its expiry instant; a token that decodes but whose expiry has been
/// reached is refused as `Expired`, and one that does not decode is
/// refused as `Malformed` or `BadSignature`, never accepted.
pub fn verify_token(token: &str, secret: &str, now: u64) -> (r: Result<String, TokenError>)
    ensures
        r matches Ok(sub) ==> token_accepted(token@, secret@, now) && sub@ == token_subject(
            token@,
            secret@,
        ),
        jwt_claims_of(token@, secret@) matches Some(c) ==> ((now < c.1 ==> (r matches Ok(sub)
            && sub@ == c.0)) && (now >= c.1 ==> r == Err::<String, TokenError>(
            TokenError::Expired,
        ))),
        jwt_claims_of(token@, secret@) is None ==> (r matches Err(e) && (e == TokenError::Malformed
            || e == TokenError::BadSignature)),
{
    match decode_jwt(token, secret) {
        Ok(claims) => {
            if now < claims.exp {
                Ok(claims.sub)
            } else {
                Err(TokenError::Expired)
            }
        },
        Err(e) => Err(e),
    }
}

/// Law: a token issued at `issued_at` with `ttl` seconds to live is not
/// accepted at any check time from `issued_at + ttl` on — in particular,
/// one issued with a time-to-live of zero is already expired at its own
/// issuance instant.
pub proof fn lemma_issued_token_expires(
    token: Seq<char>,
    secret: Seq<char>,
    sub: Seq<char>,
    issued_at: u64,
    ttl: u64,
    now: u64,
)
    requires
        issued_at + ttl <= u64::MAX,
        jwt_claims_of(token, secret) == Some((sub, (issued_at + ttl) as u64)),
        now >= issued_at + ttl,
    ensures
        !token_accepted(token, secret, now),
{
}

/// Law: a token whose claims decode under `secret` to subject `sub` and
/// expiry `exp` is accepted at every check time strictly before `exp`,
/// and the subject it asserts is `sub`.
pub proof fn lemma_fresh_token_accepted(
    token: Seq<char>,
    secret: Seq<char>,
    sub: Seq<char>,
    exp: u64,
    now: u64,
)
    requires
        jwt_claims_of(token, secret) == Some((sub, exp)),
        now < exp,
    ensures
        token_accepted(token, secret, now),
        token_subject(token, secret) == sub,
{
}

} // verus!
