//! Token codec: creation and verification of signed, time-bound claims.
//!
//! Access and refresh tokens are structurally identical signed objects; they
//! differ only in which time-to-live was used to compute the expiry and in
//! which session column stores them. The codec has no notion of "kind".

use vstd::prelude::*;

verus! {

/// The signed payload embedded in both access and refresh tokens: subject
/// (user id), expiry instant and issued-at instant, in Unix seconds.
#[derive(Clone, Copy, Debug, PartialEq, Eq, Structural)]
pub struct TokenClaims {
    pub sub: i64,
    pub exp: i64,
    pub iat: i64,
}

/// The token string that the signing primitive produces for the given
/// claims under the given secret: a function of its arguments alone.
pub uninterp spec fn token_of(sub: int, iat: int, exp: int, secret: Seq<char>) -> Seq<char>;

/// The claims (subject, issued-at, expiry) that signature verification
/// recovers from a token string under a secret, or `None` when the token is
/// not a well-signed claims object for that secret. A function of the token
/// and the secret alone; the clock-dependent expiry check is not part of it.
pub uninterp spec fn token_claims_of(token: Seq<char>, secret: Seq<char>) -> Option<(int, int, int)>;

/// Relies on `jsonwebtoken::encode` with HS256: the token is a deterministic
/// function of the claims and the secret, is never empty (three dot-joined
/// base64 segments), and signature verification under the same secret
/// recovers the same claims. With this algorithm and a key built by
/// `EncodingKey::from_secret`, encoding cannot fail: the only error paths
/// are an algorithm/key-family mismatch (both are HMAC here) and claims
/// serialization, which cannot fail for a plain JSON object — so the call
/// is unwrapped and a token is always returned.
#[verifier::external_body]
pub(crate) fn jwt_encode(sub: i64, iat: i64, exp: i64, secret: &str) -> (r: String)
    ensures
        r@ == token_of(sub as int, iat as int, exp as int, secret@),
        token_claims_of(r@, secret@) == Some((sub as int, iat as int, exp as int)),
        r@.len() > 0,
{
    let mut claims = serde_json::Map::new();
    claims.insert("sub".to_string(), serde_json::Value::from(sub));
    claims.insert("iat".to_string(), serde_json::Value::from(iat));
    claims.insert("exp".to_string(), serde_json::Value::from(exp));
    jsonwebtoken::encode(
        &jsonwebtoken::Header::new(jsonwebtoken::Algorithm::HS256),
        &serde_json::Value::Object(claims),
        &jsonwebtoken::EncodingKey::from_secret(secret.as_bytes()),
    )
    .unwrap()
}

/// Relies on `jsonwebtoken::decode` with HS256-only validation: a token is
/// accepted only when its signature verifies under the secret and its claims
/// parse. The embedded expiry is additionally held against the real clock
/// inside the primitive, so success is never promised here; whatever comes
/// back, an accepted token carries exactly the claims it was signed over.
#[verifier::external_body]
pub(crate) fn jwt_decode(token: &str, secret: &str) -> (r: Option<TokenClaims>)
    ensures
        r matches Some(c) ==> token_claims_of(token@, secret@) == Some(
            (c.sub as int, c.iat as int, c.exp as int),
        ),
{
    let data = jsonwebtoken::decode::<serde_json::Value>(
        token,
        &jsonwebtoken::DecodingKey::from_secret(secret.as_bytes()),
        &jsonwebtoken::Validation::new(jsonwebtoken::Algorithm::HS256),
    )
    .ok()?;
    let sub = data.claims.get("sub")?.as_i64()?;
    let iat = data.claims.get("iat")?.as_i64()?;
    let exp = data.claims.get("exp")?.as_i64()?;
    Some(TokenClaims { sub, exp, iat })
}

/// A claims structure (or a session horizon) with expiry `exp` authorizes
/// requests strictly before `exp`: live at `exp - 1`, dead from `exp` on.
pub open spec fn live_at(exp: int, now: int) -> bool {
    now < exp
}

/// Builds the claims for a token issued at `now` with the given time to
/// live and signs them: `iat = now`, `exp = now + ttl`, `sub` the user id.
/// Signing with HS256 cannot fail, so a token is always returned.
pub fn issue_token(sub: i64, now: i64, ttl_seconds: i64, secret: &str) -> (r: String)
    requires
        0 <= now,
        0 < ttl_seconds,
        now + ttl_seconds <= i64::MAX,
    ensures
        r@ == token_of(sub as int, now as int, (now + ttl_seconds) as int, secret@),
        token_claims_of(r@, secret@) == Some(
            (sub as int, now as int, (now + ttl_seconds) as int),
        ),
        r@.len() > 0,
{
    let exp = now + ttl_seconds;
    jwt_encode(sub, now, exp, secret)
}

/// A token issued with time to live `ttl` at instant `issued` is live at
/// `issued + ttl - 1` and no longer live at `issued + ttl` or any later
/// instant: the boundary instant itself is consistently excluded.
pub proof fn lemma_token_ttl_boundary(issued: int, ttl: int)
    requires
        0 < ttl,
    ensures
        live_at(issued + ttl, issued + ttl - 1),
        !live_at(issued + ttl, issued + ttl),
        !live_at(issued + ttl, issued + ttl + 1),
{
}

} // verus!
