//! The token issuer: claims for an authenticated user, signed with the
//! secret key.

use vstd::prelude::*;
use crate::error::CryptoError;
use crate::model::ExternalId;
use crate::secret::SecretKey;

verus! {

/// How long an issued token is valid, in seconds.
pub const TOKEN_TTL_SECONDS: u32 = 3600;

/// What a token says: whom it was issued for, when, and until when it is
/// valid. Both times are seconds since the epoch.
#[derive(Debug)]
pub struct Claims {
    pub sub: String,
    pub iat: i64,
    pub exp: i64,
}

/// What claims are, as plain values.
pub struct ClaimsView {
    pub sub: Seq<char>,
    pub iat: int,
    pub exp: int,
}

impl View for Claims {
    type V = ClaimsView;

    open spec fn view(&self) -> ClaimsView {
        ClaimsView { sub: self.sub@, iat: self.iat as int, exp: self.exp as int }
    }
}

/// The claims for `subject`, issued at `now` and valid for `ttl` seconds;
/// none where the expiry is past the last second that a claim can hold.
pub open spec fn spec_claims(subject: ExternalId, now: i64, ttl: u32) -> Option<ClaimsView> {
    if now + ttl <= i64::MAX {
        Some(ClaimsView { sub: subject.spec_text(), iat: now as int, exp: now + ttl })
    } else {
        None
    }
}

impl Claims {
    /// Builds the claims for `subject`, issued at `now` and valid for `ttl`
    /// seconds.
    pub fn new(subject: ExternalId, now: i64, ttl: u32) -> (claims: Option<Claims>)
        ensures
            match claims {
                Some(c) => spec_claims(subject, now, ttl) == Some(c@),
                None => spec_claims(subject, now, ttl) is None,
            },
    {
        match now.checked_add(ttl as i64) {
            Some(exp) => Some(Claims { sub: subject.to_text(), iat: now, exp }),
            None => None,
        }
    }
}

/// The error of the `jsonwebtoken` crate.
#[verifier::external_type_specification]
#[verifier::external_body]
pub struct ExJwtError(jsonwebtoken::errors::Error);

/// The token that the `jsonwebtoken` crate makes of three claims and a key
/// with HMAC-SHA512, or `None` where it makes none.
pub uninterp spec fn hs512_token(sub: Seq<char>, iat: int, exp: int, key: Seq<char>) -> Option<
    Seq<char>,
>;

/// Trusted: calls `jsonwebtoken::encode` with a header for HS512, the claims
/// `sub`, `iat` and `exp` in this order, and the bytes of `key` as the HMAC
/// secret. The call computes its result from these values alone. A token
/// that it returns is the encoded header, the encoded claims and the
/// signature joined by dots, so it is never empty.
#[verifier::external_body]
fn sign_hs512(sub: &str, iat: i64, exp: i64, key: &str) -> (signed: Result<
    String,
    jsonwebtoken::errors::Error,
>)
    ensures
        match signed {
            Ok(token) => hs512_token(sub@, iat as int, exp as int, key@) == Some(token@)
                && token@.len() > 0,
            Err(_) => hs512_token(sub@, iat as int, exp as int, key@) is None,
        },
{
    let mut claims = serde_json::Map::new();
    claims.insert("sub".to_string(), serde_json::Value::from(sub));
    claims.insert("iat".to_string(), serde_json::Value::from(iat));
    claims.insert("exp".to_string(), serde_json::Value::from(exp));
    jsonwebtoken::encode(
        &jsonwebtoken::Header::new(jsonwebtoken::Algorithm::HS512),
        &claims,
        &jsonwebtoken::EncodingKey::from_secret(key.as_bytes()),
    )
}

/// Trusted: calls `chrono::Utc::now` and takes the seconds since the epoch
/// of what it returns. Nothing is known of the result.
#[verifier::external_body]
pub(crate) fn unix_now() -> i64 {
    chrono::Utc::now().timestamp()
}

/// What the issuer returns for the outcome of signing: the token, or a
/// signing failure.
pub fn token_from_signing(signed: Result<String, jsonwebtoken::errors::Error>) -> (token: Result<
    String,
    CryptoError,
>)
    ensures
        match signed {
            Ok(text) => token == Ok::<String, CryptoError>(text),
            Err(_) => token == Err::<String, CryptoError>(CryptoError::SignFailure),
        },
{
    match signed {
        Ok(text) => Ok(text),
        Err(_) => Err(CryptoError::SignFailure),
    }
}

/// An issuer's result with the token as a sequence of characters.
pub open spec fn token_text(token: Result<String, CryptoError>) -> Result<Seq<char>, CryptoError> {
    match token {
        Ok(text) => Ok(text@),
        Err(e) => Err(e),
    }
}

/// The token for given claims under a key, or a signing failure.
pub open spec fn spec_sign(claims: ClaimsView, key: Seq<char>) -> Result<Seq<char>, CryptoError> {
    match hs512_token(claims.sub, claims.iat, claims.exp, key) {
        Some(token) => Ok(token),
        None => Err(CryptoError::SignFailure),
    }
}

/// The token for `subject`, issued at `now` for `ttl` seconds under a key.
/// Claims that cannot be built cannot be signed.
pub open spec fn spec_issue(subject: ExternalId, key: Seq<char>, now: i64, ttl: u32) -> Result<
    Seq<char>,
    CryptoError,
> {
    match spec_claims(subject, now, ttl) {
        Some(claims) => spec_sign(claims, key),
        None => Err(CryptoError::SignFailure),
    }
}

/// Signs claims with the secret key.
pub fn sign(claims: &Claims, secret: &SecretKey) -> (token: Result<String, CryptoError>)
    ensures
        token_text(token) == spec_sign(claims@, secret@),
        token is Ok ==> token->Ok_0@.len() > 0,
{
    let signed = sign_hs512(claims.sub.as_str(), claims.iat, claims.exp, secret.as_str());
    token_from_signing(signed)
}

/// Issues a token for `subject`: builds the claims `sub`, `iat = now` and
/// `exp = now + ttl`, and signs them with the secret key.
pub fn issue(subject: ExternalId, secret: &SecretKey, now: i64, ttl: u32) -> (token: Result<
    String,
    CryptoError,
>)
    ensures
        token_text(token) == spec_issue(subject, secret@, now, ttl),
        token is Ok ==> token->Ok_0@.len() > 0,
{
    match Claims::new(subject, now, ttl) {
        Some(claims) => sign(&claims, secret),
        None => Err(CryptoError::SignFailure),
    }
}

/// The claims that are built for a token hold the subject's identifier as
/// text, and expire exactly `ttl` seconds after they were issued.
pub proof fn claims_window(subject: ExternalId, now: i64, ttl: u32)
    requires
        spec_claims(subject, now, ttl) is Some,
    ensures
        spec_claims(subject, now, ttl)->Some_0.sub == subject.spec_text(),
        spec_claims(subject, now, ttl)->Some_0.iat == now,
        spec_claims(subject, now, ttl)->Some_0.exp - spec_claims(subject, now, ttl)->Some_0.iat
            == ttl,
{
}

} // verus!
