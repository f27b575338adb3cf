//! Identity claims and the signed-token scheme that carries them.
//!
//! The wire contract: three fields — subject, issued-at and expiry (Unix
//! seconds) — signed with a symmetric secret (HS256). A claim is stateless;
//! its validity is a function of the signature and, at verification time, the
//! clock. The signature check lives behind the trusted boundary below; the
//! expiry comparison is done in verified code, by the authentication gate.
use vstd::prelude::*;

verus! {

/// A verified statement of identity: subject, issued-at and expiry, both in
/// Unix seconds.
#[derive(Debug)]
pub struct TokenClaims {
    pub sub: String,
    pub iat: usize,
    pub exp: usize,
}

/// The mathematical value of a claim.
pub ghost struct TokenClaimsView {
    pub sub: Seq<char>,
    pub iat: usize,
    pub exp: usize,
}

impl View for TokenClaims {
    type V = TokenClaimsView;

    open spec fn view(&self) -> TokenClaimsView {
        TokenClaimsView { sub: self.sub@, iat: self.iat, exp: self.exp }
    }
}

impl Clone for TokenClaims {
    /// A cloned claim carries the same value as the original.
    fn clone(&self) -> (r: Self)
        ensures
            r@ == self@,
    {
        TokenClaims { sub: self.sub.clone(), iat: self.iat, exp: self.exp }
    }
}

/// The claims a token carries under `secret`: `Some` exactly when the token
/// is a well-formed compact token whose HS256 signature verifies under
/// `secret` and whose payload is a JSON object carrying the subject as a
/// string and issued-at and expiry as unsigned 64-bit integers; then those
/// three fields. A function of the token and the secret alone — whether an
/// unexpired claim is *accepted* is judged against the clock, in verified
/// code.
pub uninterp spec fn token_claims_of(token: Seq<char>, secret: Seq<char>) -> Option<
    TokenClaimsView,
>;

/// Relies on jsonwebtoken::encode with the default header (HS256) and a
/// symmetric secret: the returned token carries exactly `claims` under
/// `secret`. For an HS256 header, a key from `from_secret` and claims carried
/// as a JSON object with string keys, encoding cannot fail — the key family
/// matches the algorithm, serialization of such an object is total, and HMAC
/// signing has no error path — so this returns the token itself.
#[verifier::external_body]
pub(crate) fn jwt_encode(claims: &TokenClaims, secret: &String) -> (r: String)
    ensures
        token_claims_of(r@, secret@) == Some(claims@),
{
    let mut m = serde_json::Map::new();
    m.insert("sub".to_string(), serde_json::Value::String(claims.sub.clone()));
    m.insert("iat".to_string(), serde_json::Value::from(claims.iat as u64));
    m.insert("exp".to_string(), serde_json::Value::from(claims.exp as u64));
    jsonwebtoken::encode(
        &jsonwebtoken::Header::default(),
        &serde_json::Value::Object(m),
        &jsonwebtoken::EncodingKey::from_secret(secret.as_bytes()),
    )
        .expect("HS256 encoding of a JSON object cannot fail")
}

/// Relies on jsonwebtoken::decode with expiry checking turned off (HS256
/// only, the expiry claim still required to be present): it hands back the
/// claims the token itself carries under `secret` — exactly when it carries
/// some, and exactly those. Expiry is judged by the caller, in verified code,
/// against a clock reading.
#[verifier::external_body]
pub(crate) fn jwt_decode(token: &String, secret: &String) -> (r: Option<TokenClaims>)
    ensures
        r is Some <==> token_claims_of(token@, secret@) is Some,
        r matches Some(c) ==> token_claims_of(token@, secret@) == Some(c@),
{
    let mut validation = jsonwebtoken::Validation::default();
    validation.validate_exp = false;
    let data = jsonwebtoken::decode::<serde_json::Value>(
        token,
        &jsonwebtoken::DecodingKey::from_secret(secret.as_bytes()),
        &validation,
    )
        .ok()?;
    let sub = match data.claims.get("sub") {
        Some(serde_json::Value::String(s)) => s.clone(),
        _ => return None,
    };
    let iat = data.claims.get("iat").and_then(|v| v.as_u64())? as usize;
    let exp = data.claims.get("exp").and_then(|v| v.as_u64())? as usize;
    Some(TokenClaims { sub, iat, exp })
}

} // verus!
