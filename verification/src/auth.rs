//! The authentication gate: extracts the bearer credential from the
//! authorization header, checks its signature against the configuration
//! snapshot's signing secret, and judges its expiry against a clock reading.
//! Two terminal outcomes per request: authorized, with the decoded claim
//! handed to the caller, or rejected.
use vstd::prelude::*;

use crate::errors::AuthError;
use crate::settings::{effective_secret_view, Settings};
use crate::token::{jwt_decode, token_claims_of, TokenClaims, TokenClaimsView};
use vstd::string::{StrSliceExecFns, StringExecFns};

verus! {

/// How far in the past a claim's expiry may lie and still be accepted, in
/// seconds: the slack for clock skew between issuer and verifier.
pub const LEEWAY_SECONDS: i64 = 60;

/// Whether a claim is current at clock reading `now`: its expiry is no more
/// than the leeway in the past.
pub open spec fn claim_current(c: TokenClaimsView, now: i64) -> bool {
    c.exp + LEEWAY_SECONDS >= now
}

/// The bearer credential an authorization header carries: the rest of the
/// header after a `Bearer ` prefix, or nothing when the header is absent or
/// shaped otherwise.
pub open spec fn bearer_of(header: Option<Seq<char>>) -> Option<Seq<char>> {
    match header {
        Some(h) => if h.len() >= 7 && h.subrange(0, 7) == "Bearer "@ {
            Some(h.subrange(7, h.len() as int))
        } else {
            None
        },
        None => None,
    }
}

/// Extracts the bearer credential from an authorization header.
pub fn extract_bearer(header: &Option<String>) -> (r: Option<String>)
    ensures
        r.deep_view() == bearer_of(header.deep_view()),
{
    match header {
        Some(h) => {
            let n = h.as_str().unicode_len();
            if n >= 7 {
                let prefix = h.as_str().substring_char(0, 7);
                if String::from_str(prefix) == String::from_str("Bearer ") {
                    let rest = h.as_str().substring_char(7, n);
                    Some(String::from_str(rest))
                } else {
                    None
                }
            } else {
                None
            }
        },
        None => None,
    }
}

/// Validates the request's bearer credential against the snapshot's signing
/// secret, judging expiry against the clock reading `now`.
///
/// The outcome is a function of header, snapshot and clock reading: a missing
/// or misshapen header is rejected as `MissingToken`; a credential carrying
/// no claims under the secret (bad signature, malformed token) and one whose
/// claims have expired are both rejected as `InvalidToken`, so nothing leaks
/// about which check failed; a credential carrying current claims is accepted
/// as exactly those claims.
pub fn authorize(settings: &Settings, header: &Option<String>, now: i64) -> (r: Result<
    TokenClaims,
    AuthError,
>)
    ensures
        r == Err::<TokenClaims, AuthError>(AuthError::MissingToken) <==> bearer_of(
            header.deep_view(),
        ) is None,
        r matches Ok(c) ==> (bearer_of(header.deep_view()) matches Some(t) && token_claims_of(
            t,
            effective_secret_view(settings@),
        ) == Some(c@) && claim_current(c@, now)),
        bearer_of(header.deep_view()) matches Some(t) ==> (match token_claims_of(
            t,
            effective_secret_view(settings@),
        ) {
            Option::None => r == Err::<TokenClaims, AuthError>(AuthError::InvalidToken),
            Option::Some(c) => if claim_current(c, now) {
                r matches Ok(rc) && rc@ == c
            } else {
                r == Err::<TokenClaims, AuthError>(AuthError::InvalidToken)
            },
        }),
{
    match extract_bearer(header) {
        None => Err(AuthError::MissingToken),
        Some(token) => {
            let secret = settings.effective_secret();
            match jwt_decode(&token, &secret) {
                Some(claims) => {
                    if claims.exp as i128 + LEEWAY_SECONDS as i128 >= now as i128 {
                        Ok(claims)
                    } else {
                        Err(AuthError::InvalidToken)
                    }
                },
                None => Err(AuthError::InvalidToken),
            }
        },
    }
}

} // verus!
