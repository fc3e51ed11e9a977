//! Token verifier and authorization boundary.
//!
//! A bearer token is verified in stages: parse its header for the key
//! identifier, look that identifier up in the signing-key cache, verify the
//! RS256 signature and decode the claim set, and require a non-empty `sub`
//! claim. Each stage that fails maps to one `VerificationError` variant, and
//! the boundary in front of the handlers rejects the request before any
//! handler logic runs.

use vstd::prelude::*;

use crate::jwks::SigningKeyCache;
use crate::VerificationError;

verus! {

/// The claim set this crate reads from a verified token: the `sub` claim,
/// the stable user identifier issued by the identity provider.
pub struct Claims {
    pub sub: String,
}

/// The identity a request acts as, derived from a verified token and valid
/// for that request alone.
pub struct AuthenticatedUser {
    pub id: String,
}

/// The key identifier named in the token's header: `None` when the header
/// cannot be parsed or names no `kid`. A token's header is a function of the
/// token string alone.
pub uninterp spec fn token_key_id(token: Seq<char>) -> Option<Seq<char>>;

/// Relies on `jsonwebtoken::decode_header`: it parses the token's header
/// without verifying anything, and the header — hence its optional `kid` —
/// depends on the token string alone.
#[verifier::external_body]
fn decode_header_kid(token: &String) -> (r: Option<String>)
    ensures
        match r {
            Some(k) => token_key_id(token@) == Some(k@),
            None => token_key_id(token@) is None,
        },
{
    match jsonwebtoken::decode_header(token) {
        Ok(header) => header.kid,
        Err(_) => None,
    }
}

/// Relies on `jsonwebtoken::decode` with algorithm RS256 and audience
/// validation disabled. Whether it accepts the token depends on the opaque
/// key material and on the clock (the `exp` claim is checked), so nothing is
/// promised of the outcome; `verify_token` states what holds either way.
#[verifier::external_body]
fn decode_rs256_claims(token: &String, key: &jsonwebtoken::DecodingKey) -> (r: Result<
    Option<Claims>,
    (),
>) {
    let mut validation = jsonwebtoken::Validation::new(jsonwebtoken::Algorithm::RS256);
    validation.validate_aud = false;
    match jsonwebtoken::decode::<serde_json::Value>(token, key, &validation) {
        Ok(data) => Ok(
            match data.claims.get("sub").and_then(|v| v.as_str()) {
                Some(s) => Some(Claims { sub: s.to_string() }),
                None => None,
            },
        ),
        Err(_) => Err(()),
    }
}

/// Maps the outcome of signature verification and claim decoding to an
/// identity or a classified failure: a decoded claim set with a non-empty
/// `sub` yields exactly that subject; a missing or empty `sub` is
/// `MissingSubject`; any cryptographic or structural failure is
/// `InvalidSignatureOrClaims`.
pub fn claims_to_identity(outcome: Result<Option<Claims>, ()>) -> (r: Result<
    AuthenticatedUser,
    VerificationError,
>)
    ensures
        match outcome {
            Ok(Some(c)) => if c.sub@.len() > 0 {
                r matches Ok(u) && u.id@ == c.sub@
            } else {
                r matches Err(e) && e == VerificationError::MissingSubject
            },
            Ok(None) => r matches Err(e) && e == VerificationError::MissingSubject,
            Err(_) => r matches Err(e) && e == VerificationError::InvalidSignatureOrClaims,
        },
{
    match outcome {
        Ok(Some(c)) => {
            if c.sub.as_str().is_empty() {
                Err(VerificationError::MissingSubject)
            } else {
                Ok(AuthenticatedUser { id: c.sub })
            }
        },
        Ok(None) => Err(VerificationError::MissingSubject),
        Err(_) => Err(VerificationError::InvalidSignatureOrClaims),
    }
}

/// Verifies a bearer token against the signing-key cache.
///
/// A token whose header cannot be parsed or names no key identifier is
/// `MalformedToken`; a key identifier absent from the cache is
/// `UnknownSigningKey`; with a cached key, the outcome is an identity with a
/// non-empty subject or one of `InvalidSignatureOrClaims` and
/// `MissingSubject`.
pub fn verify_token(token: &String, jwks: &SigningKeyCache) -> (r: Result<
    AuthenticatedUser,
    VerificationError,
>)
    ensures
        match token_key_id(token@) {
            None => r matches Err(e) && e == VerificationError::MalformedToken,
            Some(kid) => {
                &&& !jwks.contains_kid(kid) ==> (r matches Err(e) && e
                    == VerificationError::UnknownSigningKey)
                &&& jwks.contains_kid(kid) ==> match r {
                    Ok(u) => u.id@.len() > 0,
                    Err(e) => e == VerificationError::InvalidSignatureOrClaims || e
                        == VerificationError::MissingSubject,
                }
            },
        },
        r matches Ok(u) ==> u.id@.len() > 0,
{
    match decode_header_kid(token) {
        None => Err(VerificationError::MalformedToken),
        Some(kid) => match jwks.lookup(&kid) {
            None => Err(VerificationError::UnknownSigningKey),
            Some(key) => claims_to_identity(decode_rs256_claims(token, key)),
        },
    }
}

/// Whether a header value is of scheme `Bearer` with a bearer value
/// present after it.
pub open spec fn has_bearer_prefix(h: Seq<char>) -> bool {
    &&& h.len() > 7
    &&& h[0] == 'B'
    &&& h[1] == 'e'
    &&& h[2] == 'a'
    &&& h[3] == 'r'
    &&& h[4] == 'e'
    &&& h[5] == 'r'
    &&& h[6] == ' '
}

/// The bearer value of a header of scheme `Bearer`: what follows the scheme.
pub open spec fn bearer_token_of(h: Seq<char>) -> Seq<char> {
    h.subrange(7, h.len() as int)
}

/// Strips the `Bearer ` scheme from an `Authorization` header value,
/// returning the token, or `None` when the value is not of that scheme.
pub fn extract_bearer_token(header: &String) -> (r: Option<String>)
    ensures
        match r {
            Some(t) => has_bearer_prefix(header@) && t@ == bearer_token_of(header@),
            None => !has_bearer_prefix(header@),
        },
{
    let s = header.as_str();
    let n = s.unicode_len();
    if n <= 7 {
        return None;
    }
    if s.get_char(0) != 'B' || s.get_char(1) != 'e' || s.get_char(2) != 'a' || s.get_char(3) != 'r'
        || s.get_char(4) != 'e' || s.get_char(5) != 'r' || s.get_char(6) != ' ' {
        return None;
    }
    let token = s.substring_char(7, n);
    Some(token.to_owned())
}

/// The authorization boundary: requires an `Authorization` header of scheme
/// `Bearer` — otherwise `MissingCredential` — and delegates the bearer value
/// to the token verifier. Only a verified token with a non-empty subject
/// yields an identity.
pub fn authenticate(jwks: &SigningKeyCache, auth_header: Option<&String>) -> (r: Result<
    AuthenticatedUser,
    VerificationError,
>)
    ensures
        match auth_header {
            None => r matches Err(e) && e == VerificationError::MissingCredential,
            Some(h) => {
                &&& !has_bearer_prefix(h@) ==> (r matches Err(e) && e
                    == VerificationError::MissingCredential)
                &&& has_bearer_prefix(h@) ==> match token_key_id(bearer_token_of(h@)) {
                    None => r matches Err(e) && e == VerificationError::MalformedToken,
                    Some(kid) => {
                        &&& !jwks.contains_kid(kid) ==> (r matches Err(e) && e
                            == VerificationError::UnknownSigningKey)
                        &&& jwks.contains_kid(kid) ==> match r {
                            Ok(u) => u.id@.len() > 0,
                            Err(e) => e == VerificationError::InvalidSignatureOrClaims || e
                                == VerificationError::MissingSubject,
                        }
                    },
                }
            },
        },
        r matches Ok(u) ==> u.id@.len() > 0,
{
    match auth_header {
        None => Err(VerificationError::MissingCredential),
        Some(h) => match extract_bearer_token(h) {
            None => Err(VerificationError::MissingCredential),
            Some(token) => verify_token(&token, jwks),
        },
    }
}

} // verus!
