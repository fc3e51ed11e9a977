//! A multi-user task-tracking backend's core, verified: bearer-token
//! verification against a signing-key cache, the authorization boundary that
//! gates every task route, and the task store's per-owner semantics.
//!
//! Clients authenticate with RS256-signed bearer tokens issued by an outside
//! identity provider. The signing keys are fetched once at process startup
//! and cached for the process lifetime ([`jwks`]); each request's token is
//! verified and classified ([`auth`]); only a verified identity reaches the
//! task operations, which are scoped by that identity alone ([`db`] and
//! [`handlers`]). Network and database I/O stay outside this crate.

pub mod auth;
pub mod db;
pub mod handlers;
pub mod jwks;
pub mod models;

use vstd::prelude::*;

verus! {

/// Classified reasons why bearer-token authentication can fail.
///
/// Every variant maps to an HTTP status: `MalformedToken` to 400, all
/// others to 401.
#[derive(Clone, Copy, Debug, PartialEq, Eq, Structural)]
pub enum VerificationError {
    /// The token header could not be parsed, or it names no key identifier.
    MalformedToken,
    /// The token's key identifier is not present in the signing-key cache.
    UnknownSigningKey,
    /// Signature verification or claim decoding failed.
    InvalidSignatureOrClaims,
    /// The token carries no subject, or an empty one.
    MissingSubject,
    /// The request carries no `Authorization: Bearer <token>` credential.
    MissingCredential,
}

} // verus!
