//! Data model of session resolution.
//!
//! All records here mirror what the external identity provider asserts about
//! a caller. The service never constructs or mutates a session or user
//! record of its own: it only carries the provider's answers, composed into
//! a [`RauthySession`] when both provider calls succeed for a request.

use vstd::prelude::*;

verus! {

/// A provider-asserted session record: the answer of the provider's
/// session-introspection endpoint for a presented session cookie.
#[derive(Clone, Debug, PartialEq, Eq)]
pub struct RauthySessionInfo {
    pub id: String,
    pub user_id: String,
    pub roles: String,
    pub exp: String,
    pub timeout: String,
    pub state: String,
}

/// A provider-asserted user record: the answer of the provider's
/// user-profile endpoint for a subject id.
#[derive(Clone, Debug, PartialEq, Eq)]
pub struct RauthyUserInfo {
    pub id: String,
    pub email: String,
    pub given_name: String,
    pub family_name: String,
    pub language: String,
    pub roles: Vec<String>,
    pub enabled: bool,
    pub email_verified: bool,
    pub password_expires: Option<u64>,
    pub created_at: u64,
    pub last_login: u64,
    pub account_type: String,
    pub webauthn_user_id: Option<String>,
    pub user_values: RauthyUserInfoUserValues,
    pub auth_provider_id: Option<String>,
    pub federation_uid: Option<String>,
}

/// The nested address and contact sub-record of a user profile.
#[derive(Clone, Debug, PartialEq, Eq)]
pub struct RauthyUserInfoUserValues {
    pub birthdate: Option<String>,
    pub phone: Option<String>,
    pub street: Option<String>,
    pub zip: Option<String>,
    pub city: Option<String>,
    pub country: Option<String>,
}

/// An authenticated end-user session: exactly one session record and one
/// user record, present only when both provider calls succeeded for the
/// same request. Request-scoped; never cached or persisted.
#[derive(Clone, Debug, PartialEq, Eq)]
pub struct RauthySession {
    pub info: RauthySessionInfo,
    pub user: RauthyUserInfo,
}

/// The per-request authentication context handed to route handlers.
///
/// `session` is `None` both when no session cookie was presented and when a
/// provider call failed: the two cases are indistinguishable downstream by
/// design, and a missing session degrades the request to anonymous.
#[derive(Clone, Debug, PartialEq, Eq)]
pub struct AuthCtx {
    pub session: Option<RauthySession>,
}

} // verus!
