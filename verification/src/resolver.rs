//! Session resolution against the external identity provider, and the
//! strict session guard.
//!
//! Resolution is a short protocol driven by the caller, who performs the
//! network calls and feeds each outcome back in:
//!
//! 1. [`begin_resolution`] looks at the request's `RauthySession` cookie.
//!    Without one, resolution is complete: the request is anonymous and no
//!    provider call is made. With one, the caller must introspect the
//!    session at the provider, forwarding the cookie value.
//! 2. [`on_introspection`] takes the introspection outcome. A failure is
//!    absorbed: the request proceeds anonymously (fail-open). A session
//!    record directs the caller to fetch the user profile of exactly the
//!    subject the provider named — the two calls are strictly sequential.
//! 3. [`on_profile`] takes the profile outcome and completes the context:
//!    a session exists exactly when both calls succeeded.
//!
//! [`require_session`] is the strict guard on top: handlers that must know
//! the end-user identity get the resolved session or a 401 rejection with a
//! fixed JSON body.

use vstd::prelude::*;
use vstd::string::StringExecFns;

use crate::session::AuthCtx;
use crate::session::RauthySession;
use crate::session::RauthySessionInfo;
use crate::session::RauthyUserInfo;

verus! {

/// Why a provider call produced no usable record: a transport failure or a
/// body that did not deserialize. Downstream, the two are indistinguishable
/// by design; the detail is only logged.
#[derive(Clone, Debug, PartialEq, Eq)]
pub struct ProviderFailure {
    pub detail: String,
}

/// The first resolution decision: finish anonymously, or introspect the
/// presented cookie at the provider.
#[derive(Clone, Debug, PartialEq, Eq)]
pub enum ResolutionStart {
    Anonymous,
    Introspect { cookie: Vec<u8> },
}

/// The decision after the introspection call: finish anonymously, or fetch
/// the user profile of the subject the provider named.
#[derive(Clone, Debug, PartialEq, Eq)]
pub enum IntrospectionStep {
    Anonymous,
    FetchProfile { subject: String, info: RauthySessionInfo },
}

/// What [`begin_resolution`] decides for a given cookie.
pub open spec fn start_model(cookie: Option<Vec<u8>>) -> ResolutionStart {
    match cookie {
        None => ResolutionStart::Anonymous,
        Some(v) => ResolutionStart::Introspect { cookie: v },
    }
}

/// What [`on_introspection`] decides for a given introspection outcome.
pub open spec fn introspection_model(outcome: Result<RauthySessionInfo, ProviderFailure>)
    -> IntrospectionStep {
    match outcome {
        Err(_) => IntrospectionStep::Anonymous,
        Ok(info) => IntrospectionStep::FetchProfile { subject: info.user_id, info },
    }
}

/// What [`on_profile`] decides for a given profile outcome.
pub open spec fn profile_model(
    info: RauthySessionInfo,
    outcome: Result<RauthyUserInfo, ProviderFailure>,
) -> AuthCtx {
    match outcome {
        Err(_) => AuthCtx { session: None },
        Ok(user) => AuthCtx { session: Some(RauthySession { info, user }) },
    }
}

/// The session that a whole resolution run yields, as a function of the
/// request's cookie and the outcomes of the two provider calls (each outcome
/// meaningful only when the protocol reaches that call).
pub open spec fn resolution_model(
    cookie: Option<Seq<u8>>,
    introspection: Result<RauthySessionInfo, ProviderFailure>,
    profile: Result<RauthyUserInfo, ProviderFailure>,
) -> Option<RauthySession> {
    match cookie {
        None => None,
        Some(_) => match introspection {
            Err(_) => None,
            Ok(info) => match profile {
                Err(_) => None,
                Ok(user) => Some(RauthySession { info, user }),
            },
        },
    }
}

/// Starts resolution for a request: with no `RauthySession` cookie the
/// request is anonymous and no provider call is to be made; with one, the
/// caller must introspect exactly that cookie value.
pub fn begin_resolution(cookie: Option<Vec<u8>>) -> (r: ResolutionStart)
    ensures
        r == start_model(cookie),
{
    match cookie {
        None => ResolutionStart::Anonymous,
        Some(v) => ResolutionStart::Introspect { cookie: v },
    }
}

/// Continues resolution after the introspection call: absorbs a provider
/// failure into an anonymous request, and otherwise directs the caller to
/// fetch the profile of exactly the subject named by the session record.
pub fn on_introspection(outcome: Result<RauthySessionInfo, ProviderFailure>) -> (r:
    IntrospectionStep)
    ensures
        r == introspection_model(outcome),
        r matches IntrospectionStep::FetchProfile { subject, info } ==> subject == info.user_id,
{
    match outcome {
        Err(_) => IntrospectionStep::Anonymous,
        Ok(info) => {
            let subject = info.user_id.clone();
            IntrospectionStep::FetchProfile { subject, info }
        },
    }
}

/// Completes resolution after the profile call: a provider failure is
/// absorbed into an anonymous request; otherwise the context composes the
/// two provider records into the authenticated session.
pub fn on_profile(info: RauthySessionInfo, outcome: Result<RauthyUserInfo, ProviderFailure>) -> (r:
    AuthCtx)
    ensures
        r == profile_model(info, outcome),
{
    match outcome {
        Err(_) => AuthCtx { session: None },
        Ok(user) => AuthCtx { session: Some(RauthySession { info, user }) },
    }
}

/// The fixed JSON body sent with a strict-guard rejection. Its final word
/// misspells "endpoint"; the body is kept verbatim for compatibility.
pub open spec fn guard_rejection_body() -> Seq<char> {
    "{\"error\": \"valid user session required to access this endpiont.\"}"@
}

/// What the strict guard yields for a resolved context: the session, or a
/// 401 rejection with the fixed JSON body.
pub open spec fn guard_model(ctx: AuthCtx) -> Result<RauthySession, (u16, Seq<char>)> {
    match ctx.session {
        Some(s) => Ok(s),
        None => Err((401u16, guard_rejection_body())),
    }
}

/// The strict session guard: yields the resolver's session unchanged, or
/// rejects with HTTP 401 and the fixed JSON body when the context carries
/// none.
pub fn require_session(ctx: AuthCtx) -> (r: Result<RauthySession, (u16, String)>)
    ensures
        guard_model(ctx) matches Ok(s) ==> (r matches Ok(g) && g == s),
        guard_model(ctx) is Err ==> (r matches Err(e) && e.0 == 401 && e.1@ == guard_rejection_body()),
        r is Ok <==> ctx.session is Some,
{
    match ctx.session {
        Some(s) => Ok(s),
        None => Err(
            (
                401,
                String::from_str(
                    "{\"error\": \"valid user session required to access this endpiont.\"}",
                ),
            ),
        ),
    }
}

/// The provider path of the session-introspection endpoint.
pub fn sessioninfo_path() -> (r: String)
    ensures
        r@ == "/auth/v1/oidc/sessioninfo"@,
{
    String::from_str("/auth/v1/oidc/sessioninfo")
}

/// The provider path of the user-profile endpoint for a subject id — the
/// subject the introspection step named, never any other.
pub fn user_profile_path(subject: &str) -> (r: String)
    ensures
        r@ == "/auth/v1/users/"@ + subject@,
{
    let mut path = String::from_str("/auth/v1/users/");
    path.append(subject);
    path
}

/// The `Cookie` header value with which both provider calls forward the
/// caller's session cookie.
pub fn session_cookie_header(value: &str) -> (r: String)
    ensures
        r@ == "RauthySession="@ + value@,
{
    let mut header = String::from_str("RauthySession=");
    header.append(value);
    header
}

/// Starts resolution straight from a request's raw `Cookie` header values:
/// looks the `RauthySession` cookie up under the header grammar and takes
/// the first resolution decision on the result.
pub fn begin_resolution_for_request(cookie_headers: &Vec<Vec<u8>>) -> (r: ResolutionStart)
    ensures
        r is Introspect <==> crate::cookie::headers_session_value(cookie_headers@) is Some,
        r matches ResolutionStart::Introspect { cookie } ==> Some(cookie@)
            == crate::cookie::headers_session_value(cookie_headers@),
{
    begin_resolution(crate::cookie::session_cookie_in_headers(cookie_headers))
}

/// Law: a request without a `RauthySession` cookie resolves to "no session"
/// with zero outbound calls — the start decision is already final, and the
/// run's outcome is anonymous whatever the two call outcomes would be.
pub proof fn lemma_no_cookie_is_anonymous(
    introspection: Result<RauthySessionInfo, ProviderFailure>,
    profile: Result<RauthyUserInfo, ProviderFailure>,
)
    ensures
        start_model(None) == ResolutionStart::Anonymous,
        resolution_model(None, introspection, profile) is None,
{
}

/// Law: with a `RauthySession` cookie present, resolution yields a session
/// exactly when both provider calls succeed; the session then composes
/// precisely the two provider records — in particular the profile belongs
/// to the introspected subject — and a failure of either call degrades the
/// request to anonymous instead of failing it.
pub proof fn lemma_resolution_outcome(
    cookie: Seq<u8>,
    introspection: Result<RauthySessionInfo, ProviderFailure>,
    profile: Result<RauthyUserInfo, ProviderFailure>,
)
    ensures
        resolution_model(Some(cookie), introspection, profile) is Some <==> (introspection is Ok && profile is Ok),
        resolution_model(Some(cookie), introspection, profile) matches Some(s) ==> s == (RauthySession { info: introspection->Ok_0, user: profile->Ok_0 }),
        introspection matches Ok(info) ==> introspection_model(introspection) == (IntrospectionStep::FetchProfile { subject: info.user_id, info }),
{
}

/// Law: the strict guard yields exactly the session the resolver produced
/// when there is one, and a 401 rejection with the fixed JSON body when
/// there is none; it never constructs a session of its own.
pub proof fn lemma_strict_guard_faithful(
    ctx: AuthCtx,
    cookie: Option<Seq<u8>>,
    introspection: Result<RauthySessionInfo, ProviderFailure>,
    profile: Result<RauthyUserInfo, ProviderFailure>,
)
    requires
        ctx.session == resolution_model(cookie, introspection, profile),
    ensures
        ctx.session matches Some(s) ==> guard_model(ctx) == Ok::<RauthySession, (u16, Seq<char>)>(s),
        ctx.session is None ==> guard_model(ctx) == Err::<RauthySession, (u16, Seq<char>)>((401u16, guard_rejection_body())),
{
}

} // verus!
