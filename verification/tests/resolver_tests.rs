use authcore::gate::authenticate_request;
use authcore::resolver::begin_resolution;
use authcore::resolver::begin_resolution_for_request;
use authcore::resolver::on_introspection;
use authcore::resolver::on_profile;
use authcore::resolver::require_session;
use authcore::resolver::IntrospectionStep;
use authcore::resolver::ProviderFailure;
use authcore::resolver::ResolutionStart;
use authcore::session::AuthCtx;
use authcore::session::RauthySessionInfo;
use authcore::session::RauthyUserInfo;
use authcore::session::RauthyUserInfoUserValues;

fn session_info(user_id: &str) -> RauthySessionInfo {
    RauthySessionInfo {
        id: "sess-1".to_string(),
        user_id: user_id.to_string(),
        roles: "user".to_string(),
        exp: "2000000000".to_string(),
        timeout: "1800".to_string(),
        state: "Auth".to_string(),
    }
}

fn user_info(id: &str, email: &str) -> RauthyUserInfo {
    RauthyUserInfo {
        id: id.to_string(),
        email: email.to_string(),
        given_name: "Ada".to_string(),
        family_name: "Lovelace".to_string(),
        language: "en".to_string(),
        roles: vec!["user".to_string()],
        enabled: true,
        email_verified: true,
        password_expires: None,
        created_at: 1,
        last_login: 2,
        account_type: "password".to_string(),
        webauthn_user_id: None,
        user_values: RauthyUserInfoUserValues {
            birthdate: None,
            phone: None,
            street: None,
            zip: None,
            city: None,
            country: None,
        },
        auth_provider_id: None,
        federation_uid: None,
    }
}

#[test]
fn valid_bearer_and_no_cookie_yields_anonymous_context() {
    // secret "s3cret", header "Authorization: Bearer s3cret", no cookie
    let auth_header = b"Bearer s3cret".to_vec();
    assert!(authenticate_request(Some(auth_header.as_slice()), b"s3cret").is_ok());
    let no_cookie_headers: Vec<Vec<u8>> = Vec::new();
    let start = begin_resolution_for_request(&no_cookie_headers);
    assert_eq!(start, ResolutionStart::Anonymous);
    let ctx = AuthCtx { session: None };
    assert!(ctx.session.is_none());
}

#[test]
fn cookie_directs_introspection_with_its_value() {
    let start = begin_resolution(Some(b"abc".to_vec()));
    assert_eq!(start, ResolutionStart::Introspect { cookie: b"abc".to_vec() });
}

#[test]
fn request_cookie_header_feeds_resolution() {
    let h = vec![b"RauthySession=abc".to_vec()];
    let start = begin_resolution_for_request(&h);
    assert_eq!(start, ResolutionStart::Introspect { cookie: b"abc".to_vec() });
}

#[test]
fn both_calls_succeeding_compose_the_session() {
    // provider introspection names subject "u1"; profile is "u1" with email "a@b.com"
    let info = session_info("u1");
    let step = on_introspection(Ok(info.clone()));
    let (subject, info) = match step {
        IntrospectionStep::FetchProfile { subject, info } => (subject, info),
        IntrospectionStep::Anonymous => panic!("expected a profile fetch"),
    };
    assert_eq!(subject, "u1");
    let user = user_info("u1", "a@b.com");
    let ctx = on_profile(info, Ok(user));
    let session = ctx.session.expect("both calls succeeded");
    assert_eq!(session.info.user_id, "u1");
    assert_eq!(session.user.email, "a@b.com");
}

#[test]
fn introspection_failure_degrades_to_anonymous() {
    let failed: Result<RauthySessionInfo, ProviderFailure> =
        Err(ProviderFailure { detail: "timed out".to_string() });
    let step = on_introspection(failed);
    assert_eq!(step, IntrospectionStep::Anonymous);
}

#[test]
fn profile_failure_degrades_to_anonymous() {
    let info = session_info("u1");
    let ctx = on_profile(info, Err(ProviderFailure { detail: "502".to_string() }));
    assert_eq!(ctx, AuthCtx { session: None });
}

#[test]
fn strict_guard_yields_the_resolved_session() {
    let info = session_info("u1");
    let user = user_info("u1", "a@b.com");
    let ctx = on_profile(info, Ok(user));
    let expected = ctx.session.clone().unwrap();
    let got = require_session(ctx).expect("a session was resolved");
    assert_eq!(got, expected);
}

#[test]
fn strict_guard_rejects_anonymous_with_fixed_json() {
    // e.g. the introspection call timed out: optional resolution sees None,
    // the strict guard answers 401 with the fixed JSON body
    let step = on_introspection(Err(ProviderFailure { detail: "timed out".to_string() }));
    assert_eq!(step, IntrospectionStep::Anonymous);
    let ctx = AuthCtx { session: None };
    let err = require_session(ctx).unwrap_err();
    assert_eq!(err.0, 401);
    assert_eq!(
        err.1,
        "{\"error\": \"valid user session required to access this endpiont.\"}"
    );
}

#[test]
fn provider_paths_and_cookie_header_are_exact() {
    assert_eq!(
        authcore::resolver::sessioninfo_path(),
        "/auth/v1/oidc/sessioninfo"
    );
    assert_eq!(
        authcore::resolver::user_profile_path("u1"),
        "/auth/v1/users/u1"
    );
    assert_eq!(
        authcore::resolver::session_cookie_header("abc"),
        "RauthySession=abc"
    );
}
