use authcore::gate::authenticate_request;
use authcore::gate::AuthenticationError;
use authcore::gate::ServiceError;

#[test]
fn accepts_exact_bearer_credential() {
    let header = b"Bearer s3cret".to_vec();
    let r = authenticate_request(Some(header.as_slice()), b"s3cret");
    assert!(r.is_ok());
}

#[test]
fn accepts_scheme_case_insensitively() {
    let header = b"bEaReR s3cret".to_vec();
    let r = authenticate_request(Some(header.as_slice()), b"s3cret");
    assert!(r.is_ok());
}

#[test]
fn rejects_wrong_token() {
    let header = b"Bearer wrong".to_vec();
    let r = authenticate_request(Some(header.as_slice()), b"s3cret");
    assert!(r.is_err());
}

#[test]
fn rejects_missing_header() {
    let r = authenticate_request(None, b"s3cret");
    assert!(r.is_err());
}

#[test]
fn rejects_wrong_scheme() {
    let header = b"Basic s3cret".to_vec();
    let r = authenticate_request(Some(header.as_slice()), b"s3cret");
    assert!(r.is_err());
}

#[test]
fn rejects_token_with_extra_space() {
    // the token is everything after "Bearer ", compared verbatim
    let header = b"Bearer  s3cret".to_vec();
    let r = authenticate_request(Some(header.as_slice()), b"s3cret");
    assert!(r.is_err());
}

#[test]
fn rejects_scheme_without_token() {
    let header = b"Bearer".to_vec();
    let r = authenticate_request(Some(header.as_slice()), b"s3cret");
    assert!(r.is_err());
}

#[test]
fn accepts_empty_credential_only_for_empty_token() {
    let header = b"Bearer ".to_vec();
    assert!(authenticate_request(Some(header.as_slice()), b"").is_ok());
    assert!(authenticate_request(Some(header.as_slice()), b"s3cret").is_err());
}

#[test]
fn invalid_bearer_token_maps_to_401_plain_text() {
    let header = b"Bearer wrong".to_vec();
    let r = authenticate_request(Some(header.as_slice()), b"s3cret");
    let e = r.unwrap_err();
    let (status, body) = AuthenticationError::handle(ServiceError::Authentication(e));
    assert_eq!(status, 401);
    assert_eq!(body, "Authentication error: invalid bearer token / API key.");
    assert!(body.contains("invalid bearer token"));
}

#[test]
fn other_errors_map_to_500() {
    let (status, body) =
        AuthenticationError::handle(ServiceError::Internal("boom".to_string()));
    assert_eq!(status, 500);
    assert_eq!(body, "Error: boom");
}

#[test]
fn message_is_the_fixed_text() {
    assert_eq!(
        AuthenticationError.message(),
        "Authentication error: invalid bearer token / API key."
    );
}
