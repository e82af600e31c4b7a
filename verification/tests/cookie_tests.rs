use authcore::cookie::session_cookie_in_headers;

fn headers(values: &[&str]) -> Vec<Vec<u8>> {
    values.iter().map(|v| v.as_bytes().to_vec()).collect()
}

#[test]
fn finds_single_cookie() {
    let h = headers(&["RauthySession=abc"]);
    assert_eq!(session_cookie_in_headers(&h), Some(b"abc".to_vec()));
}

#[test]
fn finds_cookie_among_others() {
    let h = headers(&["theme=dark; RauthySession=xyz; lang=en"]);
    assert_eq!(session_cookie_in_headers(&h), Some(b"xyz".to_vec()));
}

#[test]
fn trims_spaces_around_name_and_value() {
    let h = headers(&["theme=dark;  RauthySession = abc "]);
    assert_eq!(session_cookie_in_headers(&h), Some(b"abc".to_vec()));
}

#[test]
fn absent_cookie_is_none() {
    let h = headers(&["theme=dark; lang=en"]);
    assert_eq!(session_cookie_in_headers(&h), None);
    assert_eq!(session_cookie_in_headers(&headers(&[])), None);
}

#[test]
fn name_is_case_sensitive() {
    let h = headers(&["rauthysession=abc"]);
    assert_eq!(session_cookie_in_headers(&h), None);
}

#[test]
fn name_must_match_exactly() {
    let h = headers(&["RauthySessionX=abc; XRauthySession=def"]);
    assert_eq!(session_cookie_in_headers(&h), None);
}

#[test]
fn last_occurrence_wins_within_a_header() {
    let h = headers(&["RauthySession=first; RauthySession=second"]);
    assert_eq!(session_cookie_in_headers(&h), Some(b"second".to_vec()));
}

#[test]
fn last_header_wins_across_headers() {
    let h = headers(&["RauthySession=first", "lang=en", "RauthySession=second"]);
    assert_eq!(session_cookie_in_headers(&h), Some(b"second".to_vec()));
}

#[test]
fn pair_without_equals_carries_nothing() {
    let h = headers(&["RauthySession; lang=en"]);
    assert_eq!(session_cookie_in_headers(&h), None);
}

#[test]
fn empty_value_is_found_empty() {
    let h = headers(&["RauthySession="]);
    assert_eq!(session_cookie_in_headers(&h), Some(Vec::new()));
}

#[test]
fn value_keeps_inner_bytes_verbatim() {
    let h = headers(&["RauthySession=a=b c"]);
    assert_eq!(session_cookie_in_headers(&h), Some(b"a=b c".to_vec()));
}
