use uketoru::relay::{validate, Rejection};

#[test]
fn open_relay_lets_a_request_without_header_pass() {
    assert_eq!(validate(None, None), Ok(()));
}

#[test]
fn open_relay_does_not_look_at_the_header() {
    assert_eq!(validate(None, Some(&b"Basic secret"[..])), Ok(()));
    assert_eq!(validate(None, Some(&b"\xff\xfe"[..])), Ok(()));
    assert_eq!(validate(None, Some(&b""[..])), Ok(()));
}

#[test]
fn bearer_with_the_token_is_authorized() {
    assert_eq!(validate(Some("secret"), Some(&b"Bearer secret"[..])), Ok(()));
}

#[test]
fn bearer_with_another_token_is_unauthorized() {
    let outcome = validate(Some("secret"), Some(&b"Bearer wrong"[..]));
    assert_eq!(outcome, Err(Rejection::Unauthorized));
    assert_eq!(Rejection::Unauthorized.status(), 401);
}

#[test]
fn another_scheme_is_a_bad_request() {
    let outcome = validate(Some("secret"), Some(&b"Basic secret"[..]));
    assert_eq!(outcome, Err(Rejection::BadRequest));
    assert_eq!(Rejection::BadRequest.status(), 400);
}

#[test]
fn missing_header_is_unauthorized() {
    assert_eq!(validate(Some("secret"), None), Err(Rejection::Unauthorized));
}

#[test]
fn bare_scheme_is_a_bad_request() {
    assert_eq!(validate(Some("secret"), Some(&b"Bearer"[..])), Err(Rejection::BadRequest));
    assert_eq!(validate(Some(""), Some(&b"Bearer"[..])), Err(Rejection::BadRequest));
}

#[test]
fn empty_and_short_headers_are_bad_requests() {
    assert_eq!(validate(Some("secret"), Some(&b""[..])), Err(Rejection::BadRequest));
    assert_eq!(validate(Some("secret"), Some(&b"Bear"[..])), Err(Rejection::BadRequest));
    assert_eq!(validate(Some("r"), Some(&b"Beare"[..])), Err(Rejection::BadRequest));
}

#[test]
fn scheme_is_matched_by_case() {
    assert_eq!(validate(Some("secret"), Some(&b"bearer secret"[..])), Err(Rejection::BadRequest));
    assert_eq!(validate(Some("secret"), Some(&b"BEARER secret"[..])), Err(Rejection::BadRequest));
}

#[test]
fn header_that_is_not_text_is_a_bad_request() {
    assert_eq!(
        validate(Some("secret"), Some(&b"Bearer \xffsecret"[..])),
        Err(Rejection::BadRequest)
    );
    assert_eq!(validate(Some("secret"), Some(&b"\x00"[..])), Err(Rejection::BadRequest));
    assert_eq!(
        validate(Some("secret"), Some(&b"Bearer secret\n"[..])),
        Err(Rejection::BadRequest)
    );
    assert_eq!(validate(Some("\x7f"), Some(&b"Bearer \x7f"[..])), Err(Rejection::BadRequest));
}

#[test]
fn token_outside_ascii_is_never_matched() {
    let header = "Bearer gehe\u{ef}m";
    assert_eq!(
        validate(Some("gehe\u{ef}m"), Some(header.as_bytes())),
        Err(Rejection::BadRequest)
    );
}

#[test]
fn seventh_byte_is_not_looked_at() {
    assert_eq!(validate(Some("secret"), Some(&b"BearerXsecret"[..])), Ok(()));
    assert_eq!(validate(Some("secret"), Some(&b"Bearer\tsecret"[..])), Ok(()));
    assert_eq!(validate(Some("ecret"), Some(&b"Bearersecret"[..])), Ok(()));
}

#[test]
fn token_is_compared_untrimmed() {
    assert_eq!(
        validate(Some("secret"), Some(&b"Bearer  secret"[..])),
        Err(Rejection::Unauthorized)
    );
    assert_eq!(
        validate(Some("secret"), Some(&b"Bearer secret "[..])),
        Err(Rejection::Unauthorized)
    );
    assert_eq!(validate(Some(" secret"), Some(&b"Bearer  secret"[..])), Ok(()));
}

#[test]
fn token_has_to_match_in_full() {
    assert_eq!(validate(Some("secret"), Some(&b"Bearer secre"[..])), Err(Rejection::Unauthorized));
    assert_eq!(
        validate(Some("secret"), Some(&b"Bearer secrets"[..])),
        Err(Rejection::Unauthorized)
    );
    assert_eq!(validate(Some("secret"), Some(&b"Bearer "[..])), Err(Rejection::Unauthorized));
}

#[test]
fn empty_token_takes_a_header_of_seven_bytes() {
    assert_eq!(validate(Some(""), Some(&b"Bearer "[..])), Ok(()));
    assert_eq!(validate(Some(""), Some(&b"Bearer x"[..])), Err(Rejection::Unauthorized));
}
