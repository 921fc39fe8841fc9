use token_auth::error::AuthError;
use token_auth::header::{get_token, parse_authorization, MIN_HEADER_LEN};

#[test]
fn bearer_header_yields_its_token() {
    assert_eq!(parse_authorization(None, b"Bearer abc.def.ghi"), Ok("abc.def.ghi".to_string()));
    assert_eq!(parse_authorization(None, b"Bearer X"), Ok("X".to_string()));
}

#[test]
fn shortest_header_has_eight_bytes() {
    assert_eq!(MIN_HEADER_LEN, 8);
    assert_eq!(parse_authorization(None, b"Bearer "), Err(AuthError::MalformedHeader));
    assert_eq!(parse_authorization(None, b"Bearer"), Err(AuthError::MalformedHeader));
    assert_eq!(parse_authorization(None, b""), Err(AuthError::MalformedHeader));
    assert_eq!(parse_authorization(None, b"Bearer a"), Ok("a".to_string()));
}

#[test]
fn scheme_must_be_exactly_bearer() {
    assert_eq!(parse_authorization(None, b"bearer abcdef"), Err(AuthError::MalformedHeader));
    assert_eq!(parse_authorization(None, b"Basic dXNlcjpwYXNz"), Err(AuthError::MalformedHeader));
    assert_eq!(parse_authorization(None, b"Bearerabcdef"), Err(AuthError::MalformedHeader));
    assert_eq!(parse_authorization(None, b"Bearers abcdef"), Err(AuthError::MalformedHeader));
    assert_eq!(parse_authorization(None, b" Bearer abcdef"), Err(AuthError::MalformedHeader));
    assert_eq!(parse_authorization(None, b"BearerXabcdef"), Err(AuthError::MalformedHeader));
}

#[test]
fn header_without_space_is_malformed() {
    assert_eq!(parse_authorization(None, b"abcdefghijkl"), Err(AuthError::MalformedHeader));
}

#[test]
fn header_must_be_text() {
    assert_eq!(parse_authorization(None, b"Bearer ab\x00cd"), Err(AuthError::MalformedHeader));
    assert_eq!(parse_authorization(None, b"Bearer ab\x7fcd"), Err(AuthError::MalformedHeader));
    assert_eq!(parse_authorization(None, b"Bearer ab\xc3\xbccd"), Err(AuthError::MalformedHeader));
    assert_eq!(parse_authorization(None, b"Bearer ab\ncd"), Err(AuthError::MalformedHeader));
    assert_eq!(parse_authorization(None, b"Bearer ab\tcd"), Ok("ab\tcd".to_string()));
    assert_eq!(parse_authorization(None, b"Bearer ab~cd"), Ok("ab~cd".to_string()));
}

#[test]
fn token_keeps_everything_after_the_first_space() {
    assert_eq!(parse_authorization(None, b"Bearer a b c"), Ok("a b c".to_string()));
    assert_eq!(parse_authorization(None, b"Bearer  x"), Ok(" x".to_string()));
}

#[test]
fn configured_prefix_is_stripped_when_present() {
    let prefix = Some("legacy-".to_string());
    assert_eq!(parse_authorization(prefix.clone(), b"Bearer legacy-abc"), Ok("abc".to_string()));
    assert_eq!(parse_authorization(prefix.clone(), b"Bearer abc-legacy-"), Ok("abc-legacy-".to_string()));
    assert_eq!(parse_authorization(prefix.clone(), b"Bearer legacy"), Ok("legacy".to_string()));
    assert_eq!(parse_authorization(prefix.clone(), b"Bearer legacy-"), Ok("".to_string()));
    assert_eq!(
        parse_authorization(prefix, b"Bearer legacy-legacy-abc"),
        Ok("legacy-abc".to_string())
    );
}

#[test]
fn empty_or_foreign_prefix_changes_nothing() {
    assert_eq!(parse_authorization(Some(String::new()), b"Bearer abc"), Ok("abc".to_string()));
    assert_eq!(
        parse_authorization(Some("\u{fc}ber".to_string()), b"Bearer uber"),
        Ok("uber".to_string())
    );
}

#[test]
fn absent_header_depends_on_mode() {
    assert_eq!(get_token(true, None, None), Ok(None));
    assert_eq!(get_token(false, None, None), Err(AuthError::MissingHeader));
    assert_eq!(get_token(true, Some("p".to_string()), None), Ok(None));
    assert_eq!(get_token(false, Some("p".to_string()), None), Err(AuthError::MissingHeader));
}

#[test]
fn present_header_must_parse_in_both_modes() {
    assert_eq!(get_token(true, None, Some(b"Bearer tok")), Ok(Some("tok".to_string())));
    assert_eq!(get_token(false, None, Some(b"Bearer tok")), Ok(Some("tok".to_string())));
    assert_eq!(get_token(true, None, Some(b"nonsense")), Err(AuthError::MalformedHeader));
    assert_eq!(get_token(false, None, Some(b"short")), Err(AuthError::MalformedHeader));
    assert_eq!(
        get_token(true, Some("x-".to_string()), Some(b"Bearer x-tok")),
        Ok(Some("tok".to_string()))
    );
}
