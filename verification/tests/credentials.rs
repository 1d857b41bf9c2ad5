use twitch_alerts::opts::{is_token, starts_with, Secret, TokenError, TOKEN_LENGTH};

#[test]
fn bare_token_of_thirty_bytes_is_accepted() {
    assert_eq!(TOKEN_LENGTH, 30);
    assert_eq!(is_token("a".repeat(30)), Ok(()));
    assert_eq!(is_token("0123456789abcdefghij0123456789".to_string()), Ok(()));
}

#[test]
fn token_of_another_length_is_refused() {
    assert_eq!(is_token(String::new()), Err(TokenError::WrongLength));
    assert_eq!(is_token("a".repeat(29)), Err(TokenError::WrongLength));
    assert_eq!(is_token("a".repeat(31)), Err(TokenError::WrongLength));
}

#[test]
fn token_length_is_counted_in_bytes() {
    // Fifteen two-byte characters are thirty bytes; thirty of them are sixty.
    assert_eq!(is_token("é".repeat(15)), Ok(()));
    assert_eq!(is_token("é".repeat(30)), Err(TokenError::WrongLength));
}

#[test]
fn prefixed_token_is_refused_whatever_its_length() {
    assert_eq!(is_token("oauth:".to_string()), Err(TokenError::OauthPrefix));
    assert_eq!(is_token(format!("oauth:{}", "a".repeat(24))), Err(TokenError::OauthPrefix));
    assert_eq!(is_token(format!("oauth:{}", "a".repeat(30))), Err(TokenError::OauthPrefix));
    assert_eq!(is_token(format!("Oauth:{}", "a".repeat(24))), Ok(()));
}

#[test]
fn token_errors_say_why() {
    assert_eq!(TokenError::OauthPrefix.message(), "token should not have `oauth:` as a prefix");
    assert_eq!(TokenError::WrongLength.message(), "token needs to be 30 characters long");
}

#[test]
fn starts_with_agrees_with_std() {
    for (text, prefix) in [
        ("", ""),
        ("abc", ""),
        ("", "a"),
        ("abc", "abc"),
        ("abc", "abcd"),
        ("abc", "ab"),
        ("abc", "b"),
        ("éa", "é"),
        ("oauth:x", "oauth:"),
    ] {
        assert_eq!(starts_with(text, prefix), text.starts_with(prefix), "{text:?} {prefix:?}");
    }
}

#[test]
fn secret_gives_its_text_back_and_hides_it_in_output() {
    let secret = Secret::new("hunter2");
    assert_eq!(secret.secret(), "hunter2");
    assert_eq!(secret.clone().secret(), "hunter2");
    assert_eq!(secret.redacted(), "[secret]");
    let parsed: Secret = "from text".parse().unwrap();
    assert_eq!(parsed.secret(), "from text");
}
