use oauth_errors::errors::FailureReason;

#[test]
fn display_token_path() {
    assert_eq!(
        FailureReason::TokenPathError.display(),
        "failed to retrieve token dir from filekey"
    );
}

#[test]
fn display_home_dir() {
    assert_eq!(
        FailureReason::HomeDirError.display(),
        "failed to identify home directory"
    );
}

#[test]
fn display_redirect_uri_cfg() {
    assert_eq!(
        FailureReason::RedirectUriCfgError.display(),
        "failed to retrieve redirect_uri from credentials"
    );
}

#[test]
fn display_refresh_token_value() {
    assert_eq!(
        FailureReason::RefreshTokenValue.display(),
        "expected a refresh token string value, got None"
    );
}

#[test]
fn display_token_request_invalid_grant() {
    let e = FailureReason::TokenRequestError("invalid_grant".to_string());
    assert_eq!(e.display(), "oauth server returned error: invalid_grant");
}

#[test]
fn display_token_request_empty_message() {
    let e = FailureReason::TokenRequestError(String::new());
    assert_eq!(e.display(), "oauth server returned error: ");
}

#[test]
fn display_token_request_special_characters() {
    let msg = "bad {} \"grant\"\n%s\t{0}";
    let e = FailureReason::TokenRequestError(msg.to_string());
    assert_eq!(e.display(), format!("oauth server returned error: {}", msg));
}

#[test]
fn display_user_error_verbatim() {
    let e = FailureReason::UserError("token store corrupted".to_string());
    assert_eq!(e.display(), "token store corrupted");
}

#[test]
fn display_env_var_verbatim() {
    let e = FailureReason::EnvVarError("environment variable not found".to_string());
    assert_eq!(e.display(), "environment variable not found");
}

#[test]
fn equals_reflexive() {
    let values = vec![
        FailureReason::TokenPathError,
        FailureReason::HomeDirError,
        FailureReason::IOError("a".to_string()),
        FailureReason::JSONError("b".to_string()),
        FailureReason::EnvVarError("c".to_string()),
        FailureReason::ReqwestError("d".to_string()),
        FailureReason::UrlError("e".to_string()),
        FailureReason::RedirectUriCfgError,
        FailureReason::UserError("f".to_string()),
        FailureReason::RefreshTokenValue,
        FailureReason::TokenRequestError("g".to_string()),
    ];
    for v in &values {
        assert!(v == v);
    }
}

#[test]
fn equals_ignores_io_payload() {
    let a = FailureReason::from_io(std::io::Error::new(
        std::io::ErrorKind::PermissionDenied,
        "permission denied",
    ));
    let b = FailureReason::from_io(std::io::Error::new(
        std::io::ErrorKind::NotFound,
        "no such file or directory",
    ));
    assert!(a == b);
}

#[test]
fn equals_distinguishes_variants() {
    let io = FailureReason::IOError("boom".to_string());
    let json = FailureReason::JSONError("boom".to_string());
    assert!(io != json);
    assert!(FailureReason::TokenPathError != FailureReason::HomeDirError);
    assert!(FailureReason::RefreshTokenValue != FailureReason::RedirectUriCfgError);
}

#[test]
fn equals_token_request_payload_sensitive() {
    let a1 = FailureReason::TokenRequestError("a".to_string());
    let a2 = FailureReason::TokenRequestError("a".to_string());
    let b = FailureReason::TokenRequestError("b".to_string());
    assert!(a1 == a2);
    assert!(a1 != b);
}

#[test]
fn lift_io_keeps_display_text() {
    let cause = std::io::Error::new(std::io::ErrorKind::PermissionDenied, "permission denied");
    let expected = cause.to_string();
    let lifted = FailureReason::from_io(cause);
    assert!(matches!(lifted, FailureReason::IOError(_)));
    assert_eq!(lifted.display(), expected);
    assert!(lifted.display().contains("permission denied"));
}

#[test]
fn lift_json_keeps_display_text() {
    let cause = serde_json::from_str::<serde_json::Value>("{ not json").unwrap_err();
    let expected = cause.to_string();
    let lifted = FailureReason::from_json(cause);
    assert!(matches!(lifted, FailureReason::JSONError(_)));
    assert_eq!(lifted.display(), expected);
}

#[test]
fn lift_url_keeps_display_text() {
    let cause = url::Url::parse("http://[:::1]").unwrap_err();
    let expected = cause.to_string();
    let lifted = FailureReason::from_url(cause);
    assert!(matches!(lifted, FailureReason::UrlError(_)));
    assert_eq!(lifted.display(), expected);
}

#[test]
fn lift_url_equals_categorical() {
    let first = FailureReason::from_url(url::Url::parse("http://[:::1]").unwrap_err());
    let second = FailureReason::from_url(url::Url::parse("foo bar").unwrap_err());
    assert!(first == second);
}

#[test]
fn lift_reqwest_keeps_display_text() {
    let cause = reqwest::Client::new()
        .get("htt p://nowhere.invalid")
        .build()
        .unwrap_err();
    let expected = cause.to_string();
    let lifted = FailureReason::from_reqwest(cause);
    assert!(matches!(lifted, FailureReason::ReqwestError(_)));
    assert_eq!(lifted.display(), expected);
}
