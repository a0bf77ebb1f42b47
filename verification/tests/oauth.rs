use axiomvault_cli::oauth::{
    authorization_code, callback_rejection_response, callback_request_target,
    callback_success_response, code_from_pairs, resolve_dropbox_app_key, resolve_dropbox_app_secret,
    resolve_gdrive_client_id, resolve_gdrive_client_secret, resolve_optional_oauth_value,
    resolve_required_oauth_value, CallbackError,
};

#[test]
fn resolve_required_oauth_value_prefers_flag_then_primary_then_legacy() {
    assert_eq!(
        resolve_required_oauth_value(
            Some("flag".into()),
            Some("primary".into()),
            Some("legacy".into()),
            "missing"
        )
        .unwrap(),
        "flag"
    );
    assert_eq!(
        resolve_required_oauth_value(
            None,
            Some("primary".into()),
            Some("legacy".into()),
            "missing"
        )
        .unwrap(),
        "primary"
    );
    assert_eq!(
        resolve_required_oauth_value(None, None, Some("legacy".into()), "missing").unwrap(),
        "legacy"
    );
}

#[test]
fn resolve_optional_oauth_value_ignores_empty_values() {
    assert_eq!(
        resolve_optional_oauth_value(Some(String::new()), Some(String::new()), Some("legacy".into())),
        Some("legacy".into())
    );
    assert_eq!(resolve_optional_oauth_value(None, Some(String::new()), None), None);
}

#[test]
fn resolve_dropbox_app_key_prefers_primary_env_name() {
    assert_eq!(
        resolve_required_oauth_value(
            None,
            Some("primary-app-key".into()),
            Some("legacy-app-key".into()),
            "missing"
        )
        .unwrap(),
        "primary-app-key"
    );
    assert_eq!(
        resolve_dropbox_app_key(None, Some("primary-app-key".into()), Some("legacy-app-key".into()))
            .unwrap(),
        "primary-app-key"
    );
}

#[test]
fn resolve_dropbox_app_secret_falls_back_to_legacy_value() {
    assert_eq!(
        resolve_optional_oauth_value(None, None, Some("legacy-secret".into())),
        Some("legacy-secret".into())
    );
    assert_eq!(
        resolve_dropbox_app_secret(None, None, Some("legacy-secret".into())),
        Some("legacy-secret".into())
    );
}

#[test]
fn missing_required_values_carry_their_message() {
    let err = resolve_required_oauth_value(Some(String::new()), None, None, "missing").unwrap_err();
    assert_eq!(err.message(), "missing");
    let err = resolve_dropbox_app_key(None, Some(String::new()), None).unwrap_err();
    assert!(err.message().starts_with("Dropbox app key not provided."));
    let err = resolve_gdrive_client_id(None, None, None).unwrap_err();
    assert_eq!(
        err.message(),
        "Google OAuth2 client ID not provided. Use --client-id or set AXIOM_GOOGLE_CLIENT_ID (legacy: AXIOMVAULT_GOOGLE_CLIENT_ID)"
    );
    assert_eq!(
        resolve_gdrive_client_secret(Some("s".into()), Some("e".into()), None),
        Some("s".into())
    );
}

#[test]
fn callback_target_is_the_second_word_of_the_first_line() {
    assert_eq!(
        callback_request_target("GET /callback?code=a&state=b HTTP/1.1\r\nHost: localhost\r\n\r\n"),
        "/callback?code=a&state=b"
    );
    assert_eq!(callback_request_target(""), "/");
    assert_eq!(callback_request_target("GET\r\n/other x"), "/");
    assert_eq!(callback_request_target("GET /a"), "/a");
}

#[test]
fn callback_yields_code_when_state_matches() {
    let request = "GET /callback?state=tok&code=4%2F0Ab+c HTTP/1.1\r\n\r\n";
    assert_eq!(authorization_code(request, "tok").unwrap(), "4/0Ab c");
    let request = "GET /callback?code=first&code=second&state=tok HTTP/1.1\r\n";
    assert_eq!(authorization_code(request, "tok").unwrap(), "second");
}

#[test]
fn callback_errors_in_order() {
    assert_eq!(
        authorization_code("GET /callback?state=tok HTTP/1.1\r\n", "tok").unwrap_err(),
        CallbackError::NoCode
    );
    assert_eq!(
        authorization_code("GET /callback?code=c HTTP/1.1\r\n", "tok").unwrap_err(),
        CallbackError::NoState
    );
    let err = authorization_code("GET /callback?code=c&state=evil HTTP/1.1\r\n", "tok").unwrap_err();
    assert_eq!(err, CallbackError::CsrfMismatch);
    assert_eq!(err.message(), "CSRF token mismatch - possible security issue");
    let err = authorization_code("GET http://[::1 HTTP/1.1\r\n", "tok").unwrap_err();
    let cause = url::Url::parse("http://localhost:8080http://[::1").unwrap_err().to_string();
    assert_eq!(err, CallbackError::InvalidUrl(cause.clone()));
    assert_eq!(err.message(), "Failed to parse callback URL");
    assert!(!cause.is_empty());
}

#[test]
fn callback_responses_declare_their_byte_length() {
    let ok = callback_success_response("Dropbox");
    assert!(ok.starts_with("HTTP/1.1 200 OK\r\nContent-Type: text/html\r\nContent-Length: "));
    let (head, body) = ok.split_once("\r\n\r\n").unwrap();
    let declared: usize = head.rsplit(' ').next().unwrap().parse().unwrap();
    assert_eq!(declared, body.len());
    assert!(body.contains("to access your Dropbox.</p>"));
    let refused = callback_rejection_response();
    assert!(refused.starts_with("HTTP/1.1 400 Bad Request\r\n"));
    let (head, body) = refused.split_once("\r\n\r\n").unwrap();
    let declared: usize = head.rsplit(' ').next().unwrap().parse().unwrap();
    assert_eq!(declared, body.len());
    let ok = callback_success_response("Drïve");
    let (head, body) = ok.split_once("\r\n\r\n").unwrap();
    let declared: usize = head.rsplit(' ').next().unwrap().parse().unwrap();
    assert_eq!(declared, body.len());
}

fn pairs(items: &[(&str, &str)]) -> Vec<(String, String)> {
    items.iter().map(|(k, v)| (k.to_string(), v.to_string())).collect()
}

#[test]
fn code_from_pairs_takes_the_last_code_and_checks_the_last_state() {
    let p = pairs(&[("code", "first"), ("state", "bad"), ("code", "second"), ("state", "tok")]);
    assert_eq!(code_from_pairs(&p, "tok").unwrap(), "second");
    assert_eq!(code_from_pairs(&p, "bad").unwrap_err(), CallbackError::CsrfMismatch);
    assert_eq!(code_from_pairs(&pairs(&[("state", "tok")]), "tok").unwrap_err(), CallbackError::NoCode);
    assert_eq!(code_from_pairs(&pairs(&[("code", "c"), ("x", "y")]), "tok").unwrap_err(), CallbackError::NoState);
}
