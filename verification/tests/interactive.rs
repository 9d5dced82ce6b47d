use azure_aitoolsconnect::auth::interactive::{
    callback_from_pairs, redirect_uri, wait_for_callback, CallbackReply, InteractiveAuth,
    InteractiveSession,
};
use azure_aitoolsconnect::auth::{AuthProvider, Field, TokenReply, AZURE_CLI_CLIENT_ID};
use azure_aitoolsconnect::config::Cloud;
use azure_aitoolsconnect::error::AppError;

#[test]
fn test_interactive_auth_creation() {
    let auth = InteractiveAuth::new("tenant-id".to_string(), None, &Cloud::Global);
    assert!(auth.is_ok());
    let auth = auth.unwrap();
    assert_eq!(auth.client_id(), AZURE_CLI_CLIENT_ID);
}

#[test]
fn test_interactive_auth_custom_client_id() {
    let custom_id = "custom-client-id".to_string();
    let auth = InteractiveAuth::new(
        "tenant-id".to_string(),
        Some(custom_id.clone()),
        &Cloud::Global,
    );
    assert!(auth.is_ok());
    let auth = auth.unwrap();
    assert_eq!(auth.client_id(), custom_id);
}

#[test]
fn interactive_test_china_cloud_scope() {
    let auth = InteractiveAuth::new("tenant-id".to_string(), None, &Cloud::China).unwrap();
    assert!(auth.scope().contains("cognitiveservices.azure.cn"));
}

#[test]
fn interactive_test_quiet_mode() {
    let auth = InteractiveAuth::new("tenant-id".to_string(), None, &Cloud::Global)
        .unwrap()
        .with_quiet(true);
    assert!(auth.quiet());
}

fn pair(name: &str, value: &str) -> Field {
    Field { name: name.to_string(), value: value.to_string() }
}

fn session(state: &str) -> InteractiveSession {
    InteractiveSession {
        port: 8400,
        authorize_url: "https://login.example/authorize".to_string(),
        csrf_state: state.to_string(),
        code_verifier: "v".repeat(43),
    }
}

fn auth_error(result: Result<(String, String), AppError>) -> String {
    match result {
        Err(AppError::Auth(m)) => m,
        other => panic!("unexpected: {:?}", other),
    }
}

#[test]
fn interactive_begin_builds_authorization_url() {
    let auth = InteractiveAuth::new("tenant-id".to_string(), None, &Cloud::Global).unwrap();
    let s = auth.fetch_token(51234).unwrap();
    assert_eq!(s.port, 51234);
    assert!(s
        .authorize_url
        .starts_with("https://login.microsoftonline.com/tenant-id/oauth2/v2.0/authorize?"));
    assert!(s.authorize_url.contains("response_type=code"));
    assert!(s.authorize_url.contains(&format!("client_id={}", AZURE_CLI_CLIENT_ID)));
    assert!(s.authorize_url.contains(&format!("state={}", s.csrf_state)));
    assert!(s.authorize_url.contains("code_challenge_method=S256"));
    assert!(s.authorize_url.contains("redirect_uri=http%3A%2F%2Flocalhost%3A51234"));
    assert!(s.authorize_url.contains("response_mode=query"));
    assert!(s.authorize_url.contains("scope=https%3A%2F%2Fcognitiveservices.azure.com%2F.default"));
    // The challenge on the wire is that of the verifier that is kept.
    let verifier = oauth2::PkceCodeVerifier::new(s.code_verifier.clone());
    let challenge = oauth2::PkceCodeChallenge::from_code_verifier_sha256(&verifier);
    assert!(s.authorize_url.contains(&format!("code_challenge={}", challenge.as_str())));
    assert!(!s.authorize_url.contains(&s.code_verifier));
    // Each attempt has its own state and verifier.
    let again = auth.fetch_token(51234).unwrap();
    assert_ne!(again.csrf_state, s.csrf_state);
    assert_ne!(again.code_verifier, s.code_verifier);
}

#[test]
fn interactive_redirect_uri() {
    assert_eq!(redirect_uri(0), "http://localhost:0");
    assert_eq!(redirect_uri(8080), "http://localhost:8080");
    assert_eq!(redirect_uri(65535), "http://localhost:65535");
}

#[test]
fn interactive_callback_success() {
    let reply = wait_for_callback("GET /?code=abc%20def&state=xyz HTTP/1.1\r\n");
    let response = reply.response.unwrap();
    assert!(response.starts_with("HTTP/1.1 200 OK\r\nContent-Type: text/html\r\nContent-Length: 121\r\nConnection: close\r\n\r\n<html>"));
    assert!(response.ends_with("</html>"));
    let (code, state) = reply.result.unwrap();
    assert_eq!(code, "abc def");
    assert_eq!(state, "xyz");
}

#[test]
fn interactive_callback_with_error_answers_400() {
    let reply = wait_for_callback(
        "GET /?error=access_denied&error_description=User+cancelled&code=c&state=s HTTP/1.1",
    );
    let response = reply.response.unwrap();
    assert!(response.starts_with("HTTP/1.1 400 Bad Request\r\n"));
    assert!(!response.starts_with("HTTP/1.1 200"));
    let body = "<html><body><h2>Authentication Failed</h2><p>access_denied: User cancelled</p><p>You can close this window.</p></body></html>";
    assert!(response.ends_with(body));
    assert!(response.contains(&format!("Content-Length: {}\r\n", body.len())));
    assert_eq!(
        auth_error(reply.result),
        "Authentication error: access_denied - User cancelled"
    );
}

#[test]
fn interactive_callback_error_without_description() {
    let reply = callback_from_pairs(&vec![pair("error", "server_error")]);
    assert_eq!(auth_error(reply.result), "Authentication error: server_error - ");
    assert!(reply.response.unwrap().starts_with("HTTP/1.1 400 Bad Request\r\n"));
}

#[test]
fn interactive_callback_counts_bytes_of_body() {
    let reply = callback_from_pairs(&vec![pair("error", "d\u{e9}ni\u{e9}")]);
    let response = reply.response.unwrap();
    let body = response.split("\r\n\r\n").nth(1).unwrap();
    assert!(response.contains(&format!("Content-Length: {}\r\n", body.len())));
    assert!(body.len() > body.chars().count());
}

#[test]
fn interactive_callback_failures_without_response() {
    let reply = wait_for_callback("GET");
    assert!(reply.response.is_none());
    assert_eq!(auth_error(reply.result), "Invalid callback request");

    let reply = wait_for_callback("");
    assert!(reply.response.is_none());
    assert_eq!(auth_error(reply.result), "Invalid callback request");

    let reply = wait_for_callback("GET /?state=s HTTP/1.1");
    assert!(reply.response.is_none());
    assert_eq!(auth_error(reply.result), "No authorization code in callback");

    let reply = wait_for_callback("GET /?code=c HTTP/1.1");
    assert!(reply.response.is_none());
    assert_eq!(auth_error(reply.result), "No state parameter in callback");

    let reply = wait_for_callback("GET :bad HTTP/1.1");
    assert!(reply.response.is_none());
    assert!(auth_error(reply.result).starts_with("Failed to parse callback URL: "));
}

#[test]
fn interactive_callback_later_parameter_counts() {
    let reply = callback_from_pairs(&vec![
        pair("code", "first"),
        pair("state", "s1"),
        pair("code", "second"),
    ]);
    let (code, state) = reply.result.unwrap();
    assert_eq!(code, "second");
    assert_eq!(state, "s1");
}

#[test]
fn interactive_state_mismatch_is_rejected_before_any_exchange() {
    let auth = InteractiveAuth::new("tenant-id".to_string(), None, &Cloud::Global).unwrap();
    let outcome =
        auth.on_callback(&session("expected"), "GET /?code=the-code&state=forged HTTP/1.1");
    // The page was written before the state was compared.
    assert!(outcome.response.unwrap().starts_with("HTTP/1.1 200 OK"));
    match outcome.next {
        Err(AppError::Auth(m)) => {
            assert_eq!(
                m,
                "CSRF state mismatch \u{2014} possible security issue. Please try again."
            );
            assert!(m.ends_with(" possible security issue. Please try again."));
        }
        other => panic!("unexpected: {:?}", other),
    }
    // A state that differs in case, or by white space, is another state.
    for state in ["Expected", "expected ", ""] {
        let reply = CallbackReply {
            response: None,
            result: Ok(("c".to_string(), state.to_string())),
        };
        assert!(auth.after_callback(&session("expected"), reply).next.is_err());
    }
}

#[test]
fn interactive_matching_state_leads_to_exchange() {
    let auth = InteractiveAuth::new("tenant-id".to_string(), Some("app".to_string()), &Cloud::Global)
        .unwrap();
    let s = session("expected");
    let outcome = auth.on_callback(&s, "GET /?code=the-code&state=expected HTTP/1.1");
    let request = outcome.next.unwrap();
    assert_eq!(request.url, "https://login.microsoftonline.com/tenant-id/oauth2/v2.0/token");
    let form: Vec<(&str, &str)> =
        request.form.iter().map(|f| (f.name.as_str(), f.value.as_str())).collect();
    assert_eq!(
        form,
        vec![
            ("grant_type", "authorization_code"),
            ("client_id", "app"),
            ("code", "the-code"),
            ("redirect_uri", "http://localhost:8400"),
            ("code_verifier", s.code_verifier.as_str()),
            ("scope", "https://cognitiveservices.azure.com/.default"),
        ]
    );
}

#[test]
fn interactive_error_callback_never_exchanges() {
    let auth = InteractiveAuth::new("tenant-id".to_string(), None, &Cloud::Global).unwrap();
    let outcome = auth.on_callback(
        &session("s"),
        "GET /?error=interaction_required&code=c&state=s HTTP/1.1",
    );
    assert!(outcome.response.unwrap().starts_with("HTTP/1.1 400"));
    match outcome.next {
        Err(AppError::Auth(m)) => assert!(m.starts_with("Authentication error: interaction_required")),
        other => panic!("unexpected: {:?}", other),
    }
}

#[test]
fn interactive_exchange_replies() {
    let auth = InteractiveAuth::new("tenant-id".to_string(), None, &Cloud::China).unwrap();
    assert_eq!(auth.method_name(), "Interactive Browser");
    let ok = auth
        .authenticate(TokenReply::Granted { access_token: "tok".to_string(), expires_in: 1800 })
        .unwrap();
    assert_eq!(ok.access_token, "tok");
    assert_eq!(ok.expires_in_secs, 1800);
    assert_eq!(ok.scope, "https://cognitiveservices.azure.cn/.default");

    let message = |r| match auth.authenticate(r) {
        Err(AppError::Auth(m)) => m,
        other => panic!("unexpected: {:?}", other),
    };
    assert_eq!(
        message(TokenReply::SendFailed("timeout".to_string())),
        "Token exchange request failed: timeout"
    );
    assert_eq!(
        message(TokenReply::Refused {
            status: "400 Bad Request".to_string(),
            body: Some("invalid_grant".to_string())
        }),
        "Token exchange failed (400 Bad Request): invalid_grant"
    );
    assert_eq!(
        message(TokenReply::Refused { status: "502 Bad Gateway".to_string(), body: None }),
        "Token exchange failed (502 Bad Gateway): Unknown error"
    );
    assert_eq!(
        message(TokenReply::Malformed("missing field".to_string())),
        "Failed to parse token response: missing field"
    );
}

#[test]
fn interactive_callback_wait_is_bounded() {
    assert_eq!(InteractiveAuth::callback_wait(None), 900);
    assert_eq!(InteractiveAuth::callback_wait(Some("120")), 120);
    assert_eq!(InteractiveAuth::callback_wait(Some("1")), 1);
    assert_eq!(InteractiveAuth::callback_wait(Some("18446744073709551615")), u64::MAX);
    for unset in ["", "0", "000", "-5", "2m", " 30", "18446744073709551616", "1.5"] {
        assert_eq!(InteractiveAuth::callback_wait(Some(unset)), 900, "{:?}", unset);
    }
    match InteractiveAuth::callback_timed_out(120) {
        AppError::Timeout(m) => assert_eq!(m, "No callback from the browser within 120 seconds"),
        other => panic!("unexpected: {:?}", other),
    }
}
