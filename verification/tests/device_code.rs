use azure_aitoolsconnect::auth::device_code::{
    poll_step, start_polling, DeviceAuthorizationDetails, DeviceAuthorizationReply,
    DeviceCodeAuth, PollAction, PollEvent, PollPhase, PollReply, PollSession, TokenGrant,
    TokenResult,
};
use azure_aitoolsconnect::auth::token_cache::CachedTokenEntry;
use azure_aitoolsconnect::auth::{AuthProvider, Credentials, AZURE_CLI_CLIENT_ID};
use azure_aitoolsconnect::config::Cloud;
use azure_aitoolsconnect::error::AppError;
use azure_aitoolsconnect::time::Timestamp;

#[test]
fn test_device_code_auth_creation() {
    let auth = DeviceCodeAuth::new("tenant-id".to_string(), None, &Cloud::Global);
    assert!(auth.is_ok());
    let auth = auth.unwrap();
    assert_eq!(auth.client_id(), AZURE_CLI_CLIENT_ID);
}

#[test]
fn test_device_code_auth_custom_client_id() {
    let custom_id = "custom-client-id".to_string();
    let auth = DeviceCodeAuth::new("tenant-id".to_string(), Some(custom_id.clone()), &Cloud::Global);
    assert!(auth.is_ok());
    let auth = auth.unwrap();
    assert_eq!(auth.client_id(), custom_id);
}

#[test]
fn device_code_test_china_cloud_scope() {
    let auth = DeviceCodeAuth::new("tenant-id".to_string(), None, &Cloud::China).unwrap();
    assert!(auth.scope().contains("cognitiveservices.azure.cn"));
}

#[test]
fn test_token_result_structure() {
    let result = TokenResult {
        access_token: "test-token".to_string(),
        expires_in_secs: 3600,
        scope: "https://cognitiveservices.azure.com/.default".to_string(),
    };
    assert_eq!(result.expires_in_secs, 3600);
    assert_eq!(result.access_token, "test-token");
}

#[test]
fn device_code_test_quiet_mode() {
    let auth = DeviceCodeAuth::new("tenant-id".to_string(), None, &Cloud::Global)
        .unwrap()
        .with_quiet(true);
    assert!(auth.quiet());
}

fn details(expires_in: u64, interval: u64) -> DeviceAuthorizationDetails {
    DeviceAuthorizationDetails {
        device_code: "device-code".to_string(),
        user_code: "ABCD-EFGH".to_string(),
        verification_uri: "https://microsoft.com/devicelogin".to_string(),
        expires_in,
        interval,
    }
}

fn granted(token: &str, expires_in: Option<u64>) -> PollReply {
    PollReply::Granted(TokenGrant { access_token: token.to_string(), expires_in })
}

/// Feeds the replies to a session, with the clock standing still, and
/// returns the seconds of waiting that were asked for and the last action.
fn drive(mut session: PollSession, replies: Vec<PollReply>) -> (u64, PollAction, PollSession) {
    let mut waited = 0u64;
    let mut replies = replies.into_iter();
    loop {
        let (next, action) = poll_step(session, PollEvent::Elapsed(Timestamp::new(0, 0)));
        session = next;
        match action {
            PollAction::Poll { wait_secs, .. } => waited += wait_secs,
            other => return (waited, other, session),
        }
        let reply = match replies.next() {
            Some(r) => r,
            None => return (waited, PollAction::Ignore, session),
        };
        let (next, action) = poll_step(session, PollEvent::Reply(reply));
        session = next;
        match action {
            PollAction::Check { wait_secs } => waited += wait_secs,
            other => return (waited, other, session),
        }
    }
}

#[test]
fn device_code_endpoints_and_requests() {
    let auth = DeviceCodeAuth::new("my-tenant".to_string(), None, &Cloud::Global).unwrap();
    let request = auth.fetch_token().unwrap();
    assert_eq!(
        request.url,
        "https://login.microsoftonline.com/my-tenant/oauth2/v2.0/devicecode"
    );
    assert_eq!(request.form.len(), 2);
    assert_eq!(request.form[0].name, "scope");
    assert_eq!(request.form[0].value, "https://cognitiveservices.azure.com/.default");
    assert_eq!(request.form[1].name, "client_id");
    assert_eq!(request.form[1].value, AZURE_CLI_CLIENT_ID);
    assert_eq!(request.headers[0].name, "Accept");
    assert_eq!(request.headers[0].value, "application/json");

    let poll = auth.poll_request(&details(900, 5));
    assert_eq!(poll.url, "https://login.microsoftonline.com/my-tenant/oauth2/v2.0/token");
    assert_eq!(poll.form[0].value, "urn:ietf:params:oauth:grant-type:device_code");
    assert_eq!(poll.form[1].name, "device_code");
    assert_eq!(poll.form[1].value, "device-code");
    assert_eq!(poll.form[2].value, AZURE_CLI_CLIENT_ID);
    assert_eq!(poll.headers.len(), 2);
    assert_eq!(poll.headers[0].name, "Accept");
    assert_eq!(poll.headers[0].value, "application/json");
    assert_eq!(poll.headers[1].name, "Content-Type");
    assert_eq!(poll.headers[1].value, "application/x-www-form-urlencoded");
}

#[test]
fn device_code_refuses_tenant_that_makes_no_url() {
    let auth = DeviceCodeAuth::new("bad tenant\u{0}".to_string(), None, &Cloud::Global).unwrap();
    match auth.fetch_token() {
        Ok(request) => {
            // The tenant was accepted as part of a path: the request goes
            // to the address that holds it.
            assert!(request.url.starts_with("https://login.microsoftonline.com/"));
        }
        Err(AppError::DeviceCodeAuthFailed(m)) => {
            assert!(m.starts_with("Invalid device auth URL: "));
        }
        Err(other) => panic!("unexpected error: {:?}", other),
    }
}

#[test]
fn device_code_authorization_failure_is_final() {
    let r = DeviceCodeAuth::authorization_details(DeviceAuthorizationReply::Failed(
        "connection refused".to_string(),
    ));
    match r {
        Err(AppError::DeviceCodeAuthFailed(m)) => {
            assert_eq!(m, "Device code request failed: connection refused")
        }
        other => panic!("unexpected: {:?}", other),
    }
    let ok = DeviceCodeAuth::authorization_details(DeviceAuthorizationReply::Details(details(
        600, 5,
    )));
    assert_eq!(ok.unwrap().expires_in, 600);
}

#[test]
fn device_code_session_defaults_to_fifteen_minutes() {
    let s = start_polling(&details(0, 5), false);
    assert_eq!(s.timeout_secs, 900);
    assert_eq!(s.interval_secs, 5);
    assert_eq!(s.phase, PollPhase::Checking);
    let s = start_polling(&details(120, 7), true);
    assert_eq!(s.timeout_secs, 120);
    assert!(s.quiet);
}

#[test]
fn device_code_pending_pending_slow_down_success() {
    let interval = 5u64;
    let session = start_polling(&details(900, interval), true);
    let (waited, action, end) = drive(
        session,
        vec![
            PollReply::AuthorizationPending,
            PollReply::AuthorizationPending,
            PollReply::SlowDown,
            granted("the-token", Some(3600)),
        ],
    );
    match action {
        PollAction::Succeed(grant) => {
            assert_eq!(grant.access_token, "the-token");
            assert_eq!(grant.expires_in, Some(3600));
        }
        other => panic!("unexpected: {:?}", other),
    }
    assert_eq!(end.phase, PollPhase::Finished);
    // One interval before each of the four attempts, one more for the
    // single "slow down".
    assert_eq!(waited, 5 * interval);
    assert!(waited >= 3 * interval);
}

#[test]
fn device_code_timeout_produces_no_token() {
    let session = start_polling(&details(60, 5), true);
    // Exactly at the deadline the session still polls.
    let (s, action) = poll_step(session, PollEvent::Elapsed(Timestamp::new(60, 0)));
    assert!(matches!(action, PollAction::Poll { wait_secs: 5, .. }));
    assert_eq!(s.phase, PollPhase::Polling);
    // One nanosecond later it is over.
    let (s, action) = poll_step(session, PollEvent::Elapsed(Timestamp::new(60, 1)));
    assert_eq!(s.phase, PollPhase::Finished);
    match action {
        PollAction::Fail(AppError::DeviceCodeAuthFailed(m)) => {
            assert_eq!(m, "Authentication timed out. Please try again.")
        }
        other => panic!("unexpected: {:?}", other),
    }
    // Whatever comes afterwards, even a grant, is passed over.
    let (s, action) = poll_step(s, PollEvent::Reply(granted("late", None)));
    assert_eq!(s.phase, PollPhase::Finished);
    assert!(matches!(action, PollAction::Ignore));
}

#[test]
fn device_code_terminal_replies() {
    let session = PollSession {
        phase: PollPhase::Polling,
        interval_secs: 5,
        timeout_secs: 900,
        quiet: true,
    };
    let cases: Vec<(PollReply, &str)> = vec![
        (PollReply::ExpiredToken, "Device code expired. Please try again."),
        (PollReply::AccessDenied, "User declined authorization"),
        (PollReply::ServerError("invalid_grant".to_string()), "Server error: invalid_grant"),
        (
            PollReply::RequestFailed("reset".to_string()),
            "Network error during token request: reset",
        ),
        (PollReply::Other("odd".to_string()), "Token request failed: odd"),
    ];
    for (reply, expected) in cases {
        let (s, action) = poll_step(session, PollEvent::Reply(reply));
        assert_eq!(s.phase, PollPhase::Finished);
        match action {
            PollAction::Fail(AppError::DeviceCodeAuthFailed(m)) => assert_eq!(m, expected),
            other => panic!("unexpected: {:?}", other),
        }
    }
}

#[test]
fn device_code_events_out_of_phase_are_ignored() {
    let checking = start_polling(&details(900, 5), true);
    let (s, action) = poll_step(checking, PollEvent::Reply(PollReply::SlowDown));
    assert_eq!(s, checking);
    assert!(matches!(action, PollAction::Ignore));
    let polling = PollSession { phase: PollPhase::Polling, ..checking };
    let (s, action) = poll_step(polling, PollEvent::Elapsed(Timestamp::new(1, 0)));
    assert_eq!(s, polling);
    assert!(matches!(action, PollAction::Ignore));
}

#[test]
fn device_code_progress_message() {
    let session = start_polling(&details(900, 5), false);
    let (_, action) = poll_step(session, PollEvent::Elapsed(Timestamp::new(65, 500)));
    match action {
        PollAction::Poll { wait_secs, progress } => {
            assert_eq!(wait_secs, 5);
            let progress = progress.unwrap();
            assert_eq!(progress.position_secs, 65);
            assert_eq!(progress.message, "13:55 remaining");
        }
        other => panic!("unexpected: {:?}", other),
    }
    let (_, action) = poll_step(session, PollEvent::Elapsed(Timestamp::new(895, 0)));
    match action {
        PollAction::Poll { progress, .. } => {
            assert_eq!(progress.unwrap().message, "0:05 remaining")
        }
        other => panic!("unexpected: {:?}", other),
    }
    let quiet = start_polling(&details(900, 5), true);
    let (_, action) = poll_step(quiet, PollEvent::Elapsed(Timestamp::new(1, 0)));
    assert!(matches!(action, PollAction::Poll { progress: None, .. }));
}

#[test]
fn device_code_error_codes() {
    assert!(matches!(
        PollReply::from_error("authorization_pending", String::new()),
        PollReply::AuthorizationPending
    ));
    assert!(matches!(PollReply::from_error("slow_down", String::new()), PollReply::SlowDown));
    assert!(matches!(
        PollReply::from_error("expired_token", String::new()),
        PollReply::ExpiredToken
    ));
    assert!(matches!(
        PollReply::from_error("access_denied", String::new()),
        PollReply::AccessDenied
    ));
    match PollReply::from_error("invalid_client", "invalid_client: no such app".to_string()) {
        PollReply::ServerError(m) => assert_eq!(m, "invalid_client: no such app"),
        other => panic!("unexpected: {:?}", other),
    }
}

#[test]
fn device_code_end_to_end_cache_entry() {
    let auth = DeviceCodeAuth::new("tenant-id".to_string(), None, &Cloud::Global)
        .unwrap()
        .with_quiet(true);
    let session = auth.poll_for_token(&details(900, 5));
    let (_, action, _) = drive(
        session,
        vec![
            PollReply::AuthorizationPending,
            PollReply::AuthorizationPending,
            granted("tok", Some(3600)),
        ],
    );
    let grant = match action {
        PollAction::Succeed(g) => g,
        other => panic!("unexpected: {:?}", other),
    };
    let result = auth.authenticate(grant);
    assert_eq!(result.expires_in_secs, 3600);
    assert_eq!(result.scope, "https://cognitiveservices.azure.com/.default");

    let issued_at = Timestamp::new(1_700_000_000, 0);
    let entry = CachedTokenEntry::issued(
        result.access_token.clone(),
        result.scope.clone(),
        "tenant-id".to_string(),
        &issued_at,
        result.expires_in_secs,
    )
    .unwrap();
    // A moment after it was issued the entry has a little less than an hour
    // left.
    let a_moment_later = Timestamp::new(1_700_000_001, 0);
    assert_eq!(entry.remaining_minutes_at(&a_moment_later), 59);
    assert_eq!(entry.remaining_minutes_at(&issued_at), 60);
    assert!(entry.is_valid_at(&a_moment_later, 60));
}

#[test]
fn device_code_grant_without_lifetime_lasts_an_hour() {
    let auth = DeviceCodeAuth::new("t".to_string(), None, &Cloud::China).unwrap();
    let result = auth.authenticate(TokenGrant { access_token: "x".to_string(), expires_in: None });
    assert_eq!(result.expires_in_secs, 3600);
    assert_eq!(result.scope, "https://cognitiveservices.azure.cn/.default");
    assert_eq!(auth.method_name(), "Device Code Flow");
    match auth.get_credentials(TokenGrant { access_token: "x".to_string(), expires_in: None }) {
        Credentials::BearerToken(t) => assert_eq!(t, "x"),
        other => panic!("unexpected: {:?}", other),
    }
}
