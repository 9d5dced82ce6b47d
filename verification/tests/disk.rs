use azure_aitoolsconnect::auth::interactive::FlowStep;
use azure_aitoolsconnect::auth::managed_identity::ManagedIdentityAuth;
use azure_aitoolsconnect::auth::token_cache::{CacheStep, CachedTokenEntry, TokenCacheFile};
use azure_aitoolsconnect::auth::{Credentials, Field};
use azure_aitoolsconnect::error::{AppError, ExitCode};
use azure_aitoolsconnect::json::Json;
use azure_aitoolsconnect::paint::render_plain;
use azure_aitoolsconnect::testing::cached_notice;
use azure_aitoolsconnect::time::Timestamp;

fn text(v: &[&str]) -> Vec<String> {
    v.iter().map(|s| s.to_string()).collect()
}

#[test]
fn cache_directory() {
    assert_eq!(TokenCacheFile::cache_dir(false, None), None);
    assert_eq!(TokenCacheFile::cache_dir(true, None), None);
    assert_eq!(
        TokenCacheFile::cache_dir(false, Some("/home/me".to_string())),
        Some(text(&["/home/me", ".cache", "azure-aitoolsconnect"]))
    );
    assert_eq!(
        TokenCacheFile::cache_dir(true, Some("C:\\Users\\me\\AppData\\Local".to_string())),
        Some(text(&["C:\\Users\\me\\AppData\\Local", "azure-aitoolsconnect"]))
    );
}

fn entry(token: &str, tenant: &str, secs: i64, nanos: u32) -> CachedTokenEntry {
    CachedTokenEntry {
        access_token: token.to_string(),
        expires_at: Timestamp::new(secs, nanos),
        scope: "https://cognitiveservices.azure.com/.default".to_string(),
        tenant_id: tenant.to_string(),
    }
}

const TWO_ENTRIES: &str = r#"{
  "tokens": [
    {
      "access_token": "first \"token\"",
      "expires_at": "2024-01-01T00:00:00Z",
      "scope": "https://cognitiveservices.azure.com/.default",
      "tenant_id": "t1"
    },
    {
      "access_token": "second",
      "expires_at": "2033-05-18T03:33:20.500Z",
      "scope": "https://cognitiveservices.azure.com/.default",
      "tenant_id": "t2"
    }
  ]
}"#;

fn two_entries() -> TokenCacheFile {
    TokenCacheFile {
        tokens: vec![
            entry("first \"token\"", "t1", 1_704_067_200, 0),
            entry("second", "t2", 2_000_000_000, 500_000_000),
        ],
    }
}

#[test]
fn saving_and_clearing() {
    let cache = two_entries();
    let plan = cache.save(false, Some("/home/me".to_string()), true).unwrap();
    assert_eq!(plan.directory, text(&["/home/me", ".cache", "azure-aitoolsconnect"]));
    assert_eq!(plan.file_name, "tokens.json");
    assert_eq!(plan.mode, Some(0o600));
    assert_eq!(plan.content, TWO_ENTRIES);
    let plan = cache.save(true, Some("D:\\x".to_string()), false).unwrap();
    assert_eq!(plan.directory, text(&["D:\\x", "azure-aitoolsconnect"]));
    assert_eq!(plan.mode, None);
    match cache.save(false, None, true) {
        Err(AppError::Config(m)) => assert_eq!(m, "Cannot determine cache directory"),
        other => panic!("unexpected: {:?}", other),
    }
    let beyond = TokenCacheFile { tokens: vec![entry("x", "t", i64::MAX, 0)] };
    match beyond.save(false, Some("/home/me".to_string()), true) {
        Err(AppError::Config(m)) => assert_eq!(
            m,
            "Failed to serialize token cache: an expiry is beyond the range of the calendar"
        ),
        other => panic!("unexpected: {:?}", other),
    }
    assert!(TokenCacheFile::clear(true, true));
    assert!(!TokenCacheFile::clear(true, false));
    assert!(!TokenCacheFile::clear(false, true));
    assert!(!TokenCacheFile::clear(false, false));
}

#[test]
fn the_document_on_disk() {
    assert_eq!(two_entries().encode().unwrap(), TWO_ENTRIES);
    assert_eq!(TokenCacheFile::default().encode().unwrap(), "{\n  \"tokens\": []\n}");

    let entries = TokenCacheFile::decode(TWO_ENTRIES).unwrap();
    assert_eq!(entries.len(), 2);
    assert_eq!(entries[0].access_token, "first \"token\"");
    assert_eq!(entries[0].expires_at, Timestamp::new(1_704_067_200, 0));
    assert_eq!(entries[0].tenant_id, "t1");
    assert_eq!(entries[1].access_token, "second");
    assert_eq!(entries[1].expires_at, Timestamp::new(2_000_000_000, 500_000_000));
    assert_eq!(entries[1].scope, "https://cognitiveservices.azure.com/.default");

    // An offset is read as the same point in time.
    let shifted = TokenCacheFile::decode(
        r#"{"tokens":[{"tenant_id":"t","scope":"s","extra":1,"expires_at":"2024-01-01T02:00:00+02:00","access_token":"a"}]}"#,
    )
    .unwrap();
    assert_eq!(shifted[0].expires_at, Timestamp::new(1_704_067_200, 0));
    assert!(TokenCacheFile::decode(r#"{"tokens":[]}"#).unwrap().is_empty());

    let refused = |text: &str| match TokenCacheFile::decode(text) {
        Err(AppError::Config(m)) => m,
        other => panic!("unexpected: {:?}", other),
    };
    assert_eq!(
        refused("not json"),
        "Failed to parse token cache: the file holds no JSON document"
    );
    assert_eq!(refused("{}"), "Failed to parse token cache: missing field `tokens`");
    assert_eq!(refused("[]"), "Failed to parse token cache: missing field `tokens`");
    assert_eq!(
        refused(r#"{"tokens":{}}"#),
        "Failed to parse token cache: field `tokens` is no list"
    );
    assert_eq!(
        refused(r#"{"tokens":[{"expires_at":"2024-01-01T00:00:00Z","scope":"s","tenant_id":"t"}]}"#),
        "Failed to parse token cache: missing text field `access_token`"
    );
    assert_eq!(
        refused(r#"{"tokens":[{"access_token":"a","expires_at":7,"scope":"s","tenant_id":"t"}]}"#),
        "Failed to parse token cache: missing text field `expires_at`"
    );
    assert_eq!(
        refused(r#"{"tokens":[{"access_token":"a","expires_at":"x","tenant_id":"t"}]}"#),
        "Failed to parse token cache: missing text field `scope`"
    );
    assert_eq!(
        refused(r#"{"tokens":[{"access_token":"a","expires_at":"x","scope":"s","tenant_id":null}]}"#),
        "Failed to parse token cache: missing text field `tenant_id`"
    );
    assert_eq!(
        refused(r#"{"tokens":[{"access_token":"a","expires_at":"tomorrow","scope":"s","tenant_id":"t"}]}"#),
        "Failed to parse token cache: field `expires_at` names no point in time"
    );
    // The first entry that is wrong is reported, and nothing is kept.
    assert_eq!(
        refused(r#"{"tokens":[{"access_token":"a","expires_at":"2024-01-01T00:00:00Z","scope":"s","tenant_id":"t"},7,{}]}"#),
        "Failed to parse token cache: missing text field `access_token`"
    );
}

#[test]
fn reading_the_cache_file() {
    let at = |secs| Timestamp::new(secs, 0);
    assert!(TokenCacheFile::read_at(None, &at(0)).unwrap().tokens.is_empty());
    let both = TokenCacheFile::read_at(Some(TWO_ENTRIES), &at(1_704_067_139)).unwrap();
    assert_eq!(both.tokens.len(), 2);
    let one = TokenCacheFile::read_at(Some(TWO_ENTRIES), &at(1_704_067_140)).unwrap();
    assert_eq!(one.tokens.len(), 1);
    assert_eq!(one.tokens[0].access_token, "second");
    let none = TokenCacheFile::read_at(Some(TWO_ENTRIES), &at(2_000_000_000)).unwrap();
    assert!(none.tokens.is_empty());
    assert!(matches!(
        TokenCacheFile::read_at(Some("{"), &at(0)),
        Err(AppError::Config(_))
    ));
    // What is written is read back as it was.
    let written = two_entries().encode().unwrap();
    let read = TokenCacheFile::read_at(Some(&written), &at(0)).unwrap();
    assert_eq!(read.tokens.len(), 2);
    assert_eq!(read.tokens[1].expires_at, Timestamp::new(2_000_000_000, 500_000_000));

    let item = two_entries().tokens[0].to_json("stamp");
    match &item {
        Json::Object(members) => {
            let names: Vec<&str> = members.iter().map(|m| m.name.as_str()).collect();
            assert_eq!(names, ["access_token", "expires_at", "scope", "tenant_id"]);
            assert!(matches!(&members[1].value, Json::Text(t) if t == "stamp"));
        }
        other => panic!("unexpected: {:?}", other),
    }
    assert_eq!(CachedTokenEntry::expiry(&item), None);
    let back = CachedTokenEntry::from_json(&item, Some(at(5))).unwrap();
    assert_eq!(back.access_token, "first \"token\"");
    assert_eq!(back.expires_at, at(5));
    assert_eq!(
        CachedTokenEntry::from_json(&item, None).unwrap_err(),
        "field `expires_at` names no point in time"
    );
    let document = TokenCacheFile::document(vec![item]);
    assert_eq!(TokenCacheFile::items(&document).unwrap().len(), 1);
    assert_eq!(TokenCacheFile::items(&Json::Null).unwrap_err(), "missing field `tokens`");
    assert_eq!(
        TokenCacheFile::entries(&document).unwrap_err(),
        "field `expires_at` names no point in time"
    );
}

#[test]
fn failures_of_the_cache_file() {
    let cases = [
        (CacheStep::Read, "Failed to read token cache: x"),
        (CacheStep::Parse, "Failed to parse token cache: x"),
        (CacheStep::CreateDirectory, "Failed to create cache directory: x"),
        (CacheStep::Serialize, "Failed to serialize token cache: x"),
        (CacheStep::Write, "Failed to write token cache: x"),
        (CacheStep::SetPermissions, "Failed to set cache file permissions: x"),
        (CacheStep::Remove, "Failed to remove token cache: x"),
    ];
    for (step, expected) in cases {
        let e = step.failure("x");
        assert_eq!(e.exit_code(), ExitCode::ConfigError);
        match e {
            AppError::Config(m) => assert_eq!(m, expected),
            other => panic!("unexpected: {:?}", other),
        }
    }
}

#[test]
fn failures_of_the_listener() {
    let cases = [
        (FlowStep::Bind, "Failed to bind localhost listener: x"),
        (FlowStep::Address, "Failed to get listener address: x"),
        (FlowStep::Blocking, "Failed to set listener blocking: x"),
        (FlowStep::Accept, "Failed to accept callback connection: x"),
        (FlowStep::Read, "Failed to read callback request: x"),
        (FlowStep::Client, "Failed to create HTTP client: x"),
    ];
    for (step, expected) in cases {
        match step.failure("x") {
            AppError::Auth(m) => assert_eq!(m, expected),
            other => panic!("unexpected: {:?}", other),
        }
    }
    match ManagedIdentityAuth::client_failure("no tls") {
        AppError::ManagedIdentityNotAvailable(m) => {
            assert_eq!(m, "Failed to create HTTP client: no tls")
        }
        other => panic!("unexpected: {:?}", other),
    }
}

#[test]
fn credentials_add_exactly_one_header() {
    let pairs = |fields: &Vec<Field>| -> Vec<(String, String)> {
        fields.iter().map(|f| (f.name.clone(), f.value.clone())).collect()
    };
    let mut headers = vec![Field { name: "Accept".to_string(), value: "*/*".to_string() }];
    Credentials::ApiKey("k".to_string()).apply_to_request(&mut headers);
    assert_eq!(
        pairs(&headers),
        vec![
            ("Accept".to_string(), "*/*".to_string()),
            ("Ocp-Apim-Subscription-Key".to_string(), "k".to_string())
        ]
    );
    let mut headers = Vec::new();
    Credentials::BearerToken("t".to_string()).apply_to_request(&mut headers);
    assert_eq!(pairs(&headers), vec![("Authorization".to_string(), "Bearer t".to_string())]);
}

#[test]
fn notice_of_a_cached_token_in_a_run() {
    assert_eq!(
        render_plain(&cached_notice(59)),
        "  [*] Using cached token (59 minutes remaining)\n"
    );
    assert_eq!(
        render_plain(&cached_notice(-3)),
        "  [*] Using cached token (-3 minutes remaining)\n"
    );
}
