use azure_aitoolsconnect::auth::device_code::DeviceCodeAuth;
use azure_aitoolsconnect::auth::interactive::{callback_from_query, InteractiveAuth};
use azure_aitoolsconnect::auth::oauth::Authorization;
use azure_aitoolsconnect::auth::Field;
use azure_aitoolsconnect::cli::{lowercase_words, services_of_lowercase, with_underscores};
use azure_aitoolsconnect::commands::{choice, service_names_of, Wizard, WizardStep};
use azure_aitoolsconnect::config::{
    override_service, service_variable, AuthMethod, Cloud, EnvVar, OutputFormat, ServiceConfig,
    ServiceEntry,
};
use azure_aitoolsconnect::error::AppError;
use azure_aitoolsconnect::paint::render_plain;
use azure_aitoolsconnect::services::document_intelligence::{
    DocumentIntelligenceService, PollStep,
};
use azure_aitoolsconnect::json::{member, Json};
use azure_aitoolsconnect::services::language::{JobStep, LanguageService};
use azure_aitoolsconnect::services::translator::TranslatorService;
use azure_aitoolsconnect::services::vision::VisionService;
use azure_aitoolsconnect::services::{get_service_of_lowercase, Outcome, ServiceKind};
use azure_aitoolsconnect::testing::content_type_for_lowercase;

fn text(v: &[&str]) -> Vec<String> {
    v.iter().map(|s| s.to_string()).collect()
}

fn passed(o: Outcome) -> String {
    match o {
        Outcome::Passed(d) => d,
        other => panic!("unexpected: {:?}", other),
    }
}

fn failed(o: Outcome) -> (u16, String) {
    match o {
        Outcome::Failed { status, error } => (status, error),
        other => panic!("unexpected: {:?}", other),
    }
}

#[test]
fn words_in_lower_case_name_clouds_formats_and_methods() {
    for (word, cloud) in [
        ("global", Some(Cloud::Global)),
        ("azure", Some(Cloud::Global)),
        ("public", Some(Cloud::Global)),
        ("china", Some(Cloud::China)),
        ("mooncake", Some(Cloud::China)),
        ("cn", Some(Cloud::China)),
        ("China", None),
        ("", None),
    ] {
        assert_eq!(Cloud::from_lowercase(word), cloud, "{}", word);
    }
    for (word, format) in [
        ("human", Some(OutputFormat::Human)),
        ("text", Some(OutputFormat::Human)),
        ("console", Some(OutputFormat::Human)),
        ("json", Some(OutputFormat::Json)),
        ("junit", Some(OutputFormat::Junit)),
        ("xml", Some(OutputFormat::Junit)),
        ("JSON", None),
        ("yaml", None),
    ] {
        assert_eq!(OutputFormat::from_lowercase(word), format, "{}", word);
    }
    for (word, method) in [
        ("key", Some(AuthMethod::Key)),
        ("apikey", Some(AuthMethod::Key)),
        ("api-key", Some(AuthMethod::Key)),
        ("token", Some(AuthMethod::Token)),
        ("entra", Some(AuthMethod::Token)),
        ("aad", Some(AuthMethod::Token)),
        ("bearer", Some(AuthMethod::Token)),
        ("both", Some(AuthMethod::Both)),
        ("all", Some(AuthMethod::Both)),
        ("device-code", Some(AuthMethod::DeviceCode)),
        ("device_code", Some(AuthMethod::DeviceCode)),
        ("devicecode", Some(AuthMethod::DeviceCode)),
        ("managed-identity", Some(AuthMethod::ManagedIdentity)),
        ("managed_identity", Some(AuthMethod::ManagedIdentity)),
        ("managedidentity", Some(AuthMethod::ManagedIdentity)),
        ("mi", Some(AuthMethod::ManagedIdentity)),
        ("manual-token", Some(AuthMethod::ManualToken)),
        ("manual_token", Some(AuthMethod::ManualToken)),
        ("manualtoken", Some(AuthMethod::ManualToken)),
        ("manual", Some(AuthMethod::ManualToken)),
        ("interactive", Some(AuthMethod::Interactive)),
        ("Key", None),
        ("password", None),
    ] {
        assert_eq!(AuthMethod::from_lowercase(word), method, "{}", word);
    }
    for (word, kind) in [
        ("speech", Some(ServiceKind::Speech)),
        ("translator", Some(ServiceKind::Translator)),
        ("language", Some(ServiceKind::Language)),
        ("vision", Some(ServiceKind::Vision)),
        ("document_intelligence", Some(ServiceKind::DocumentIntelligence)),
        ("document-intelligence", Some(ServiceKind::DocumentIntelligence)),
        ("documentintelligence", Some(ServiceKind::DocumentIntelligence)),
        ("Speech", None),
        ("storage", None),
    ] {
        assert_eq!(get_service_of_lowercase(word), kind, "{}", word);
    }
    assert_eq!(content_type_for_lowercase("wav"), "audio/wav");
    assert_eq!(content_type_for_lowercase("mp3"), "audio/mpeg");
    assert_eq!(content_type_for_lowercase("ogg"), "audio/ogg");
    assert_eq!(content_type_for_lowercase("png"), "image/png");
    assert_eq!(content_type_for_lowercase("jpg"), "image/jpeg");
    assert_eq!(content_type_for_lowercase("jpeg"), "image/jpeg");
    assert_eq!(content_type_for_lowercase("gif"), "image/gif");
    assert_eq!(content_type_for_lowercase("bmp"), "image/bmp");
    assert_eq!(content_type_for_lowercase("pdf"), "application/pdf");
    assert_eq!(content_type_for_lowercase("tiff"), "image/tiff");
    assert_eq!(content_type_for_lowercase("tif"), "image/tiff");
    assert_eq!(content_type_for_lowercase("PNG"), "application/octet-stream");
    assert_eq!(content_type_for_lowercase(""), "application/octet-stream");
}

#[test]
fn services_of_words_in_lower_case() {
    assert_eq!(lowercase_words(&text(&["Speech", "ALL", "\u{c9}t\u{e9}"])), ["speech", "all", "\u{e9}t\u{e9}"]);
    assert_eq!(with_underscores(&text(&["a-b-c", "-", "x_y"])), ["a_b_c", "_", "x_y"]);
    assert_eq!(
        services_of_lowercase(&text(&["all"])),
        ["speech", "translator", "language", "vision", "document_intelligence"]
    );
    assert_eq!(services_of_lowercase(&text(&["all", "speech"])), ["all", "speech"]);
    assert_eq!(services_of_lowercase(&text(&["ALL"])), ["ALL"]);
    assert_eq!(services_of_lowercase(&text(&["document-intelligence"])), ["document_intelligence"]);
    assert!(services_of_lowercase(&[]).is_empty());

    assert_eq!(
        service_names_of("all", &text(&["all"])),
        ["speech", "translator", "language", "vision", "document_intelligence"]
    );
    assert_eq!(service_names_of("speech,all", &text(&["speech", "all"])), ["speech", "all"]);
    assert_eq!(service_names_of("a-b, c", &text(&["a-b", "c"])), ["a_b", "c"]);
}

#[test]
fn variables_of_a_service() {
    assert_eq!(service_variable("SPEECH", "_API_KEY"), "AZURE_SPEECH_API_KEY");
    assert_eq!(
        service_variable("DOCUMENT-INTELLIGENCE", "_REGION"),
        "AZURE_DOCUMENT_INTELLIGENCE_REGION"
    );
    assert_eq!(service_variable("", ""), "AZURE_");
    let entry = ServiceEntry {
        name: "vision".to_string(),
        config: ServiceConfig {
            enabled: false,
            region: Some("eastus".to_string()),
            endpoint: None,
            api_key: Some("own".to_string()),
            test_scenarios: vec!["read_text".to_string()],
        },
    };
    let var = |name: &str, value: &str| EnvVar { name: name.to_string(), value: value.to_string() };
    let env = vec![
        var("AZURE_X_API_KEY", "x-key"),
        var("AZURE_AI_API_KEY", "all-key"),
        var("AZURE_AI_ENDPOINT", "https://all"),
        var("AZURE_REGION", "all-region"),
        var("AZURE_VISION_REGION", "never read"),
    ];
    let r = override_service(&entry, "X", &env);
    assert_eq!(r.name, "vision");
    assert!(!r.config.enabled);
    assert_eq!(r.config.api_key.as_deref(), Some("x-key"));
    assert_eq!(r.config.endpoint.as_deref(), Some("https://all"));
    assert_eq!(r.config.region.as_deref(), Some("eastus"));
    assert_eq!(r.config.test_scenarios, ["read_text"]);
    let r = override_service(&entry, "VISION", &env);
    assert_eq!(r.config.api_key.as_deref(), Some("own"));
    assert_eq!(r.config.region.as_deref(), Some("never read"));
}

#[test]
fn choices_in_lower_case() {
    let options = ["key", "device-code"];
    let (word, warning) = choice("device-code", &options, "key");
    assert_eq!(word, "device-code");
    assert!(warning.is_empty());
    let (word, warning) = choice("", &options, "key");
    assert_eq!(word, "key");
    assert!(warning.is_empty());
    let (word, warning) = choice("Key", &options, "device-code");
    assert_eq!(word, "device-code");
    assert_eq!(
        render_plain(&warning),
        "  [!] Invalid choice 'Key', using default 'device-code'\n"
    );

    let wizard = Wizard::start().answer_with("ignored", "china");
    assert_eq!(wizard.step, WizardStep::Region);
    assert_eq!(wizard.cloud, Cloud::China);
    let wizard = wizard.answer_with(" westus \n", "ignored");
    assert_eq!(wizard.region, "westus");
    let wizard = wizard.answer_with("ignored", "manual-token");
    assert_eq!(wizard.auth_method, AuthMethod::ManualToken);
    assert_eq!(wizard.step, WizardStep::Endpoint);
    let other = Wizard::start().answer_with("china", "mars");
    assert_eq!(other.cloud, Cloud::Global);

    let config = wizard.config_for(&text(&["vision", "speech", "vision"]));
    let names: Vec<&str> = config.services.iter().map(|s| s.name.as_str()).collect();
    assert_eq!(names, ["vision", "speech"]);
    assert_eq!(config.global.cloud, Cloud::China);
    assert_eq!(config.services[0].config.region.as_deref(), Some("westus"));
    assert!(wizard.config_for(&Vec::new()).services.is_empty());
}

fn object(members: Vec<(&str, Json)>) -> Json {
    Json::object(members.into_iter().map(|(n, v)| member(n, v)).collect())
}

fn documents(items: Vec<Json>) -> Json {
    object(vec![("results", object(vec![("documents", Json::array(items))]))])
}

#[test]
fn bodies_of_the_language_service() {
    let body = documents(vec![object(vec![("sentiment", Json::text("mixed"))])]);
    assert_eq!(passed(LanguageService::sentiment_of(200, &body)), "Sentiment: mixed");
    assert_eq!(passed(LanguageService::detection_of(200, &body)), "Detected: unknown");
    assert_eq!(
        passed(LanguageService::count_of(200, &body, "Found ", "entities", " entities")),
        "Found 0 entities"
    );
    let body = documents(vec![object(vec![
        ("detectedLanguage", object(vec![("name", Json::text("French"))])),
        ("entities", Json::array(vec![Json::Null, Json::Null])),
    ])]);
    assert_eq!(passed(LanguageService::detection_of(200, &body)), "Detected: French");
    assert_eq!(
        passed(LanguageService::count_of(200, &body, "Linked ", "entities", " entities")),
        "Linked 2 entities"
    );
    assert_eq!(
        failed(LanguageService::sentiment_of(204, &documents(vec![]))),
        (204, "No documents in response".to_string())
    );
    assert_eq!(
        failed(LanguageService::detection_of(200, &Json::Null)),
        (200, "Invalid response format".to_string())
    );
    assert_eq!(
        failed(LanguageService::count_of(201, &object(vec![]), "", "x", "")),
        (201, "Invalid response format".to_string())
    );

    let state = |s: &str| object(vec![("status", Json::text(s))]);
    assert!(matches!(
        LanguageService::summarization_step_of(3, Some(&state("running"))),
        JobStep::Again { attempts_left: 2, wait_millis: 500 }
    ));
    assert!(matches!(
        LanguageService::summarization_step_of(3, None),
        JobStep::Again { attempts_left: 2, wait_millis: 500 }
    ));
    match LanguageService::summarization_step_of(0, None) {
        JobStep::Finished(o) => {
            assert_eq!(passed(o), "Job submitted (polling timeout, but endpoint responsive)")
        }
        other => panic!("unexpected: {:?}", other),
    }
    match LanguageService::summarization_step_of(5, Some(&state("failed"))) {
        JobStep::Finished(o) => assert_eq!(failed(o), (200, "Summarization job failed".into())),
        other => panic!("unexpected: {:?}", other),
    }
    match LanguageService::summarization_step_of(5, Some(&state("succeeded"))) {
        JobStep::Finished(o) => assert_eq!(passed(o), "Summarization completed"),
        other => panic!("unexpected: {:?}", other),
    }
    let summaries = object(vec![(
        "tasks",
        object(vec![(
            "items",
            Json::array(vec![documents(vec![object(vec![(
                "summaries",
                Json::array(vec![Json::Null, Json::Null, Json::Null]),
            )])])]),
        )]),
    )]);
    assert_eq!(
        passed(LanguageService::summary_outcome(&summaries)),
        "Generated 3 summary/summaries"
    );
    assert_eq!(passed(LanguageService::summary_outcome(&Json::Null)), "Summarization completed");
}

#[test]
fn bodies_of_the_other_services() {
    let body = object(vec![(
        "translation",
        object(vec![("en", Json::Null), ("fr", Json::Null)]),
    )]);
    assert_eq!(passed(TranslatorService::languages_of(&body)), "2 translation languages available");
    assert_eq!(
        passed(TranslatorService::languages_of(&Json::Null)),
        "0 translation languages available"
    );

    let body = object(vec![("objectsResult", Json::Null), ("other", Json::Bool(true))]);
    assert_eq!(
        passed(VisionService::analysis_of(&body)),
        "Analysis complete (tags: false, objects: true, read: false)"
    );

    let finished = |s: PollStep| match s {
        PollStep::Finished(o) => o,
        other => panic!("unexpected: {:?}", other),
    };
    let state = |s: &str| object(vec![("status", Json::text(s))]);
    assert!(matches!(
        DocumentIntelligenceService::poll_operation_of(2, 200, &state("running")),
        PollStep::Again { attempts_left: 1, wait_millis: 1000 }
    ));
    assert!(matches!(
        DocumentIntelligenceService::poll_operation_of(2, 200, &Json::Null),
        PollStep::Again { attempts_left: 1, .. }
    ));
    assert_eq!(
        failed(finished(DocumentIntelligenceService::poll_operation_of(1, 200, &state("running")))),
        (0, "Operation timed out after 30 seconds".to_string())
    );
    assert_eq!(
        failed(finished(DocumentIntelligenceService::poll_operation_of(9, 203, &state("lost")))),
        (203, "Unknown status: lost".to_string())
    );
    assert_eq!(
        failed(finished(DocumentIntelligenceService::poll_operation_of(9, 200, &state("failed")))),
        (200, "Analysis failed: Unknown error".to_string())
    );
    let pages = object(vec![
        ("status", Json::text("succeeded")),
        ("analyzeResult", object(vec![("pages", Json::array(vec![Json::Null, Json::Null]))])),
    ]);
    assert_eq!(
        passed(finished(DocumentIntelligenceService::poll_operation_of(9, 200, &pages))),
        "Analysis succeeded: 2 pages processed"
    );
    assert!(matches!(Json::or_null(None), Json::Null));
    assert!(matches!(Json::or_null(Some(Json::Bool(true))), Json::Bool(true)));
}

#[test]
fn addresses_that_are_refused() {
    let some = |s: &str| Some(s.to_string());
    assert!(DeviceCodeAuth::url_failure(None, None, None).is_none());
    match DeviceCodeAuth::url_failure(some("a"), some("b"), some("c")) {
        Some(AppError::DeviceCodeAuthFailed(m)) => assert_eq!(m, "Invalid device auth URL: a"),
        other => panic!("unexpected: {:?}", other),
    }
    match DeviceCodeAuth::url_failure(None, some("b"), some("c")) {
        Some(AppError::DeviceCodeAuthFailed(m)) => assert_eq!(m, "Invalid token URL: b"),
        other => panic!("unexpected: {:?}", other),
    }
    match DeviceCodeAuth::url_failure(None, None, some("c")) {
        Some(AppError::DeviceCodeAuthFailed(m)) => assert_eq!(m, "Invalid auth URL: c"),
        other => panic!("unexpected: {:?}", other),
    }
    assert!(InteractiveAuth::url_failure(None, None, None).is_none());
    match InteractiveAuth::url_failure(some("a"), some("b"), some("c")) {
        Some(AppError::Auth(m)) => assert_eq!(m, "Invalid auth URL: a"),
        other => panic!("unexpected: {:?}", other),
    }
    match InteractiveAuth::url_failure(None, some("b"), some("c")) {
        Some(AppError::Auth(m)) => assert_eq!(m, "Invalid token URL: b"),
        other => panic!("unexpected: {:?}", other),
    }
    match InteractiveAuth::url_failure(None, None, some("c")) {
        Some(AppError::Auth(m)) => assert_eq!(m, "Invalid redirect URL: c"),
        other => panic!("unexpected: {:?}", other),
    }

    let device = DeviceCodeAuth::new("t".to_string(), Some("c".to_string()), &Cloud::China).unwrap();
    let request = device.authorization_request();
    assert_eq!(request.url, "https://login.partner.microsoftonline.cn/t/oauth2/v2.0/devicecode");
    let headers: Vec<(&str, &str)> =
        request.headers.iter().map(|f| (f.name.as_str(), f.value.as_str())).collect();
    assert_eq!(
        headers,
        [("Accept", "application/json"), ("Content-Type", "application/x-www-form-urlencoded")]
    );
    let form: Vec<(&str, &str)> =
        request.form.iter().map(|f| (f.name.as_str(), f.value.as_str())).collect();
    assert_eq!(
        form,
        [("scope", "https://cognitiveservices.azure.cn/.default"), ("client_id", "c")]
    );

    let session = InteractiveAuth::session_of(
        8080,
        Authorization {
            url: "https://a".to_string(),
            csrf_state: "s".to_string(),
            code_verifier: "v".to_string(),
        },
    );
    assert_eq!(session.port, 8080);
    assert_eq!(session.authorize_url, "https://a");
    assert_eq!(session.csrf_state, "s");
    assert_eq!(session.code_verifier, "v");
}

#[test]
fn callbacks_from_a_query() {
    let reply = callback_from_query(Err("relative URL without a base".to_string()));
    assert!(reply.response.is_none());
    match reply.result {
        Err(AppError::Auth(m)) => {
            assert_eq!(m, "Failed to parse callback URL: relative URL without a base")
        }
        other => panic!("unexpected: {:?}", other),
    }
    let pairs = vec![
        Field { name: "code".to_string(), value: "old".to_string() },
        Field { name: "state".to_string(), value: "s".to_string() },
        Field { name: "code".to_string(), value: "new".to_string() },
    ];
    let reply = callback_from_query(Ok(pairs));
    assert!(reply.response.unwrap().starts_with("HTTP/1.1 200 OK\r\n"));
    assert_eq!(reply.result.unwrap(), ("new".to_string(), "s".to_string()));
    let reply = callback_from_query(Ok(Vec::new()));
    assert!(reply.response.is_none());
    match reply.result {
        Err(AppError::Auth(m)) => assert_eq!(m, "No authorization code in callback"),
        other => panic!("unexpected: {:?}", other),
    }
}
