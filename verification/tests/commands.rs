use azure_aitoolsconnect::auth::device_code::{
    success_notice, DeviceAuthorizationDetails, DeviceCodeAuth, TokenResult,
};
use azure_aitoolsconnect::auth::interactive::{
    open_browser, InteractiveAuth, InteractiveSession, Platform,
};
use azure_aitoolsconnect::auth::token_cache::{CachedTokenEntry, TokenCacheFile};
use azure_aitoolsconnect::auth::Credentials;
use azure_aitoolsconnect::commands::{
    cached_login, cached_notice, cleared_notice, created_notice, diagnose_region, login_entry,
    main, output_token, prompt_choice, prompt_input, run_diagnose, run_init, run_list_scenarios,
    run_login, run_test, run_validate, saved_notice, show_token, token_minutes, use_colors,
    validation_report, LoginPlan, Prompt, SignInFlow, TokenOutput, Wizard, WizardStep,
};
use azure_aitoolsconnect::cli::{CloudArg, LoginArgs, LoginAuthMethodArg, OutputFormatArg};
use azure_aitoolsconnect::config::{
    validate_config, AuthMethod, Cloud, Config, EnvVar, OutputFormat,
};
use azure_aitoolsconnect::error::{AppError, ExitCode};
use azure_aitoolsconnect::output::TestReport;
use azure_aitoolsconnect::paint::{render, render_plain, Span, Tint};
use azure_aitoolsconnect::json::Json;
use azure_aitoolsconnect::services::{ServiceTestResults, TestResult};
use azure_aitoolsconnect::time::Timestamp;

fn words(spans: &Vec<Span>) -> String {
    render_plain(spans)
}

#[test]
fn rendering_of_pieces() {
    let spans = vec![
        Span { tint: Tint::Plain, text: "a ".to_string() },
        Span { tint: Tint::Plain, text: String::new() },
        Span { tint: Tint::Plain, text: "b".to_string() },
    ];
    assert_eq!(render(&spans), "a b");
    assert_eq!(render_plain(&spans), "a b");
    let tinted = vec![
        Span { tint: Tint::Plain, text: "[".to_string() },
        Span { tint: Tint::RedBold, text: "stop".to_string() },
        Span { tint: Tint::Plain, text: "]".to_string() },
    ];
    let shown = render(&tinted);
    assert!(shown.starts_with('['));
    assert!(shown.ends_with(']'));
    assert!(shown.contains("stop"));
    assert_eq!(render_plain(&tinted), "[stop]");
    assert_eq!(render(&vec![]), "");
}

#[test]
fn error_report_and_exit_status() {
    let (report, code) = main(&AppError::MissingTenantId);
    assert_eq!(code, ExitCode::AuthFailure);
    assert_eq!(
        words(&report),
        "Error: User authentication requires tenant ID\n\nHint: Use --tenant YOUR_TENANT_ID or set AZURE_USER_TENANT_ID environment variable.\n  Find your tenant ID: Azure Portal > Microsoft Entra ID > Overview > Tenant ID\n"
    );
    assert_eq!(report[0].tint, Tint::RedBold);
    let (report, code) = main(&AppError::InvalidInput("bad".to_string()));
    assert_eq!(code, ExitCode::InvalidInput);
    assert_eq!(words(&report), "Error: Invalid input: bad\n");
}

#[test]
fn test_command_exit_status() {
    let report = |results: Vec<TestResult>| {
        TestReport::new(
            vec![ServiceTestResults {
                service_name: "S".into(),
                endpoint: "e".into(),
                results,
                total_duration_ms: 1,
            }],
            Timestamp::new(0, 0),
        )
    };
    assert_eq!(run_test(&report(vec![TestResult::success("a", "A", 1)])), ExitCode::Success);
    assert_eq!(
        run_test(&report(vec![TestResult::failure("a", "A", 1, "x".into())])),
        ExitCode::TestFailure
    );
    assert_eq!(
        run_test(&report(vec![TestResult::skipped("a", "A", "x".into())])),
        ExitCode::Success
    );
    assert!(use_colors(true, false));
    assert!(!use_colors(true, true));
    assert!(!use_colors(false, false));
}

#[test]
fn login_decisions() {
    let args = |auth, tenant: Option<&str>, clear_cache| LoginArgs {
        tenant: tenant.map(|t| t.to_string()),
        auth,
        cloud: CloudArg::China,
        client_id: Some("c".to_string()),
        output: OutputFormatArg::Json,
        save: true,
        clear_cache,
    };
    assert!(matches!(
        run_login(args(LoginAuthMethodArg::DeviceCode, None, false)),
        Err(AppError::Config(m)) if m == "tenant_id required for device-code"
    ));
    assert!(matches!(
        run_login(args(LoginAuthMethodArg::Interactive, None, false)),
        Err(AppError::Config(m)) if m == "tenant_id required for interactive"
    ));
    assert!(matches!(
        run_login(args(LoginAuthMethodArg::DeviceCode, None, true)),
        Ok(LoginPlan::ClearCache)
    ));
    assert!(matches!(
        run_login(args(LoginAuthMethodArg::ManagedIdentity, Some("t"), true)),
        Ok(LoginPlan::ClearCache)
    ));
    assert!(matches!(
        run_login(args(LoginAuthMethodArg::ManagedIdentity, None, false)),
        Ok(LoginPlan::ManagedIdentity { cloud: Cloud::China, format: OutputFormat::Json })
    ));
    for (auth, expected) in [
        (LoginAuthMethodArg::DeviceCode, SignInFlow::DeviceCode),
        (LoginAuthMethodArg::Interactive, SignInFlow::Interactive),
    ] {
        match run_login(args(auth, Some("t"), false)).unwrap() {
            LoginPlan::SignIn { flow, tenant_id, client_id, cloud, save, format } => {
                assert_eq!(flow, expected);
                assert_eq!(tenant_id, "t");
                assert_eq!(client_id.as_deref(), Some("c"));
                assert_eq!(cloud, Cloud::China);
                assert!(save);
                assert_eq!(format, OutputFormat::Json);
            }
            other => panic!("unexpected: {:?}", other),
        }
    }
    assert_eq!(token_minutes(3600), 60);
    assert_eq!(token_minutes(3599), 59);
    assert_eq!(token_minutes(0), 0);

    let scope = "https://cognitiveservices.azure.com/.default";
    let cache = TokenCacheFile {
        tokens: vec![CachedTokenEntry {
            access_token: "cached".to_string(),
            expires_at: Timestamp::new(7_261, 0),
            scope: scope.to_string(),
            tenant_id: "t".to_string(),
        }],
    };
    assert_eq!(
        cached_login(&cache, Cloud::Global, "t", &Timestamp::new(0, 0)),
        Some(("cached".to_string(), 121))
    );
    assert_eq!(cached_login(&cache, Cloud::China, "t", &Timestamp::new(0, 0)), None);
    assert_eq!(cached_login(&cache, Cloud::Global, "u", &Timestamp::new(0, 0)), None);
    assert_eq!(cached_login(&cache, Cloud::Global, "t", &Timestamp::new(7_201, 0)), None);
    assert_eq!(
        cached_login(&cache, Cloud::Global, "t", &Timestamp::new(7_200, 0)),
        Some(("cached".to_string(), 1))
    );

    let result = TokenResult {
        access_token: "fresh".to_string(),
        expires_in_secs: 600,
        scope: scope.to_string(),
    };
    let entry = login_entry(&result, "t", &Timestamp::new(1_000, 5)).unwrap();
    assert_eq!(entry.access_token, "fresh");
    assert_eq!(entry.expires_at, Timestamp::new(1_600, 5));
    assert_eq!(entry.tenant_id, "t");
    assert_eq!(entry.scope, scope);

    assert_eq!(words(&cached_notice(42)), "  [*] Using cached token (42 minutes remaining)\n\n");
    assert_eq!(words(&saved_notice()), "  [+] Token saved to cache.\n\n");
    assert_eq!(words(&cleared_notice()), "[+] Token cache cleared.\n");
}

#[test]
fn token_output() {
    match output_token("tok", 59, OutputFormat::Human) {
        TokenOutput::Human { heading, token } => {
            assert_eq!(words(&heading), "Bearer Token (expires in ~59 minutes):\n");
            assert_eq!(token, "tok");
        }
        other => panic!("unexpected: {:?}", other),
    }
    assert!(matches!(output_token("tok", 1, OutputFormat::Junit), TokenOutput::Human { .. }));
    match output_token("tok", 59, OutputFormat::Json) {
        TokenOutput::Json(Json::Object(members)) => {
            assert_eq!(members.len(), 2);
            assert_eq!(members[0].name, "access_token");
            assert!(matches!(&members[0].value, Json::Text(t) if t == "tok"));
            assert_eq!(members[1].name, "expires_in_minutes");
            assert!(matches!(&members[1].value, Json::Number(n) if n == "59"));
        }
        other => panic!("unexpected: {:?}", other),
    }
    assert_eq!(
        words(&show_token(&Credentials::BearerToken("abc".to_string()))),
        "Bearer Token:\nabc\n\n"
    );
    assert!(show_token(&Credentials::ApiKey("k".to_string())).is_empty());
}

#[test]
fn diagnose_and_init_and_listing() {
    assert_eq!(diagnose_region(None), "eastus");
    assert_eq!(diagnose_region(Some("westus".to_string())), "westus");
    assert_eq!(
        words(&run_diagnose("westus", Cloud::China)),
        "[*] Running network diagnostics for westus (china)...\n"
    );
    assert!(run_init("./config.toml", false, false).is_ok());
    assert!(run_init("./config.toml", true, true).is_ok());
    match run_init("./config.toml", true, false) {
        Err(AppError::Config(m)) => {
            assert_eq!(m, "File already exists: ./config.toml. Use --force to overwrite.")
        }
        other => panic!("unexpected: {:?}", other),
    }
    assert_eq!(
        words(&created_notice("c.toml", false)),
        "[+] Configuration file created: c.toml\nEdit the file to add your API keys and customize settings.\nOr run azure-aitoolsconnect init --interactive for guided setup.\n"
    );
    assert_eq!(words(&created_notice("c.toml", true)), "[+] Configuration file created: c.toml\n");
    assert!(run_list_scenarios(false, Some("speech")).is_ok());
    assert!(run_list_scenarios(true, None).is_ok());
    match run_list_scenarios(true, Some("storage")) {
        Err(AppError::Config(m)) => assert_eq!(m, "Unknown service: storage"),
        other => panic!("unexpected: {:?}", other),
    }
    assert_eq!(run_validate(&vec![]), ExitCode::Success);
    assert_eq!(run_validate(&vec!["w".to_string()]), ExitCode::ConfigError);
}

#[test]
fn prompts() {
    assert_eq!(prompt_input("  westus2 \r\n", "eastus"), "westus2");
    assert_eq!(prompt_input("\n", "eastus"), "eastus");
    assert_eq!(prompt_input(" \u{a0}\t ", "eastus"), "eastus");
    assert_eq!(prompt_input("a b", ""), "a b");
    assert_eq!(prompt_input("", ""), "");

    let options = ["global", "china"];
    let (choice, warning) = prompt_choice(" China\n", &options, "global");
    assert_eq!(choice, "china");
    assert!(warning.is_empty());
    let (choice, warning) = prompt_choice("\n", &options, "global");
    assert_eq!(choice, "global");
    assert!(warning.is_empty());
    let (choice, warning) = prompt_choice("Mars\n", &options, "global");
    assert_eq!(choice, "global");
    assert_eq!(words(&warning), "  [!] Invalid choice 'mars', using default 'global'\n");

    let label = Prompt::Input { label: "Azure region", default: "eastus" }.label();
    assert_eq!(words(&label), "  Azure region [eastus]: ");
    let label = Prompt::Input { label: "Tenant ID", default: "" }.label();
    assert_eq!(words(&label), "  Tenant ID: ");
    let label = Prompt::Choice {
        label: "Cloud environment",
        options: vec!["global", "china"],
        default: "global",
    }
    .label();
    assert_eq!(words(&label), "  Cloud environment (global/china) [global]: ");
    let label = Prompt::Choice { label: "One", options: vec!["only"], default: "only" }.label();
    assert_eq!(words(&label), "  One (only) [only]: ");
}

fn run_wizard(lines: &[&str]) -> (Wizard, Vec<WizardStep>) {
    let mut wizard = Wizard::start();
    let mut steps = Vec::new();
    let mut lines = lines.iter();
    while wizard.prompt().is_some() {
        steps.push(wizard.step);
        wizard = wizard.answer(lines.next().expect("a line for each question"));
    }
    assert!(lines.next().is_none());
    (wizard, steps)
}

#[test]
fn wizard_with_defaults() {
    let (wizard, steps) = run_wizard(&["\n", "\n", "\n", "\n", "\n", "\n"]);
    assert_eq!(
        steps,
        vec![
            WizardStep::Cloud,
            WizardStep::Region,
            WizardStep::Auth,
            WizardStep::ApiKey,
            WizardStep::Endpoint,
            WizardStep::Services,
        ]
    );
    assert_eq!(words(&wizard.note()), "\n  [+] Configuration ready.\n");
    let config = wizard.run_interactive_init();
    assert_eq!(config.global.cloud, Cloud::Global);
    assert_eq!(config.global.timeout_seconds, 30);
    assert_eq!(config.auth.default_method, AuthMethod::Key);
    let names: Vec<&str> = config.services.iter().map(|s| s.name.as_str()).collect();
    assert_eq!(names, vec!["speech", "translator", "language", "vision", "document_intelligence"]);
    for s in &config.services {
        assert!(s.config.enabled);
        assert_eq!(s.config.region.as_deref(), Some("eastus"));
        assert_eq!(s.config.api_key, None);
        assert_eq!(s.config.endpoint, None);
        assert!(s.config.test_scenarios.is_empty());
    }
}

#[test]
fn wizard_with_answers() {
    let (wizard, steps) = run_wizard(&[
        "china\n",
        " chinaeast2 \n",
        "Device-Code\n",
        "my-tenant\n",
        "https://res.example\n",
        "Speech, document-intelligence ,speech,,VISION\n",
    ]);
    assert_eq!(steps[3], WizardStep::Tenant);
    let config = wizard.run_interactive_init();
    assert_eq!(config.global.cloud, Cloud::China);
    assert_eq!(config.auth.default_method, AuthMethod::DeviceCode);
    assert_eq!(config.auth.user.tenant_id.as_deref(), Some("my-tenant"));
    let names: Vec<&str> = config.services.iter().map(|s| s.name.as_str()).collect();
    assert_eq!(names, vec!["speech", "document_intelligence", "", "vision"]);
    assert_eq!(config.services[1].config.region.as_deref(), Some("chinaeast2"));
    assert_eq!(config.services[1].config.endpoint.as_deref(), Some("https://res.example"));

    let (wizard, steps) = run_wizard(&["x\n", "\n", "manual-token\n", "\n", "ALL\n"]);
    assert_eq!(
        steps,
        vec![
            WizardStep::Cloud,
            WizardStep::Region,
            WizardStep::Auth,
            WizardStep::Endpoint,
            WizardStep::Services
        ]
    );
    let config = wizard.run_interactive_init();
    assert_eq!(config.global.cloud, Cloud::Global);
    assert_eq!(config.auth.default_method, AuthMethod::ManualToken);
    assert_eq!(config.services.len(), 5);

    let (wizard, _) = run_wizard(&["\n", "\n", "key\n", "  secret-key \n", "\n", "translator\n"]);
    let config = wizard.run_interactive_init();
    assert_eq!(config.services.len(), 1);
    assert_eq!(config.services[0].config.api_key.as_deref(), Some("secret-key"));
}

#[test]
fn wizard_notes() {
    assert_eq!(
        words(&Wizard::heading()),
        "\n[*] Azure AI Tools Connect - Configuration Wizard\n\n"
    );
    let start = Wizard::start();
    assert!(start.note().is_empty());
    let manual = start.answer("\n").answer("\n").answer("manual-token\n");
    assert_eq!(manual.step, WizardStep::Endpoint);
    assert_eq!(
        words(&manual.note()),
        "  You can set the bearer token later with --bearer-token or AZURE_BEARER_TOKEN.\n"
    );
    let services = manual.answer("\n");
    assert_eq!(
        words(&services.note()),
        "\n  Available services: speech, translator, language, vision, document_intelligence\n"
    );
}

fn var(name: &str, value: &str) -> EnvVar {
    EnvVar { name: name.to_string(), value: value.to_string() }
}

#[test]
fn environment_overrides() {
    let mut config = Config::default_config();
    config.get_service_mut("speech").unwrap().api_key = Some("file-key".to_string());
    config.get_service_mut("vision").unwrap().region = None;
    config.get_service_mut("language").unwrap().endpoint = Some("https://file".to_string());
    let env = vec![
        var("AZURE_AI_API_KEY", "global-key"),
        var("AZURE_AI_ENDPOINT", "https://global"),
        var("AZURE_TRANSLATOR_API_KEY", "translator-key"),
        var("AZURE_DOCUMENT_INTELLIGENCE_REGION", "westeurope"),
        var("AZURE_SPEECH_ENDPOINT", "https://speech"),
        var("AZURE_REGION", "northeurope"),
        var("AZURE_TENANT_ID", "tenant"),
        var("AZURE_CLIENT_SECRET", "secret"),
        var("AZURE_USER_TENANT_ID", "user-tenant"),
        var("AZURE_BEARER_TOKEN", "token"),
        var("AZURE_MI_CLIENT_ID", "mi"),
        var("AZURE_CLOUD", "MOONCAKE"),
        var("AZURE_AI_API_KEY", "shadowed"),
    ];
    config.apply_env_overrides(&env);
    let speech = config.get_service("speech").unwrap();
    assert_eq!(speech.api_key.as_deref(), Some("file-key"));
    assert_eq!(speech.endpoint.as_deref(), Some("https://speech"));
    assert_eq!(speech.region.as_deref(), Some("eastus"));
    let translator = config.get_service("translator").unwrap();
    assert_eq!(translator.api_key.as_deref(), Some("translator-key"));
    assert_eq!(translator.endpoint.as_deref(), Some("https://global"));
    let language = config.get_service("language").unwrap();
    assert_eq!(language.api_key.as_deref(), Some("global-key"));
    assert_eq!(language.endpoint.as_deref(), Some("https://file"));
    assert_eq!(config.get_service("vision").unwrap().region.as_deref(), Some("northeurope"));
    assert_eq!(
        config.get_service("document_intelligence").unwrap().region.as_deref(),
        Some("westeurope")
    );
    assert_eq!(config.auth.entra.tenant_id.as_deref(), Some("tenant"));
    assert_eq!(config.auth.entra.client_id, None);
    assert_eq!(config.auth.entra.client_secret.as_deref(), Some("secret"));
    assert_eq!(config.auth.user.tenant_id.as_deref(), Some("user-tenant"));
    assert_eq!(config.auth.user.bearer_token.as_deref(), Some("token"));
    assert_eq!(config.auth.user.managed_identity_client_id.as_deref(), Some("mi"));
    assert_eq!(config.global.cloud, Cloud::China);
    assert_eq!(speech.test_scenarios.len(), 4);

    let mut untouched = Config::default_config();
    untouched.apply_env_overrides(&vec![var("AZURE_CLOUD", "mars"), var("OTHER", "x")]);
    assert_eq!(untouched.global.cloud, Cloud::Global);
    assert_eq!(untouched.get_service("speech").unwrap().api_key, None);
}

#[test]
fn validation_warnings() {
    let config = Config::default_config();
    let warnings = validate_config(&config, false, false).unwrap();
    assert_eq!(
        warnings,
        vec![
            "Service 'speech' is enabled but has no API key configured",
            "Service 'translator' is enabled but has no API key configured",
            "Service 'language' is enabled but has no API key configured",
            "Service 'vision' is enabled but has no API key configured",
            "Service 'document_intelligence' is enabled but has no API key configured",
        ]
    );

    let mut both = Config::default_config();
    both.auth.default_method = AuthMethod::Both;
    for s in both.services.iter_mut() {
        s.config.api_key = Some("k".to_string());
    }
    both.auth.entra.client_id = Some("c".to_string());
    both.services[0].config.region = None;
    both.services[1].config.region = None;
    both.services[1].config.enabled = false;
    assert_eq!(
        validate_config(&both, false, false).unwrap(),
        vec![
            "Token auth selected but tenant_id is not configured",
            "Token auth selected but client_secret is not configured",
            "Service 'speech' has no region or endpoint configured",
        ]
    );

    let mut device = Config::default_config();
    device.auth.default_method = AuthMethod::DeviceCode;
    assert_eq!(
        validate_config(&device, false, false).unwrap(),
        vec![
            "Device code auth selected but tenant_id is not configured in [auth.user]. Use --tenant on the command line or set AZURE_USER_TENANT_ID.",
            "Bearer token auth typically requires a custom subdomain endpoint. Use --endpoint https://YOUR-RESOURCE.cognitiveservices.azure.com",
        ]
    );
    device.auth.user.tenant_id = Some("t".to_string());
    device.services[3].config.endpoint = Some("https://c".to_string());
    assert!(validate_config(&device, false, false).unwrap().is_empty());

    let mut manual = Config::default_config();
    manual.auth.default_method = AuthMethod::ManualToken;
    manual.services[0].config.endpoint = Some("https://c".to_string());
    assert_eq!(
        validate_config(&manual, false, false).unwrap(),
        vec!["Manual token auth selected but no bearer_token is configured. Use --bearer-token or set AZURE_BEARER_TOKEN."]
    );

    let mut identity = Config::default_config();
    identity.auth.default_method = AuthMethod::ManagedIdentity;
    identity.services[0].config.endpoint = Some("https://c".to_string());
    assert_eq!(
        validate_config(&identity, false, false).unwrap(),
        vec!["Managed identity auth selected but no identity endpoint detected. This will work on Azure VMs via IMDS but will fail on non-Azure machines."]
    );
    assert!(validate_config(&identity, true, false).unwrap().is_empty());
    assert!(validate_config(&identity, false, true).unwrap().is_empty());

    let report = validation_report("c.toml", &both, &validate_config(&both, false, false).unwrap());
    assert_eq!(
        words(&report),
        "[+] Configuration file is valid: c.toml\n\
\nWarnings:\n\
\x20 ! Token auth selected but tenant_id is not configured\n\
\x20 ! Token auth selected but client_secret is not configured\n\
\x20 ! Service 'speech' has no region or endpoint configured\n\
\nConfiguration Summary:\n\
\x20 Cloud: global\n\
\x20 Timeout: 30s\n\
\x20 Auth Method: both\n\
\x20 Services:\n\
\x20   - speech enabled (key set)\n\
\x20   - translator disabled (key set)\n\
\x20   - language enabled (key set)\n\
\x20   - vision enabled (key set)\n\
\x20   - document_intelligence enabled (key set)\n"
    );
    let quiet = validation_report("c.toml", &device, &vec![]);
    assert!(words(&quiet).starts_with("[+] Configuration file is valid: c.toml\n\nConfiguration Summary:\n"));
    assert!(words(&quiet).contains("    - speech enabled (no key)\n"));
}

#[test]
fn settings_file_errors() {
    match Config::from_file("c.toml", true, "os error 2".to_string()) {
        AppError::FileNotFound(p) => assert_eq!(p, "c.toml"),
        other => panic!("unexpected: {:?}", other),
    }
    match Config::from_file("c.toml", false, "denied".to_string()) {
        AppError::Io(m) => assert_eq!(m, "denied"),
        other => panic!("unexpected: {:?}", other),
    }
    match Config::to_toml("unsupported".to_string()) {
        AppError::Config(m) => assert_eq!(m, "unsupported"),
        other => panic!("unexpected: {:?}", other),
    }
}

#[test]
fn notices_of_the_flows() {
    let device = DeviceCodeAuth::new("t".to_string(), None, &Cloud::Global).unwrap();
    let details = DeviceAuthorizationDetails {
        device_code: "secret".to_string(),
        user_code: "ABCD-1234".to_string(),
        verification_uri: "https://microsoft.com/devicelogin".to_string(),
        expires_in: 900,
        interval: 5,
    };
    let rule = "=".repeat(70);
    assert_eq!(
        words(&device.display_instructions(&details)),
        format!(
            "\n{r}\n  [*] Azure Authentication Required\n{r}\n\n  1. Open this URL in your browser:\n     https://microsoft.com/devicelogin\n\n  2. Enter this code:\n     ABCD-1234\n\n{r}\n\n",
            r = rule
        )
    );
    assert!(!words(&device.display_instructions(&details)).contains("secret"));
    assert_eq!(words(&success_notice()), "  [+] Authentication successful!\n\n");

    let session = InteractiveSession {
        port: 1,
        authorize_url: "https://login/authorize?x".to_string(),
        csrf_state: "s".to_string(),
        code_verifier: "never shown".to_string(),
    };
    let auth = InteractiveAuth::new("t".to_string(), None, &Cloud::Global).unwrap();
    let opening = words(&auth.opening_notice(&session));
    assert_eq!(
        opening,
        format!(
            "\n{r}\n  [*] Opening browser for Azure authentication...\n{r}\n\n  If the browser doesn't open, visit this URL:\n  https://login/authorize?x\n\n",
            r = rule
        )
    );
    assert!(!opening.contains("never shown"));
    assert_eq!(
        words(&auth.exchanging_notice()),
        "  [*] Authorization code received, exchanging for token...\n"
    );
    let quiet = auth.with_quiet(true);
    assert!(quiet.opening_notice(&session).is_empty());
    assert!(quiet.exchanging_notice().is_empty());

    assert_eq!(open_browser("u", Platform::MacOs), Some(vec!["open".to_string(), "u".to_string()]));
    assert_eq!(
        open_browser("u", Platform::Linux),
        Some(vec!["xdg-open".to_string(), "u".to_string()])
    );
    assert_eq!(
        open_browser("u", Platform::Windows),
        Some(vec!["cmd".to_string(), "/c".to_string(), "start".to_string(), "u".to_string()])
    );
    assert_eq!(open_browser("u", Platform::Other), None);
}
