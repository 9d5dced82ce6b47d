use azure_aitoolsconnect::config::{
    default_enabled, default_timeout, AuthMethod, Cloud, Config, OutputFormat,
    DEFAULT_TIMEOUT_SECS,
};
use azure_aitoolsconnect::error::AppError;

#[test]
fn test_cloud_endpoints() {
    assert_eq!(Cloud::Global.login_endpoint(), "https://login.microsoftonline.com");
    assert_eq!(Cloud::China.login_endpoint(), "https://login.partner.microsoftonline.cn");
}

#[test]
fn test_cloud_parse() {
    assert_eq!("global".parse::<Cloud>().unwrap(), Cloud::Global);
    assert_eq!("china".parse::<Cloud>().unwrap(), Cloud::China);
    assert_eq!("mooncake".parse::<Cloud>().unwrap(), Cloud::China);
}

#[test]
fn test_default_config() {
    let config = Config::default_config();
    assert_eq!(config.global.cloud, Cloud::Global);
    assert_eq!(config.global.timeout_seconds, DEFAULT_TIMEOUT_SECS);
    assert!(config.get_service("speech").is_some());
}

#[test]
fn test_token_endpoint_custom_domain() {
    let ep = Cloud::Global.cognitive_token_endpoint_for(
        "eastus",
        Some("https://myservice.cognitiveservices.azure.com"),
    );
    assert_eq!(ep, "https://myservice.cognitiveservices.azure.com/sts/v1.0/issueToken");
}

#[test]
fn test_token_endpoint_regional_fallback() {
    let ep = Cloud::Global.cognitive_token_endpoint_for("eastus", None);
    assert_eq!(ep, "https://eastus.api.cognitive.microsoft.com/sts/v1.0/issueToken");
}

#[test]
fn test_token_endpoint_china_fallback() {
    let ep = Cloud::China.cognitive_token_endpoint_for("chinaeast2", None);
    assert_eq!(ep, "https://chinaeast2.api.cognitive.azure.cn/sts/v1.0/issueToken");
}

#[test]
fn test_token_endpoint_trailing_slash() {
    let ep = Cloud::Global.cognitive_token_endpoint_for(
        "eastus",
        Some("https://myservice.cognitiveservices.azure.com/"),
    );
    assert_eq!(ep, "https://myservice.cognitiveservices.azure.com/sts/v1.0/issueToken");
}

#[test]
fn token_endpoint_drops_every_trailing_slash() {
    let ep = Cloud::Global.cognitive_token_endpoint_for("eastus", Some("https://x.example///"));
    assert_eq!(ep, "https://x.example/sts/v1.0/issueToken");
    let ep = Cloud::Global.cognitive_token_endpoint_for("eastus", Some("/"));
    assert_eq!(ep, "/sts/v1.0/issueToken");
}

#[test]
fn cloud_words_and_names() {
    for w in ["Global", "AZURE", "public"] {
        assert_eq!(Cloud::parse(w).unwrap(), Cloud::Global);
    }
    for w in ["China", "MOONCAKE", "cn"] {
        assert_eq!(Cloud::parse(w).unwrap(), Cloud::China);
    }
    match Cloud::parse("Mars") {
        Err(AppError::Config(m)) => assert_eq!(m, "Unknown cloud: Mars"),
        other => panic!("unexpected: {:?}", other),
    }
    assert_eq!(Cloud::Global.name(), "global");
    assert_eq!(Cloud::China.name(), "china");
    assert_eq!(Cloud::default(), Cloud::Global);
    assert_eq!(Cloud::Global.cognitive_scope(), "https://cognitiveservices.azure.com/.default");
    assert_eq!(Cloud::China.cognitive_scope(), "https://cognitiveservices.azure.cn/.default");
}

#[test]
fn output_format_words_and_names() {
    for (w, f) in [
        ("human", OutputFormat::Human),
        ("TEXT", OutputFormat::Human),
        ("console", OutputFormat::Human),
        ("Json", OutputFormat::Json),
        ("junit", OutputFormat::Junit),
        ("XML", OutputFormat::Junit),
    ] {
        assert_eq!(w.parse::<OutputFormat>().unwrap(), f);
    }
    match OutputFormat::parse("yaml") {
        Err(AppError::Config(m)) => assert_eq!(m, "Unknown output format: yaml"),
        other => panic!("unexpected: {:?}", other),
    }
    assert_eq!(OutputFormat::Junit.name(), "junit");
    assert_eq!(OutputFormat::default(), OutputFormat::Human);
}

#[test]
fn auth_method_words_and_names() {
    for (w, m) in [
        ("key", AuthMethod::Key),
        ("ApiKey", AuthMethod::Key),
        ("api-key", AuthMethod::Key),
        ("token", AuthMethod::Token),
        ("entra", AuthMethod::Token),
        ("AAD", AuthMethod::Token),
        ("bearer", AuthMethod::Token),
        ("both", AuthMethod::Both),
        ("all", AuthMethod::Both),
        ("device-code", AuthMethod::DeviceCode),
        ("device_code", AuthMethod::DeviceCode),
        ("DeviceCode", AuthMethod::DeviceCode),
        ("managed-identity", AuthMethod::ManagedIdentity),
        ("managed_identity", AuthMethod::ManagedIdentity),
        ("managedidentity", AuthMethod::ManagedIdentity),
        ("MI", AuthMethod::ManagedIdentity),
        ("manual-token", AuthMethod::ManualToken),
        ("manual_token", AuthMethod::ManualToken),
        ("manualtoken", AuthMethod::ManualToken),
        ("manual", AuthMethod::ManualToken),
        ("interactive", AuthMethod::Interactive),
    ] {
        assert_eq!(w.parse::<AuthMethod>().unwrap(), m, "{}", w);
    }
    match AuthMethod::parse("password") {
        Err(AppError::Config(m)) => assert_eq!(m, "Unknown auth method: password"),
        other => panic!("unexpected: {:?}", other),
    }
    for m in [
        AuthMethod::Key,
        AuthMethod::Token,
        AuthMethod::Both,
        AuthMethod::DeviceCode,
        AuthMethod::ManagedIdentity,
        AuthMethod::ManualToken,
        AuthMethod::Interactive,
    ] {
        assert_eq!(AuthMethod::parse(m.name()).unwrap(), m);
    }
    assert_eq!(AuthMethod::default(), AuthMethod::Key);
}

#[test]
fn default_config_services() {
    let config = Config::default_config();
    let names: Vec<&str> = config.services.iter().map(|s| s.name.as_str()).collect();
    assert_eq!(
        names,
        vec!["speech", "translator", "language", "vision", "document_intelligence"]
    );
    let speech = config.get_service("speech").unwrap();
    assert!(speech.enabled);
    assert_eq!(speech.region.as_deref(), Some("eastus"));
    assert_eq!(speech.api_key, None);
    assert_eq!(speech.endpoint, None);
    assert_eq!(
        speech.test_scenarios,
        vec!["endpoint_check", "voices_list", "token_exchange", "tts"]
    );
    assert_eq!(config.get_service("translator").unwrap().region.as_deref(), Some("global"));
    assert_eq!(config.get_service("vision").unwrap().test_scenarios, vec!["analyze_image"]);
    assert!(config.get_service("Speech").is_none());
    assert!(config.get_service("storage").is_none());
    assert_eq!(config.auth.default_method, AuthMethod::Key);
    assert_eq!(config.global.output_format, OutputFormat::Human);
    assert_eq!(default_timeout(), 30);
    assert!(default_enabled());
}

#[test]
fn get_service_mut_changes_one_service() {
    let mut config = Config::default_config();
    config.get_service_mut("language").unwrap().api_key = Some("k".to_string());
    assert_eq!(config.get_service("language").unwrap().api_key.as_deref(), Some("k"));
    assert_eq!(config.get_service("speech").unwrap().api_key, None);
    assert!(config.get_service_mut("nothing").is_none());
    assert_eq!(config.services.len(), 5);
}
