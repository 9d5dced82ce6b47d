use azure_aitoolsconnect::cli::{
    parse_services, AuthMethodArg, CloudArg, LoginAuthMethodArg, OutputFormatArg,
};
use azure_aitoolsconnect::config::{AuthMethod, Cloud, OutputFormat};

#[test]
fn test_parse_services_all() {
    let result = parse_services(&["all".to_string()]);
    assert_eq!(result.len(), 5);
    assert!(result.contains(&"speech".to_string()));
}

#[test]
fn test_parse_services_specific() {
    let result = parse_services(&["speech".to_string(), "translator".to_string()]);
    assert_eq!(result.len(), 2);
}

#[test]
fn test_parse_services_normalize() {
    let result = parse_services(&["document-intelligence".to_string()]);
    assert_eq!(result[0], "document_intelligence");
}

#[test]
fn parse_services_edges() {
    assert_eq!(
        parse_services(&["ALL".to_string()]),
        vec!["speech", "translator", "language", "vision", "document_intelligence"]
    );
    // "all" among other names is a name like any other.
    assert_eq!(parse_services(&["all".to_string(), "Speech".to_string()]), vec!["all", "speech"]);
    assert_eq!(parse_services(&[]), Vec::<String>::new());
    assert_eq!(parse_services(&["A-B-c_d".to_string()]), vec!["a_b_c_d"]);
}

#[test]
fn arguments_map_to_settings() {
    assert_eq!(AuthMethod::from(AuthMethodArg::Key), AuthMethod::Key);
    assert_eq!(AuthMethod::from(AuthMethodArg::Token), AuthMethod::Token);
    assert_eq!(AuthMethod::from(AuthMethodArg::Both), AuthMethod::Both);
    assert_eq!(AuthMethod::from(AuthMethodArg::DeviceCode), AuthMethod::DeviceCode);
    assert_eq!(AuthMethod::from(AuthMethodArg::ManagedIdentity), AuthMethod::ManagedIdentity);
    assert_eq!(AuthMethod::from(AuthMethodArg::ManualToken), AuthMethod::ManualToken);
    assert_eq!(AuthMethod::from(AuthMethodArg::Interactive), AuthMethod::Interactive);
    assert_eq!(OutputFormat::from(OutputFormatArg::Human), OutputFormat::Human);
    assert_eq!(OutputFormat::from(OutputFormatArg::Json), OutputFormat::Json);
    assert_eq!(OutputFormat::from(OutputFormatArg::Junit), OutputFormat::Junit);
    assert_eq!(Cloud::from(CloudArg::Global), Cloud::Global);
    assert_eq!(Cloud::from(CloudArg::China), Cloud::China);
    assert_eq!(AuthMethodArg::default(), AuthMethodArg::Key);
    assert_eq!(LoginAuthMethodArg::default(), LoginAuthMethodArg::Interactive);
    assert_eq!(OutputFormatArg::default(), OutputFormatArg::Human);
    assert_eq!(CloudArg::default(), CloudArg::Global);
}
