//! The command line: what the commands take, and how the words of the
//! command line turn into settings.

use crate::config::{AuthMethod, Cloud, OutputFormat};
use crate::text::{lowercase_of, replace_char, str_eq, str_replace_char, strings_view};
use vstd::prelude::*;
use vstd::string::*;

verus! {

pub const MAIN_EXAMPLES: &'static str =
    "Quick start:\n  azure-aitoolsconnect test --api-key YOUR_KEY --region eastus\n  azure-aitoolsconnect login --tenant YOUR_TENANT_ID\n  azure-aitoolsconnect diagnose --region eastus";

pub const TEST_EXAMPLES: &'static str =
    "EXAMPLES:\n  # Test all services with an API key\n  azure-aitoolsconnect test --api-key YOUR_KEY --region eastus\n\n  # Test speech service with device code (interactive login)\n  azure-aitoolsconnect test -s speech --auth device-code --tenant YOUR_TENANT_ID \\\n    --endpoint https://your-resource.cognitiveservices.azure.com\n\n  # Test with a manually obtained bearer token\n  azure-aitoolsconnect test -s language --auth manual-token \\\n    --bearer-token eyJ... --endpoint https://your-resource.cognitiveservices.azure.com\n\n  # Test and display the bearer token for use in curl/Postman\n  azure-aitoolsconnect test -s speech --auth device-code --tenant YOUR_TENANT_ID --show-token\n\n  # Run specific test scenarios only\n  azure-aitoolsconnect test -s speech --scenarios voices_list,tts --api-key KEY -r eastus\n\n  # Output as JSON for scripting\n  azure-aitoolsconnect test -s translator --api-key KEY -r eastus -o json\n\n  # Output as JUnit XML for CI/CD\n  azure-aitoolsconnect test --api-key KEY -o junit --output-file results.xml --quiet";

pub const LOGIN_EXAMPLES: &'static str =
    "EXAMPLES:\n  # Interactive browser login (default, works with Conditional Access)\n  azure-aitoolsconnect login --tenant YOUR_TENANT_ID\n\n  # Get token and save for subsequent test commands\n  azure-aitoolsconnect login --tenant YOUR_TENANT_ID --save\n\n  # Device code flow (for headless/SSH environments)\n  azure-aitoolsconnect login --auth device-code --tenant YOUR_TENANT_ID\n\n  # Get token as JSON (for scripting)\n  azure-aitoolsconnect login --tenant YOUR_TENANT_ID -o json\n\n  # Use managed identity (on Azure VM/App Service)\n  azure-aitoolsconnect login --auth managed-identity\n\n  # Clear cached tokens\n  azure-aitoolsconnect login --clear-cache";

pub const DIAGNOSE_EXAMPLES: &'static str =
    "EXAMPLES:\n  # Full diagnostics for a region\n  azure-aitoolsconnect diagnose --region eastus\n\n  # DNS resolution check only\n  azure-aitoolsconnect diagnose --dns --region eastus\n\n  # Check a custom endpoint\n  azure-aitoolsconnect diagnose -e your-resource.cognitiveservices.azure.com -r eastus";

/// Authentication method of the command that runs the tests.
#[derive(Debug, Clone, Copy, PartialEq, Eq, Structural)]
pub enum AuthMethodArg {
    Key,
    Token,
    Both,
    DeviceCode,
    ManagedIdentity,
    ManualToken,
    Interactive,
}

impl Default for AuthMethodArg {
    fn default() -> (r: AuthMethodArg)
        ensures
            r == AuthMethodArg::Key,
    {
        AuthMethodArg::Key
    }
}

impl AuthMethodArg {
    /// The method of the settings that the argument stands for.
    pub open spec fn method(self) -> AuthMethod {
        match self {
            AuthMethodArg::Key => AuthMethod::Key,
            AuthMethodArg::Token => AuthMethod::Token,
            AuthMethodArg::Both => AuthMethod::Both,
            AuthMethodArg::DeviceCode => AuthMethod::DeviceCode,
            AuthMethodArg::ManagedIdentity => AuthMethod::ManagedIdentity,
            AuthMethodArg::ManualToken => AuthMethod::ManualToken,
            AuthMethodArg::Interactive => AuthMethod::Interactive,
        }
    }
}

impl From<AuthMethodArg> for AuthMethod {
    fn from(arg: AuthMethodArg) -> (r: AuthMethod) {
        match arg {
            AuthMethodArg::Key => AuthMethod::Key,
            AuthMethodArg::Token => AuthMethod::Token,
            AuthMethodArg::Both => AuthMethod::Both,
            AuthMethodArg::DeviceCode => AuthMethod::DeviceCode,
            AuthMethodArg::ManagedIdentity => AuthMethod::ManagedIdentity,
            AuthMethodArg::ManualToken => AuthMethod::ManualToken,
            AuthMethodArg::Interactive => AuthMethod::Interactive,
        }
    }
}

impl vstd::std_specs::convert::FromSpecImpl<AuthMethodArg> for AuthMethod {
    open spec fn obeys_from_spec() -> bool {
        true
    }

    open spec fn from_spec(arg: AuthMethodArg) -> AuthMethod {
        arg.method()
    }
}

/// Authentication methods available for the login command.
#[derive(Debug, Clone, Copy, PartialEq, Eq, Structural)]
pub enum LoginAuthMethodArg {
    Interactive,
    DeviceCode,
    ManagedIdentity,
}

impl Default for LoginAuthMethodArg {
    fn default() -> (r: LoginAuthMethodArg)
        ensures
            r == LoginAuthMethodArg::Interactive,
    {
        LoginAuthMethodArg::Interactive
    }
}

/// Output format on the command line.
#[derive(Debug, Clone, Copy, PartialEq, Eq, Structural)]
pub enum OutputFormatArg {
    Human,
    Json,
    Junit,
}

impl Default for OutputFormatArg {
    fn default() -> (r: OutputFormatArg)
        ensures
            r == OutputFormatArg::Human,
    {
        OutputFormatArg::Human
    }
}

impl OutputFormatArg {
    /// The format of the settings that the argument stands for.
    pub open spec fn format(self) -> OutputFormat {
        match self {
            OutputFormatArg::Human => OutputFormat::Human,
            OutputFormatArg::Json => OutputFormat::Json,
            OutputFormatArg::Junit => OutputFormat::Junit,
        }
    }
}

impl From<OutputFormatArg> for OutputFormat {
    fn from(arg: OutputFormatArg) -> (r: OutputFormat) {
        match arg {
            OutputFormatArg::Human => OutputFormat::Human,
            OutputFormatArg::Json => OutputFormat::Json,
            OutputFormatArg::Junit => OutputFormat::Junit,
        }
    }
}

impl vstd::std_specs::convert::FromSpecImpl<OutputFormatArg> for OutputFormat {
    open spec fn obeys_from_spec() -> bool {
        true
    }

    open spec fn from_spec(arg: OutputFormatArg) -> OutputFormat {
        arg.format()
    }
}

/// Cloud on the command line.
#[derive(Debug, Clone, Copy, PartialEq, Eq, Structural)]
pub enum CloudArg {
    Global,
    China,
}

impl Default for CloudArg {
    fn default() -> (r: CloudArg)
        ensures
            r == CloudArg::Global,
    {
        CloudArg::Global
    }
}

impl CloudArg {
    /// The cloud of the settings that the argument stands for.
    pub open spec fn cloud(self) -> Cloud {
        match self {
            CloudArg::Global => Cloud::Global,
            CloudArg::China => Cloud::China,
        }
    }
}

impl From<CloudArg> for Cloud {
    fn from(arg: CloudArg) -> (r: Cloud) {
        match arg {
            CloudArg::Global => Cloud::Global,
            CloudArg::China => Cloud::China,
        }
    }
}

impl vstd::std_specs::convert::FromSpecImpl<CloudArg> for Cloud {
    open spec fn obeys_from_spec() -> bool {
        true
    }

    open spec fn from_spec(arg: CloudArg) -> Cloud {
        arg.cloud()
    }
}

/// What the command that runs the tests takes.
#[derive(Debug)]
pub struct TestArgs {
    /// Services to test, or the single word `all`.
    pub services: Vec<String>,
    /// API key for authentication.
    pub api_key: Option<String>,
    /// Azure region.
    pub region: Option<String>,
    /// Authentication method.
    pub auth: AuthMethodArg,
    /// Tenant ID (required for the methods that sign a user in).
    pub tenant: Option<String>,
    /// Bearer token (for the manual method).
    pub bearer_token: Option<String>,
    /// Output format.
    pub output: OutputFormatArg,
    /// Cloud environment.
    pub cloud: CloudArg,
    /// Custom input file for testing (audio, image, or document).
    pub input_file: Option<String>,
    /// Request timeout in seconds.
    pub timeout: u64,
    /// Test scenarios to run.
    pub scenarios: Option<Vec<String>>,
    /// Custom endpoint URL (overrides region-based endpoint).
    pub endpoint: Option<String>,
    /// Write output to file.
    pub output_file: Option<String>,
    /// Display the bearer token after authentication.
    pub show_token: bool,
    /// Skip reading cached tokens from disk.
    pub no_cache: bool,
}

/// What the login command takes.
#[derive(Debug)]
pub struct LoginArgs {
    /// Tenant ID for authentication.
    pub tenant: Option<String>,
    /// Authentication method.
    pub auth: LoginAuthMethodArg,
    /// Cloud environment.
    pub cloud: CloudArg,
    /// Custom public client ID.
    pub client_id: Option<String>,
    /// Output format.
    pub output: OutputFormatArg,
    /// Save token to cache for subsequent test commands.
    pub save: bool,
    /// Clear cached tokens and exit.
    pub clear_cache: bool,
}

/// What the diagnose command takes.
#[derive(Debug)]
pub struct DiagnoseArgs {
    /// Run DNS diagnostics.
    pub dns: bool,
    /// Run TLS diagnostics.
    pub tls: bool,
    /// Run latency diagnostics.
    pub latency: bool,
    /// Target endpoint for diagnostics.
    pub endpoint: Option<String>,
    /// Azure region.
    pub region: Option<String>,
    /// Cloud environment.
    pub cloud: CloudArg,
    /// Output format.
    pub output: OutputFormatArg,
}

/// What the init command takes.
#[derive(Debug)]
pub struct InitArgs {
    /// Output path for the settings file.
    pub output: String,
    /// Overwrite existing file.
    pub force: bool,
    /// Interactive setup wizard.
    pub interactive: bool,
}

/// What the validate command takes.
#[derive(Debug)]
pub struct ValidateArgs {
    /// Path to the settings file to validate.
    pub config: String,
}

/// What the command that lists the scenarios takes.
#[derive(Debug)]
pub struct ListScenariosArgs {
    /// Service to list scenarios for.
    pub service: Option<String>,
}

/// The commands.
#[derive(Debug)]
pub enum Commands {
    /// Run connectivity tests against Azure AI Services.
    Test(TestArgs),
    /// Authenticate and obtain a bearer token.
    Login(LoginArgs),
    /// Run network diagnostics.
    Diagnose(DiagnoseArgs),
    /// Initialize a new settings file.
    Init(InitArgs),
    /// Validate a settings file.
    Validate(ValidateArgs),
    /// List available test scenarios for a service.
    ListScenarios(ListScenariosArgs),
}

/// The command line as a whole.
#[derive(Debug)]
pub struct Cli {
    /// Path to the settings file.
    pub config: Option<String>,
    /// Enable verbose output.
    pub verbose: bool,
    /// Suppress progress indicators.
    pub quiet: bool,
    pub command: Commands,
}

/// The five services, in the order in which they are tested.
pub open spec fn all_services() -> Seq<Seq<char>> {
    seq!["speech"@, "translator"@, "language"@, "vision"@, "document_intelligence"@]
}

/// The services that words in lower case ask for: all five for the single
/// word `all`, else every word with `_` for `-`.
pub open spec fn services_named(lowered: Seq<Seq<char>>) -> Seq<Seq<char>> {
    if lowered.len() == 1 && lowered[0] == "all"@ {
        all_services()
    } else {
        lowered.map_values(|w: Seq<char>| replace_char(w, '-', '_'))
    }
}

/// The services that the words of the command line ask for: all five for
/// the single word `all` in any letter case, else every word in lower case
/// with `_` for `-`.
pub open spec fn parsed_services(words: Seq<Seq<char>>) -> Seq<Seq<char>> {
    services_named(words.map_values(|w: Seq<char>| lowercase_of(w)))
}

/// The words in lower case.
pub fn lowercase_words(words: &[String]) -> (r: Vec<String>)
    ensures
        strings_view(r@) == strings_view(words@).map_values(|w: Seq<char>| lowercase_of(w)),
{
    let mut r: Vec<String> = Vec::new();
    let mut i: usize = 0;
    while i < words.len()
        invariant
            i <= words.len(),
            r.len() == i,
            forall|k: int| 0 <= k < i ==> (#[trigger] r@[k])@ == lowercase_of(words@[k]@),
        decreases words.len() - i,
    {
        r.push(words[i].as_str().to_lowercase());
        i += 1;
    }
    assert(strings_view(r@) =~= strings_view(words@).map_values(
        |w: Seq<char>| lowercase_of(w),
    ));
    r
}

/// The words with `_` for every `-`.
pub fn with_underscores(words: &[String]) -> (r: Vec<String>)
    ensures
        strings_view(r@) == strings_view(words@).map_values(
            |w: Seq<char>| replace_char(w, '-', '_'),
        ),
{
    let mut r: Vec<String> = Vec::new();
    let mut i: usize = 0;
    while i < words.len()
        invariant
            i <= words.len(),
            r.len() == i,
            forall|k: int|
                0 <= k < i ==> (#[trigger] r@[k])@ == replace_char(words@[k]@, '-', '_'),
        decreases words.len() - i,
    {
        r.push(str_replace_char(words[i].as_str(), '-', '_'));
        i += 1;
    }
    assert(strings_view(r@) =~= strings_view(words@).map_values(
        |w: Seq<char>| replace_char(w, '-', '_'),
    ));
    r
}

/// The services that words in lower case ask for: all five for the single
/// word `all`, else every word with `_` for `-`.
pub fn services_of_lowercase(lowered: &[String]) -> (r: Vec<String>)
    ensures
        strings_view(r@) == services_named(strings_view(lowered@)),
{
    if lowered.len() == 1 && str_eq(lowered[0].as_str(), "all") {
        let mut r: Vec<String> = Vec::new();
        r.push("speech".to_owned());
        r.push("translator".to_owned());
        r.push("language".to_owned());
        r.push("vision".to_owned());
        r.push("document_intelligence".to_owned());
        assert(strings_view(r@) =~= all_services());
        assert(strings_view(lowered@)[0] == lowered@[0]@);
        r
    } else {
        assert(lowered.len() == 1 ==> strings_view(lowered@)[0] == lowered@[0]@);
        with_underscores(lowered)
    }
}

/// Parse services argument, handling "all" specially.
pub fn parse_services(services: &[String]) -> (r: Vec<String>)
    ensures
        strings_view(r@) == parsed_services(strings_view(services@)),
{
    let lowered = lowercase_words(services);
    services_of_lowercase(lowered.as_slice())
}

} // verus!
