//! Settings of the tool: the cloud, the output format, the authentication
//! method and the per-service entries, with their defaults and the checks
//! made on them.

use crate::error::{AppError, AppErrorView};
use crate::text::{
    clone_opt, clone_strings, lowercase_of, opt_view, replace_char, str_eq, str_replace_char,
    str_trim_end, strings_view, trim_end, uppercase_of,
};
use vstd::prelude::*;
use vstd::string::*;

verus! {

/// Default request timeout in seconds.
pub const DEFAULT_TIMEOUT_SECS: u64 = 30;

/// Largest input file, in bytes, that is read (10MB).
pub const MAX_INPUT_FILE_SIZE: u64 = 10 * 1024 * 1024;

pub const TOKEN_PATH: &'static str = "/sts/v1.0/issueToken";

/// Cloud environment.
#[derive(Debug, Clone, Copy, PartialEq, Eq, Structural)]
pub enum Cloud {
    Global,
    China,
}

impl Default for Cloud {
    fn default() -> (r: Cloud)
        ensures
            r == Cloud::Global,
    {
        Cloud::Global
    }
}

impl Cloud {
    /// The login endpoint of the identity provider in this cloud.
    pub open spec fn login_endpoint_text(self) -> Seq<char> {
        match self {
            Cloud::Global => "https://login.microsoftonline.com"@,
            Cloud::China => "https://login.partner.microsoftonline.cn"@,
        }
    }

    /// The host suffix of the regional cognitive endpoint in this cloud.
    pub open spec fn cognitive_host_suffix(self) -> Seq<char> {
        match self {
            Cloud::Global => ".api.cognitive.microsoft.com"@,
            Cloud::China => ".api.cognitive.azure.cn"@,
        }
    }

    /// The regional token endpoint of this cloud.
    pub open spec fn token_endpoint_text(self, region: Seq<char>) -> Seq<char> {
        "https://"@ + region + self.cognitive_host_suffix() + TOKEN_PATH@
    }

    /// The token endpoint: under the custom endpoint where one is given,
    /// else the regional one.
    pub open spec fn token_endpoint_for_text(
        self,
        region: Seq<char>,
        custom_endpoint: Option<Seq<char>>,
    ) -> Seq<char> {
        match custom_endpoint {
            Some(endpoint) => trim_end(endpoint, '/') + TOKEN_PATH@,
            None => self.token_endpoint_text(region),
        }
    }

    /// The default scope for tokens of the cognitive services in this cloud.
    pub open spec fn scope_text(self) -> Seq<char> {
        match self {
            Cloud::Global => "https://cognitiveservices.azure.com/.default"@,
            Cloud::China => "https://cognitiveservices.azure.cn/.default"@,
        }
    }

    /// The name of this cloud in settings and on the command line.
    pub open spec fn name_text(self) -> Seq<char> {
        match self {
            Cloud::Global => "global"@,
            Cloud::China => "china"@,
        }
    }

    /// The cloud that a word in lower case names.
    pub open spec fn named(l: Seq<char>) -> Option<Cloud> {
        if l == "global"@ || l == "azure"@ || l == "public"@ {
            Some(Cloud::Global)
        } else if l == "china"@ || l == "mooncake"@ || l == "cn"@ {
            Some(Cloud::China)
        } else {
            None
        }
    }

    /// The cloud that a word names, whatever its letter case.
    pub open spec fn parsed(s: Seq<char>) -> Option<Cloud> {
        Cloud::named(lowercase_of(s))
    }

    /// Get the Entra ID login endpoint for this cloud.
    pub fn login_endpoint(&self) -> (r: &'static str)
        ensures
            r@ == self.login_endpoint_text(),
    {
        match self {
            Cloud::Global => "https://login.microsoftonline.com",
            Cloud::China => "https://login.partner.microsoftonline.cn",
        }
    }

    /// Get the cognitive services token endpoint for this cloud.
    pub fn cognitive_token_endpoint(&self, region: &str) -> (r: String)
        ensures
            r@ == self.token_endpoint_text(region@),
    {
        let mut r = "https://".to_owned();
        r.append(region);
        match self {
            Cloud::Global => r.append(".api.cognitive.microsoft.com"),
            Cloud::China => r.append(".api.cognitive.azure.cn"),
        }
        r.append(TOKEN_PATH);
        r
    }

    /// Get the cognitive services token endpoint, using a custom endpoint if
    /// provided. Slashes at the end of the custom endpoint are dropped.
    pub fn cognitive_token_endpoint_for(&self, region: &str, custom_endpoint: Option<&str>) -> (r:
        String)
        ensures
            r@ == self.token_endpoint_for_text(
                region@,
                match custom_endpoint {
                    Some(e) => Some(e@),
                    None => None,
                },
            ),
    {
        match custom_endpoint {
            Some(endpoint) => {
                let mut r = str_trim_end(endpoint, '/');
                r.append(TOKEN_PATH);
                r
            },
            None => self.cognitive_token_endpoint(region),
        }
    }

    /// Get the default cognitive services scope for Entra ID auth.
    pub fn cognitive_scope(&self) -> (r: &'static str)
        ensures
            r@ == self.scope_text(),
    {
        match self {
            Cloud::Global => "https://cognitiveservices.azure.com/.default",
            Cloud::China => "https://cognitiveservices.azure.cn/.default",
        }
    }

    /// The name of this cloud in settings and on the command line.
    pub fn name(&self) -> (r: &'static str)
        ensures
            r@ == self.name_text(),
    {
        match self {
            Cloud::Global => "global",
            Cloud::China => "china",
        }
    }

    /// Reads a cloud from a word, whatever its letter case: `global`,
    /// `azure` and `public` name the global cloud, `china`, `mooncake` and
    /// `cn` the Chinese one. Any other word is a configuration error that
    /// quotes it.
    pub fn parse(s: &str) -> (r: Result<Cloud, AppError>)
        ensures
            match r {
                Ok(c) => Cloud::parsed(s@) == Some(c),
                Err(e) => Cloud::parsed(s@) is None && e@ == AppErrorView::Config(
                    "Unknown cloud: "@ + s@,
                ),
            },
    {
        let l = s.to_lowercase();
        match Cloud::from_lowercase(l.as_str()) {
            Some(c) => Ok(c),
            None => {
                let mut m = "Unknown cloud: ".to_owned();
                m.append(s);
                Err(AppError::Config(m))
            },
        }
    }

    /// The cloud that a word in lower case names: `global`, `azure` and
    /// `public` name the global cloud, `china`, `mooncake` and `cn` the
    /// Chinese one, any other word none.
    pub fn from_lowercase(word: &str) -> (r: Option<Cloud>)
        ensures
            r == Cloud::named(word@),
    {
        if str_eq(word, "global") || str_eq(word, "azure") || str_eq(word, "public") {
            Some(Cloud::Global)
        } else if str_eq(word, "china") || str_eq(word, "mooncake") || str_eq(word, "cn") {
            Some(Cloud::China)
        } else {
            None
        }
    }
}

impl std::str::FromStr for Cloud {
    type Err = AppError;

    fn from_str(s: &str) -> (r: Result<Cloud, AppError>) {
        Cloud::parse(s)
    }
}

/// Output format for test results.
#[derive(Debug, Clone, Copy, PartialEq, Eq, Structural)]
pub enum OutputFormat {
    Human,
    Json,
    Junit,
}

impl Default for OutputFormat {
    fn default() -> (r: OutputFormat)
        ensures
            r == OutputFormat::Human,
    {
        OutputFormat::Human
    }
}

impl OutputFormat {
    /// The name of this format in settings and on the command line.
    pub open spec fn name_text(self) -> Seq<char> {
        match self {
            OutputFormat::Human => "human"@,
            OutputFormat::Json => "json"@,
            OutputFormat::Junit => "junit"@,
        }
    }

    /// The format that a word names, whatever its letter case.
    pub open spec fn parsed(s: Seq<char>) -> Option<OutputFormat> {
        OutputFormat::named(lowercase_of(s))
    }

    /// The format that a word in lower case names.
    pub open spec fn named(l: Seq<char>) -> Option<OutputFormat> {
        if l == "human"@ || l == "text"@ || l == "console"@ {
            Some(OutputFormat::Human)
        } else if l == "json"@ {
            Some(OutputFormat::Json)
        } else if l == "junit"@ || l == "xml"@ {
            Some(OutputFormat::Junit)
        } else {
            None
        }
    }

    /// The name of this format in settings and on the command line.
    pub fn name(&self) -> (r: &'static str)
        ensures
            r@ == self.name_text(),
    {
        match self {
            OutputFormat::Human => "human",
            OutputFormat::Json => "json",
            OutputFormat::Junit => "junit",
        }
    }

    /// Reads a format from a word, whatever its letter case. A word that
    /// names none is a configuration error that quotes it.
    pub fn parse(s: &str) -> (r: Result<OutputFormat, AppError>)
        ensures
            match r {
                Ok(f) => OutputFormat::parsed(s@) == Some(f),
                Err(e) => OutputFormat::parsed(s@) is None && e@ == AppErrorView::Config(
                    "Unknown output format: "@ + s@,
                ),
            },
    {
        let l = s.to_lowercase();
        match OutputFormat::from_lowercase(l.as_str()) {
            Some(f) => Ok(f),
            None => {
                let mut m = "Unknown output format: ".to_owned();
                m.append(s);
                Err(AppError::Config(m))
            },
        }
    }

    /// The format that a word in lower case names: `human`, `text` and
    /// `console` name the one for people, `json` JSON, `junit` and `xml`
    /// JUnit XML, any other word none.
    pub fn from_lowercase(word: &str) -> (r: Option<OutputFormat>)
        ensures
            r == OutputFormat::named(word@),
    {
        if str_eq(word, "human") || str_eq(word, "text") || str_eq(word, "console") {
            Some(OutputFormat::Human)
        } else if str_eq(word, "json") {
            Some(OutputFormat::Json)
        } else if str_eq(word, "junit") || str_eq(word, "xml") {
            Some(OutputFormat::Junit)
        } else {
            None
        }
    }
}

impl std::str::FromStr for OutputFormat {
    type Err = AppError;

    fn from_str(s: &str) -> (r: Result<OutputFormat, AppError>) {
        OutputFormat::parse(s)
    }
}

/// Authentication method.
#[derive(Debug, Clone, Copy, PartialEq, Eq, Structural)]
pub enum AuthMethod {
    Key,
    Token,
    Both,
    DeviceCode,
    ManagedIdentity,
    ManualToken,
    Interactive,
}

impl Default for AuthMethod {
    fn default() -> (r: AuthMethod)
        ensures
            r == AuthMethod::Key,
    {
        AuthMethod::Key
    }
}

impl AuthMethod {
    /// The name of this method on the command line.
    pub open spec fn name_text(self) -> Seq<char> {
        match self {
            AuthMethod::Key => "key"@,
            AuthMethod::Token => "token"@,
            AuthMethod::Both => "both"@,
            AuthMethod::DeviceCode => "device-code"@,
            AuthMethod::ManagedIdentity => "managed-identity"@,
            AuthMethod::ManualToken => "manual-token"@,
            AuthMethod::Interactive => "interactive"@,
        }
    }

    /// The method that a word names, whatever its letter case.
    pub open spec fn parsed(s: Seq<char>) -> Option<AuthMethod> {
        AuthMethod::named(lowercase_of(s))
    }

    /// The method that a word in lower case names.
    pub open spec fn named(l: Seq<char>) -> Option<AuthMethod> {
        if l == "key"@ || l == "apikey"@ || l == "api-key"@ {
            Some(AuthMethod::Key)
        } else if l == "token"@ || l == "entra"@ || l == "aad"@ || l == "bearer"@ {
            Some(AuthMethod::Token)
        } else if l == "both"@ || l == "all"@ {
            Some(AuthMethod::Both)
        } else if l == "device-code"@ || l == "device_code"@ || l == "devicecode"@ {
            Some(AuthMethod::DeviceCode)
        } else if l == "managed-identity"@ || l == "managed_identity"@ || l == "managedidentity"@
            || l == "mi"@ {
            Some(AuthMethod::ManagedIdentity)
        } else if l == "manual-token"@ || l == "manual_token"@ || l == "manualtoken"@ || l
            == "manual"@ {
            Some(AuthMethod::ManualToken)
        } else if l == "interactive"@ {
            Some(AuthMethod::Interactive)
        } else {
            None
        }
    }

    /// Whether the method sends an API key.
    pub open spec fn uses_key(self) -> bool {
        self == AuthMethod::Key || self == AuthMethod::Both
    }

    /// Whether the method asks for a client-credentials token.
    pub open spec fn uses_client_credentials(self) -> bool {
        self == AuthMethod::Token || self == AuthMethod::Both
    }

    /// Whether the method ends in a bearer token of a user or of a managed
    /// identity.
    pub open spec fn uses_bearer(self) -> bool {
        self == AuthMethod::DeviceCode || self == AuthMethod::ManualToken || self
            == AuthMethod::ManagedIdentity
    }

    /// The name of this method on the command line.
    pub fn name(&self) -> (r: &'static str)
        ensures
            r@ == self.name_text(),
    {
        match self {
            AuthMethod::Key => "key",
            AuthMethod::Token => "token",
            AuthMethod::Both => "both",
            AuthMethod::DeviceCode => "device-code",
            AuthMethod::ManagedIdentity => "managed-identity",
            AuthMethod::ManualToken => "manual-token",
            AuthMethod::Interactive => "interactive",
        }
    }

    /// Reads a method from a word, whatever its letter case. A word that
    /// names none is a configuration error that quotes it.
    pub fn parse(s: &str) -> (r: Result<AuthMethod, AppError>)
        ensures
            match r {
                Ok(m) => AuthMethod::parsed(s@) == Some(m),
                Err(e) => AuthMethod::parsed(s@) is None && e@ == AppErrorView::Config(
                    "Unknown auth method: "@ + s@,
                ),
            },
    {
        let low = s.to_lowercase();
        match AuthMethod::from_lowercase(low.as_str()) {
            Some(method) => Ok(method),
            None => {
                let mut m = "Unknown auth method: ".to_owned();
                m.append(s);
                Err(AppError::Config(m))
            },
        }
    }

    /// The method that a word in lower case names; each method has its
    /// name on the command line and a few other spellings.
    pub fn from_lowercase(l: &str) -> (r: Option<AuthMethod>)
        ensures
            r == AuthMethod::named(l@),
    {
        if str_eq(l, "key") || str_eq(l, "apikey") || str_eq(l, "api-key") {
            Some(AuthMethod::Key)
        } else if str_eq(l, "token") || str_eq(l, "entra") || str_eq(l, "aad") || str_eq(
            l,
            "bearer",
        ) {
            Some(AuthMethod::Token)
        } else if str_eq(l, "both") || str_eq(l, "all") {
            Some(AuthMethod::Both)
        } else if str_eq(l, "device-code") || str_eq(l, "device_code") || str_eq(l, "devicecode") {
            Some(AuthMethod::DeviceCode)
        } else if str_eq(l, "managed-identity") || str_eq(l, "managed_identity") || str_eq(
            l,
            "managedidentity",
        ) || str_eq(l, "mi") {
            Some(AuthMethod::ManagedIdentity)
        } else if str_eq(l, "manual-token") || str_eq(l, "manual_token") || str_eq(
            l,
            "manualtoken",
        ) || str_eq(l, "manual") {
            Some(AuthMethod::ManualToken)
        } else if str_eq(l, "interactive") {
            Some(AuthMethod::Interactive)
        } else {
            None
        }
    }
}

impl std::str::FromStr for AuthMethod {
    type Err = AppError;

    fn from_str(s: &str) -> (r: Result<AuthMethod, AppError>) {
        AuthMethod::parse(s)
    }
}

/// Global configuration settings.
#[derive(Debug, Clone, Copy)]
pub struct GlobalConfig {
    pub cloud: Cloud,
    pub timeout_seconds: u64,
    pub output_format: OutputFormat,
}

impl Default for GlobalConfig {
    fn default() -> (r: GlobalConfig)
        ensures
            r.cloud == Cloud::Global,
            r.timeout_seconds == 0,
            r.output_format == OutputFormat::Human,
    {
        GlobalConfig { cloud: Cloud::Global, timeout_seconds: 0, output_format: OutputFormat::Human }
    }
}

/// The timeout used where a settings file names none.
pub fn default_timeout() -> (r: u64)
    ensures
        r == DEFAULT_TIMEOUT_SECS,
{
    DEFAULT_TIMEOUT_SECS
}

/// Whether a service is tested where a settings file does not say.
pub fn default_enabled() -> (r: bool)
    ensures
        r,
{
    true
}

/// Entra ID (Azure AD) client-credentials settings.
#[derive(Debug)]
pub struct EntraConfig {
    pub tenant_id: Option<String>,
    pub client_id: Option<String>,
    pub client_secret: Option<String>,
}

pub ghost struct EntraConfigView {
    pub tenant_id: Option<Seq<char>>,
    pub client_id: Option<Seq<char>>,
    pub client_secret: Option<Seq<char>>,
}

impl View for EntraConfig {
    type V = EntraConfigView;

    open spec fn view(&self) -> EntraConfigView {
        EntraConfigView {
            tenant_id: opt_view(self.tenant_id),
            client_id: opt_view(self.client_id),
            client_secret: opt_view(self.client_secret),
        }
    }
}

impl EntraConfigView {
    /// Whether tenant, client and secret are all given.
    pub open spec fn complete(self) -> bool {
        self.tenant_id is Some && self.client_id is Some && self.client_secret is Some
    }

    pub open spec fn empty() -> EntraConfigView {
        EntraConfigView { tenant_id: None, client_id: None, client_secret: None }
    }
}

impl Default for EntraConfig {
    fn default() -> (r: EntraConfig)
        ensures
            r@ == EntraConfigView::empty(),
    {
        EntraConfig { tenant_id: None, client_id: None, client_secret: None }
    }
}

impl Clone for EntraConfig {
    fn clone(&self) -> (r: EntraConfig)
        ensures
            r@ == self@,
    {
        EntraConfig {
            tenant_id: clone_opt(&self.tenant_id),
            client_id: clone_opt(&self.client_id),
            client_secret: clone_opt(&self.client_secret),
        }
    }
}

/// User authentication settings (device code, interactive, managed identity,
/// manual token).
#[derive(Debug)]
pub struct UserAuthConfig {
    /// Tenant ID for the flows that sign a user in.
    pub tenant_id: Option<String>,
    /// Custom public client ID (a well-known one is used where none is set).
    pub client_id: Option<String>,
    /// Client ID for user-assigned managed identity.
    pub managed_identity_client_id: Option<String>,
    /// Bearer token for manual token authentication.
    pub bearer_token: Option<String>,
}

pub ghost struct UserAuthConfigView {
    pub tenant_id: Option<Seq<char>>,
    pub client_id: Option<Seq<char>>,
    pub managed_identity_client_id: Option<Seq<char>>,
    pub bearer_token: Option<Seq<char>>,
}

impl View for UserAuthConfig {
    type V = UserAuthConfigView;

    open spec fn view(&self) -> UserAuthConfigView {
        UserAuthConfigView {
            tenant_id: opt_view(self.tenant_id),
            client_id: opt_view(self.client_id),
            managed_identity_client_id: opt_view(self.managed_identity_client_id),
            bearer_token: opt_view(self.bearer_token),
        }
    }
}

impl UserAuthConfigView {
    pub open spec fn empty() -> UserAuthConfigView {
        UserAuthConfigView {
            tenant_id: None,
            client_id: None,
            managed_identity_client_id: None,
            bearer_token: None,
        }
    }
}

impl Default for UserAuthConfig {
    fn default() -> (r: UserAuthConfig)
        ensures
            r@ == UserAuthConfigView::empty(),
    {
        UserAuthConfig {
            tenant_id: None,
            client_id: None,
            managed_identity_client_id: None,
            bearer_token: None,
        }
    }
}

impl Clone for UserAuthConfig {
    fn clone(&self) -> (r: UserAuthConfig)
        ensures
            r@ == self@,
    {
        UserAuthConfig {
            tenant_id: clone_opt(&self.tenant_id),
            client_id: clone_opt(&self.client_id),
            managed_identity_client_id: clone_opt(&self.managed_identity_client_id),
            bearer_token: clone_opt(&self.bearer_token),
        }
    }
}

/// Authentication settings.
#[derive(Debug)]
pub struct AuthConfig {
    pub default_method: AuthMethod,
    pub entra: EntraConfig,
    pub user: UserAuthConfig,
}

pub ghost struct AuthConfigView {
    pub default_method: AuthMethod,
    pub entra: EntraConfigView,
    pub user: UserAuthConfigView,
}

impl View for AuthConfig {
    type V = AuthConfigView;

    open spec fn view(&self) -> AuthConfigView {
        AuthConfigView { default_method: self.default_method, entra: self.entra@, user: self.user@ }
    }
}

impl Default for AuthConfig {
    fn default() -> (r: AuthConfig)
        ensures
            r@ == (AuthConfigView {
                default_method: AuthMethod::Key,
                entra: EntraConfigView::empty(),
                user: UserAuthConfigView::empty(),
            }),
    {
        AuthConfig {
            default_method: AuthMethod::Key,
            entra: EntraConfig::default(),
            user: UserAuthConfig::default(),
        }
    }
}

impl Clone for AuthConfig {
    fn clone(&self) -> (r: AuthConfig)
        ensures
            r@ == self@,
    {
        AuthConfig {
            default_method: self.default_method,
            entra: self.entra.clone(),
            user: self.user.clone(),
        }
    }
}

/// Service-specific settings.
#[derive(Debug)]
pub struct ServiceConfig {
    pub enabled: bool,
    pub region: Option<String>,
    pub endpoint: Option<String>,
    pub api_key: Option<String>,
    pub test_scenarios: Vec<String>,
}

pub ghost struct ServiceConfigView {
    pub enabled: bool,
    pub region: Option<Seq<char>>,
    pub endpoint: Option<Seq<char>>,
    pub api_key: Option<Seq<char>>,
    pub test_scenarios: Seq<Seq<char>>,
}

impl View for ServiceConfig {
    type V = ServiceConfigView;

    open spec fn view(&self) -> ServiceConfigView {
        ServiceConfigView {
            enabled: self.enabled,
            region: opt_view(self.region),
            endpoint: opt_view(self.endpoint),
            api_key: opt_view(self.api_key),
            test_scenarios: strings_view(self.test_scenarios@),
        }
    }
}

impl Default for ServiceConfig {
    fn default() -> (r: ServiceConfig)
        ensures
            r@ == (ServiceConfigView {
                enabled: false,
                region: None,
                endpoint: None,
                api_key: None,
                test_scenarios: Seq::empty(),
            }),
    {
        let r = ServiceConfig {
            enabled: false,
            region: None,
            endpoint: None,
            api_key: None,
            test_scenarios: Vec::new(),
        };
        assert(strings_view(r.test_scenarios@) =~= Seq::empty());
        r
    }
}

impl Clone for ServiceConfig {
    fn clone(&self) -> (r: ServiceConfig)
        ensures
            r@ == self@,
    {
        ServiceConfig {
            enabled: self.enabled,
            region: clone_opt(&self.region),
            endpoint: clone_opt(&self.endpoint),
            api_key: clone_opt(&self.api_key),
            test_scenarios: clone_strings(&self.test_scenarios),
        }
    }
}

/// Custom input files.
#[derive(Debug)]
pub struct CustomInputs {
    pub audio_file: Option<String>,
    pub document_file: Option<String>,
    pub image_file: Option<String>,
    pub text: Option<String>,
}

pub ghost struct CustomInputsView {
    pub audio_file: Option<Seq<char>>,
    pub document_file: Option<Seq<char>>,
    pub image_file: Option<Seq<char>>,
    pub text: Option<Seq<char>>,
}

impl View for CustomInputs {
    type V = CustomInputsView;

    open spec fn view(&self) -> CustomInputsView {
        CustomInputsView {
            audio_file: opt_view(self.audio_file),
            document_file: opt_view(self.document_file),
            image_file: opt_view(self.image_file),
            text: opt_view(self.text),
        }
    }
}

impl CustomInputsView {
    pub open spec fn empty() -> CustomInputsView {
        CustomInputsView { audio_file: None, document_file: None, image_file: None, text: None }
    }
}

impl Default for CustomInputs {
    fn default() -> (r: CustomInputs)
        ensures
            r@ == CustomInputsView::empty(),
    {
        CustomInputs { audio_file: None, document_file: None, image_file: None, text: None }
    }
}

impl Clone for CustomInputs {
    fn clone(&self) -> (r: CustomInputs)
        ensures
            r@ == self@,
    {
        CustomInputs {
            audio_file: clone_opt(&self.audio_file),
            document_file: clone_opt(&self.document_file),
            image_file: clone_opt(&self.image_file),
            text: clone_opt(&self.text),
        }
    }
}

/// One service of the settings, under its name.
#[derive(Debug)]
pub struct ServiceEntry {
    pub name: String,
    pub config: ServiceConfig,
}

pub ghost struct ServiceEntryView {
    pub name: Seq<char>,
    pub config: ServiceConfigView,
}

impl View for ServiceEntry {
    type V = ServiceEntryView;

    open spec fn view(&self) -> ServiceEntryView {
        ServiceEntryView { name: self.name@, config: self.config@ }
    }
}

impl Clone for ServiceEntry {
    fn clone(&self) -> (r: ServiceEntry)
        ensures
            r@ == self@,
    {
        ServiceEntry { name: self.name.clone(), config: self.config.clone() }
    }
}

/// The views of a list of service entries, in order.
pub open spec fn entries_view(v: Seq<ServiceEntry>) -> Seq<ServiceEntryView> {
    v.map_values(|e: ServiceEntry| e@)
}

/// The place of the first entry named `name`, or the length of the list
/// where none has that name.
pub open spec fn entry_index(entries: Seq<ServiceEntryView>, name: Seq<char>) -> int
    decreases entries.len(),
{
    if entries.len() == 0 {
        0
    } else if entries.first().name == name {
        0
    } else {
        1 + entry_index(entries.drop_first(), name)
    }
}

/// No two entries share a name.
pub open spec fn names_unique(entries: Seq<ServiceEntryView>) -> bool {
    forall|i: int, j: int|
        0 <= i < j < entries.len() ==> (#[trigger] entries[i]).name != (#[trigger] entries[j]).name
}

/// Complete application settings. The services are kept in the order in
/// which they were added, each name once.
#[derive(Debug)]
pub struct Config {
    pub global: GlobalConfig,
    pub auth: AuthConfig,
    pub services: Vec<ServiceEntry>,
    pub custom_inputs: CustomInputs,
}

pub ghost struct ConfigView {
    pub global: GlobalConfig,
    pub auth: AuthConfigView,
    pub services: Seq<ServiceEntryView>,
    pub custom_inputs: CustomInputsView,
}

impl View for Config {
    type V = ConfigView;

    open spec fn view(&self) -> ConfigView {
        ConfigView {
            global: self.global,
            auth: self.auth@,
            services: entries_view(self.services@),
            custom_inputs: self.custom_inputs@,
        }
    }
}

impl ConfigView {
    /// The settings of the service named `name`, if there is one.
    pub open spec fn service(self, name: Seq<char>) -> Option<ServiceConfigView> {
        let i = entry_index(self.services, name);
        if i < self.services.len() {
            Some(self.services[i].config)
        } else {
            None
        }
    }

    /// The settings that `Config::default_config` builds.
    pub open spec fn standard() -> ConfigView {
        ConfigView {
            global: GlobalConfig {
                cloud: Cloud::Global,
                timeout_seconds: DEFAULT_TIMEOUT_SECS,
                output_format: OutputFormat::Human,
            },
            auth: AuthConfigView {
                default_method: AuthMethod::Key,
                entra: EntraConfigView::empty(),
                user: UserAuthConfigView::empty(),
            },
            services: seq![
                standard_service(
                    "speech"@,
                    "eastus"@,
                    seq!["endpoint_check"@, "voices_list"@, "token_exchange"@, "tts"@],
                ),
                standard_service("translator"@, "global"@, seq!["languages"@, "detect"@]),
                standard_service(
                    "language"@,
                    "eastus"@,
                    seq!["sentiment"@, "language_detection"@],
                ),
                standard_service("vision"@, "eastus"@, seq!["analyze_image"@]),
                standard_service("document_intelligence"@, "eastus"@, seq!["layout"@]),
            ],
            custom_inputs: CustomInputsView::empty(),
        }
    }
}

/// An enabled service in a region, without key or endpoint, that runs the
/// given scenarios.
pub open spec fn standard_service(
    name: Seq<char>,
    region: Seq<char>,
    scenarios: Seq<Seq<char>>,
) -> ServiceEntryView {
    ServiceEntryView {
        name,
        config: ServiceConfigView {
            enabled: true,
            region: Some(region),
            endpoint: None,
            api_key: None,
            test_scenarios: scenarios,
        },
    }
}

proof fn lemma_entry_index(entries: Seq<ServiceEntryView>, name: Seq<char>, i: int)
    requires
        0 <= i <= entries.len(),
        forall|k: int| 0 <= k < i ==> entries[k].name != name,
        i < entries.len() ==> entries[i].name == name,
    ensures
        entry_index(entries, name) == i,
    decreases entries.len(),
{
    if entries.len() == 0 {
    } else if i == 0 {
    } else {
        let rest = entries.drop_first();
        assert forall|k: int| 0 <= k < i - 1 implies rest[k].name != name by {
            assert(rest[k] == entries[k + 1]);
        }
        lemma_entry_index(rest, name, i - 1);
    }
}

fn make_service(name: &str, region: &str, scenarios: Vec<String>) -> (r: ServiceEntry)
    ensures
        r@ == standard_service(name@, region@, strings_view(scenarios@)),
{
    ServiceEntry {
        name: name.to_owned(),
        config: ServiceConfig {
            enabled: true,
            region: Some(region.to_owned()),
            endpoint: None,
            api_key: None,
            test_scenarios: scenarios,
        },
    }
}

fn words(a: &[&str]) -> (r: Vec<String>)
    ensures
        r.len() == a.len(),
        forall|k: int| 0 <= k < a.len() ==> (#[trigger] r@[k])@ == a@[k]@,
{
    let mut r: Vec<String> = Vec::new();
    let mut i: usize = 0;
    while i < a.len()
        invariant
            i <= a.len(),
            r.len() == i,
            forall|k: int| 0 <= k < i ==> (#[trigger] r@[k])@ == a@[k]@,
        decreases a.len() - i,
    {
        r.push(a[i].to_owned());
        i += 1;
    }
    r
}

impl Config {
    /// Create the default settings: the global cloud, a timeout of 30
    /// seconds, output for people, API key authentication, and the five
    /// services enabled with their usual scenarios.
    pub fn default_config() -> (r: Config)
        ensures
            r@ == ConfigView::standard(),
            names_unique(r@.services),
    {
        let mut services: Vec<ServiceEntry> = Vec::new();
        let s1 = words(&["endpoint_check", "voices_list", "token_exchange", "tts"]);
        assert(strings_view(s1@) =~= seq![
            "endpoint_check"@,
            "voices_list"@,
            "token_exchange"@,
            "tts"@,
        ]);
        services.push(make_service("speech", "eastus", s1));
        let s2 = words(&["languages", "detect"]);
        assert(strings_view(s2@) =~= seq!["languages"@, "detect"@]);
        services.push(make_service("translator", "global", s2));
        let s3 = words(&["sentiment", "language_detection"]);
        assert(strings_view(s3@) =~= seq!["sentiment"@, "language_detection"@]);
        services.push(make_service("language", "eastus", s3));
        let s4 = words(&["analyze_image"]);
        assert(strings_view(s4@) =~= seq!["analyze_image"@]);
        services.push(make_service("vision", "eastus", s4));
        let s5 = words(&["layout"]);
        assert(strings_view(s5@) =~= seq!["layout"@]);
        services.push(make_service("document_intelligence", "eastus", s5));
        let r = Config {
            global: GlobalConfig {
                cloud: Cloud::Global,
                timeout_seconds: DEFAULT_TIMEOUT_SECS,
                output_format: OutputFormat::Human,
            },
            auth: AuthConfig::default(),
            services,
            custom_inputs: CustomInputs::default(),
        };
        proof {
            assert(r@.services =~= ConfigView::standard().services);
            reveal_strlit("speech");
            reveal_strlit("translator");
            reveal_strlit("language");
            reveal_strlit("vision");
            reveal_strlit("document_intelligence");
            assert("speech"@.len() == 6);
            assert("translator"@.len() == 10);
            assert("language"@.len() == 8);
            assert("vision"@.len() == 6);
            assert("document_intelligence"@.len() == 21);
            assert("speech"@[0] != "vision"@[0]);
        }
        r
    }

    /// Get service settings by name.
    pub fn get_service(&self, name: &str) -> (r: Option<&ServiceConfig>)
        ensures
            match r {
                Some(c) => self@.service(name@) == Some(c@),
                None => self@.service(name@) is None,
            },
    {
        let mut i: usize = 0;
        while i < self.services.len()
            invariant
                i <= self.services.len(),
                forall|k: int| 0 <= k < i ==> self@.services[k].name != name@,
            decreases self.services.len() - i,
        {
            if str_eq(self.services[i].name.as_str(), name) {
                proof {
                    lemma_entry_index(self@.services, name@, i as int);
                }
                return Some(&self.services[i].config);
            }
            i += 1;
        }
        proof {
            lemma_entry_index(self@.services, name@, i as int);
        }
        None
    }

    /// Get service settings by name, to change them. Whatever is written
    /// through the reference becomes the settings of that service; the other
    /// services and all names stay as they are.
    pub fn get_service_mut(&mut self, name: &str) -> (r: Option<&mut ServiceConfig>)
        ensures
            match r {
                Some(c) => {
                    let i = entry_index(old(self)@.services, name@);
                    &&& old(self)@.service(name@) == Some(c@)
                    &&& final(self)@.services == old(self)@.services.update(
                        i,
                        ServiceEntryView { name: name@, config: final(c)@ },
                    )
                    &&& final(self)@.global == old(self)@.global
                    &&& final(self)@.auth == old(self)@.auth
                    &&& final(self)@.custom_inputs == old(self)@.custom_inputs
                },
                None => old(self)@.service(name@) is None && *final(self) == *old(self),
            },
    {
        let n = self.services.len();
        let mut i: usize = 0;
        while i < n
            invariant
                i <= n,
                n == self.services.len(),
                *self == *old(self),
                forall|k: int| 0 <= k < i ==> self@.services[k].name != name@,
            decreases n - i,
        {
            if str_eq(self.services[i].name.as_str(), name) {
                proof {
                    lemma_entry_index(self@.services, name@, i as int);
                }
                return Some(&mut self.services[i].config);
            }
            i += 1;
        }
        proof {
            lemma_entry_index(self@.services, name@, i as int);
        }
        None
    }
}

/// One variable of the environment with its value.
#[derive(Debug)]
pub struct EnvVar {
    pub name: String,
    pub value: String,
}

impl View for EnvVar {
    type V = (Seq<char>, Seq<char>);

    open spec fn view(&self) -> (Seq<char>, Seq<char>) {
        (self.name@, self.value@)
    }
}

/// The views of a list of variables, in order.
pub open spec fn env_view(v: Seq<EnvVar>) -> Seq<(Seq<char>, Seq<char>)> {
    v.map_values(|e: EnvVar| e@)
}

/// The value of a variable: that of the first entry with its name.
pub open spec fn env_value(env: Seq<(Seq<char>, Seq<char>)>, name: Seq<char>) -> Option<Seq<char>>
    decreases env.len(),
{
    if env.len() == 0 {
        None
    } else if env.first().0 == name {
        Some(env.first().1)
    } else {
        env_value(env.drop_first(), name)
    }
}

/// The first of two optional values that is there.
pub open spec fn first_of(a: Option<Seq<char>>, b: Option<Seq<char>>) -> Option<Seq<char>> {
    if a is Some {
        a
    } else {
        b
    }
}

/// The name of the variable that overrides a setting of the service whose
/// name in upper case is `upper`: `AZURE_`, that name with `_` for `-`, and
/// the suffix.
pub open spec fn service_var_for(upper: Seq<char>, suffix: Seq<char>) -> Seq<char> {
    "AZURE_"@ + replace_char(upper, '-', '_') + suffix
}

/// One service after the environment was applied.
///
/// - The key is that of the service's own variable, else the key it had,
///   else the global key.
/// - The endpoint is that of the service's own variable, else the endpoint
///   it had, else the global endpoint.
/// - The region is that of the service's own variable, else the region it
///   had, else the global region.
pub open spec fn overridden_service(
    entry: ServiceEntryView,
    env: Seq<(Seq<char>, Seq<char>)>,
) -> ServiceEntryView {
    overridden_service_for(entry, uppercase_of(entry.name), env)
}

/// One service after the environment was applied, where `upper` is the
/// name of the service in upper case.
pub open spec fn overridden_service_for(
    entry: ServiceEntryView,
    upper: Seq<char>,
    env: Seq<(Seq<char>, Seq<char>)>,
) -> ServiceEntryView {
    ServiceEntryView {
        name: entry.name,
        config: ServiceConfigView {
            api_key: first_of(
                env_value(env, service_var_for(upper, "_API_KEY"@)),
                first_of(entry.config.api_key, env_value(env, "AZURE_AI_API_KEY"@)),
            ),
            endpoint: first_of(
                env_value(env, service_var_for(upper, "_ENDPOINT"@)),
                first_of(entry.config.endpoint, env_value(env, "AZURE_AI_ENDPOINT"@)),
            ),
            region: first_of(
                first_of(env_value(env, service_var_for(upper, "_REGION"@)), entry.config.region),
                env_value(env, "AZURE_REGION"@),
            ),
            ..entry.config
        },
    }
}

/// The settings after the environment was applied: every service as
/// `overridden_service` says; tenant, client and secret of the client
/// credentials, and tenant, bearer token and identity client of the user
/// settings, each replaced where its variable is set; the cloud replaced
/// where `AZURE_CLOUD` names one.
pub open spec fn overridden(config: ConfigView, env: Seq<(Seq<char>, Seq<char>)>) -> ConfigView {
    ConfigView {
        global: GlobalConfig {
            cloud: match env_value(env, "AZURE_CLOUD"@) {
                Some(word) => match Cloud::parsed(word) {
                    Some(c) => c,
                    None => config.global.cloud,
                },
                None => config.global.cloud,
            },
            ..config.global
        },
        auth: AuthConfigView {
            default_method: config.auth.default_method,
            entra: EntraConfigView {
                tenant_id: first_of(env_value(env, "AZURE_TENANT_ID"@), config.auth.entra.tenant_id),
                client_id: first_of(env_value(env, "AZURE_CLIENT_ID"@), config.auth.entra.client_id),
                client_secret: first_of(
                    env_value(env, "AZURE_CLIENT_SECRET"@),
                    config.auth.entra.client_secret,
                ),
            },
            user: UserAuthConfigView {
                tenant_id: first_of(
                    env_value(env, "AZURE_USER_TENANT_ID"@),
                    config.auth.user.tenant_id,
                ),
                bearer_token: first_of(
                    env_value(env, "AZURE_BEARER_TOKEN"@),
                    config.auth.user.bearer_token,
                ),
                managed_identity_client_id: first_of(
                    env_value(env, "AZURE_MI_CLIENT_ID"@),
                    config.auth.user.managed_identity_client_id,
                ),
                client_id: config.auth.user.client_id,
            },
        },
        services: config.services.map_values(|e: ServiceEntryView| overridden_service(e, env)),
        custom_inputs: config.custom_inputs,
    }
}

/// The value of a variable of the environment, if it is set.
pub fn lookup_env(env: &Vec<EnvVar>, name: &str) -> (r: Option<String>)
    ensures
        opt_view(r) == env_value(env_view(env@), name@),
{
    let ghost all = env_view(env@);
    let mut i: usize = 0;
    assert(all.skip(0) =~= all);
    while i < env.len()
        invariant
            i <= env.len(),
            all == env_view(env@),
            env_value(all, name@) == env_value(all.skip(i as int), name@),
        decreases env.len() - i,
    {
        assert(all.skip(i as int).drop_first() =~= all.skip(i + 1));
        if str_eq(env[i].name.as_str(), name) {
            return Some(env[i].value.clone());
        }
        i += 1;
    }
    None
}

/// The name of the variable that overrides a setting of the service whose
/// name in upper case is `upper`: `AZURE_`, that name with `_` for `-`, and
/// the suffix.
pub fn service_variable(upper: &str, suffix: &str) -> (r: String)
    ensures
        r@ == service_var_for(upper@, suffix@),
{
    let mut r = "AZURE_".to_owned();
    r.append(str_replace_char(upper, '-', '_').as_str());
    r.append(suffix);
    r
}

fn or_clone(a: Option<String>, b: &Option<String>) -> (r: Option<String>)
    ensures
        opt_view(r) == first_of(opt_view(a), opt_view(*b)),
{
    match a {
        Some(x) => Some(x),
        None => clone_opt(b),
    }
}

fn or_value(a: Option<String>, b: Option<String>) -> (r: Option<String>)
    ensures
        opt_view(r) == first_of(opt_view(a), opt_view(b)),
{
    match a {
        Some(x) => Some(x),
        None => b,
    }
}

/// One service after the environment was applied, where `upper` is the
/// name of the service in upper case: each of key, endpoint and region is
/// taken from the variable of the service, from the settings or from the
/// variable for all services, in the order that `overridden_service` gives.
pub fn override_service(entry: &ServiceEntry, upper: &str, env: &Vec<EnvVar>) -> (r: ServiceEntry)
    ensures
        r@ == overridden_service_for(entry@, upper@, env_view(env@)),
{
    let key = lookup_env(env, service_variable(upper, "_API_KEY").as_str());
    let endpoint = lookup_env(env, service_variable(upper, "_ENDPOINT").as_str());
    let region = lookup_env(env, service_variable(upper, "_REGION").as_str());
    let global_key = lookup_env(env, "AZURE_AI_API_KEY");
    let global_endpoint = lookup_env(env, "AZURE_AI_ENDPOINT");
    let global_region = lookup_env(env, "AZURE_REGION");
    ServiceEntry {
        name: entry.name.clone(),
        config: ServiceConfig {
            enabled: entry.config.enabled,
            api_key: or_value(key, or_value(clone_opt(&entry.config.api_key), global_key)),
            endpoint: or_value(
                endpoint,
                or_value(clone_opt(&entry.config.endpoint), global_endpoint),
            ),
            region: or_value(or_clone(region, &entry.config.region), global_region),
            test_scenarios: clone_strings(&entry.config.test_scenarios),
        },
    }
}

impl Config {
    /// Apply the overrides of the environment, which is handed in as the
    /// list of its variables.
    pub fn apply_env_overrides(&mut self, env: &Vec<EnvVar>)
        ensures
            final(self)@ == overridden(old(self)@, env_view(env@)),
    {
        let ghost before = self@;
        let ghost e = env_view(env@);
        let mut services: Vec<ServiceEntry> = Vec::new();
        let mut i: usize = 0;
        while i < self.services.len()
            invariant
                i <= self.services.len(),
                *self == *old(self),
                before == self@,
                e == env_view(env@),
                services.len() == i,
                forall|k: int|
                    0 <= k < i ==> (#[trigger] services@[k])@ == overridden_service(
                        before.services[k],
                        e,
                    ),
            decreases self.services.len() - i,
        {
            assert(before.services[i as int] == self.services@[i as int]@);
            let upper = self.services[i].name.as_str().to_uppercase();
            services.push(override_service(&self.services[i], upper.as_str(), env));
            i += 1;
        }
        self.services = services;
        self.auth.entra.tenant_id = or_clone(
            lookup_env(env, "AZURE_TENANT_ID"),
            &self.auth.entra.tenant_id,
        );
        self.auth.entra.client_id = or_clone(
            lookup_env(env, "AZURE_CLIENT_ID"),
            &self.auth.entra.client_id,
        );
        self.auth.entra.client_secret = or_clone(
            lookup_env(env, "AZURE_CLIENT_SECRET"),
            &self.auth.entra.client_secret,
        );
        self.auth.user.tenant_id = or_clone(
            lookup_env(env, "AZURE_USER_TENANT_ID"),
            &self.auth.user.tenant_id,
        );
        self.auth.user.bearer_token = or_clone(
            lookup_env(env, "AZURE_BEARER_TOKEN"),
            &self.auth.user.bearer_token,
        );
        self.auth.user.managed_identity_client_id = or_clone(
            lookup_env(env, "AZURE_MI_CLIENT_ID"),
            &self.auth.user.managed_identity_client_id,
        );
        match lookup_env(env, "AZURE_CLOUD") {
            Some(word) => match Cloud::parse(word.as_str()) {
                Ok(c) => {
                    self.global.cloud = c;
                },
                Err(_) => {},
            },
            None => {},
        }
        assert(self@.services =~= overridden(before, e).services);
    }
}

pub const WARN_TENANT: &'static str = "Token auth selected but tenant_id is not configured";

pub const WARN_CLIENT: &'static str = "Token auth selected but client_id is not configured";

pub const WARN_SECRET: &'static str = "Token auth selected but client_secret is not configured";

pub const WARN_DEVICE_TENANT: &'static str =
    "Device code auth selected but tenant_id is not configured in [auth.user]. Use --tenant on the command line or set AZURE_USER_TENANT_ID.";

pub const WARN_MANUAL_TOKEN: &'static str =
    "Manual token auth selected but no bearer_token is configured. Use --bearer-token or set AZURE_BEARER_TOKEN.";

pub const WARN_IDENTITY: &'static str =
    "Managed identity auth selected but no identity endpoint detected. This will work on Azure VMs via IMDS but will fail on non-Azure machines.";

pub const WARN_ENDPOINT: &'static str =
    "Bearer token auth typically requires a custom subdomain endpoint. Use --endpoint https://YOUR-RESOURCE.cognitiveservices.azure.com";

/// One warning where a condition holds, none where it does not.
pub open spec fn warn_if(condition: bool, warning: Seq<char>) -> Seq<Seq<char>> {
    if condition {
        seq![warning]
    } else {
        Seq::empty()
    }
}

/// The warnings for enabled services without an API key, in the order of
/// the services.
pub open spec fn key_warnings(services: Seq<ServiceEntryView>) -> Seq<Seq<char>>
    decreases services.len(),
{
    if services.len() == 0 {
        Seq::empty()
    } else {
        key_warnings(services.drop_last()) + warn_if(
            services.last().config.enabled && services.last().config.api_key is None,
            "Service '"@ + services.last().name + "' is enabled but has no API key configured"@,
        )
    }
}

/// The warnings for enabled services with neither region nor endpoint, in
/// the order of the services.
pub open spec fn place_warnings(services: Seq<ServiceEntryView>) -> Seq<Seq<char>>
    decreases services.len(),
{
    if services.len() == 0 {
        Seq::empty()
    } else {
        place_warnings(services.drop_last()) + warn_if(
            services.last().config.enabled && services.last().config.region is None
                && services.last().config.endpoint is None,
            "Service '"@ + services.last().name + "' has no region or endpoint configured"@,
        )
    }
}

/// Whether some service has a custom endpoint.
pub open spec fn has_custom_endpoint(services: Seq<ServiceEntryView>) -> bool {
    exists|i: int| 0 <= i < services.len() && (#[trigger] services[i]).config.endpoint is Some
}

/// The warnings for settings, in the order in which they are reported.
///
/// 1. With a method that sends a key: every enabled service without one.
/// 2. With a method that uses client credentials: tenant, client and
///    secret, each where it is missing.
/// 3. With device code: a missing tenant.
/// 4. With a manual token: a missing token.
/// 5. With managed identity: an environment that names no identity
///    endpoint.
/// 6. With one of these three methods: no service with a custom endpoint.
/// 7. Every enabled service with neither region nor endpoint.
pub open spec fn warnings(
    config: ConfigView,
    identity_endpoint_set: bool,
    msi_endpoint_set: bool,
) -> Seq<Seq<char>> {
    let method = config.auth.default_method;
    (if method.uses_key() {
        key_warnings(config.services)
    } else {
        Seq::empty()
    }) + warn_if(method.uses_client_credentials() && config.auth.entra.tenant_id is None, WARN_TENANT@)
        + warn_if(
        method.uses_client_credentials() && config.auth.entra.client_id is None,
        WARN_CLIENT@,
    ) + warn_if(
        method.uses_client_credentials() && config.auth.entra.client_secret is None,
        WARN_SECRET@,
    ) + warn_if(
        method == AuthMethod::DeviceCode && config.auth.user.tenant_id is None,
        WARN_DEVICE_TENANT@,
    ) + warn_if(
        method == AuthMethod::ManualToken && config.auth.user.bearer_token is None,
        WARN_MANUAL_TOKEN@,
    ) + warn_if(
        method == AuthMethod::ManagedIdentity && !identity_endpoint_set && !msi_endpoint_set,
        WARN_IDENTITY@,
    ) + warn_if(method.uses_bearer() && !has_custom_endpoint(config.services), WARN_ENDPOINT@)
        + place_warnings(config.services)
}

fn push_if(out: &mut Vec<String>, condition: bool, warning: &str)
    ensures
        strings_view(final(out)@) == strings_view(old(out)@) + warn_if(condition, warning@),
{
    if condition {
        out.push(warning.to_owned());
    }
    assert(strings_view(out@) =~= strings_view(old(out)@) + warn_if(condition, warning@));
}

fn any_custom_endpoint(services: &Vec<ServiceEntry>) -> (r: bool)
    ensures
        r == has_custom_endpoint(entries_view(services@)),
{
    let mut i: usize = 0;
    while i < services.len()
        invariant
            i <= services.len(),
            forall|k: int|
                0 <= k < i ==> (#[trigger] entries_view(services@)[k]).config.endpoint is None,
        decreases services.len() - i,
    {
        if services[i].config.endpoint.is_some() {
            assert(entries_view(services@)[i as int].config.endpoint is Some);
            return true;
        }
        i += 1;
    }
    false
}

/// Validate the settings: the warnings that they give rise to. The two
/// flags say whether the environment names an identity endpoint under
/// `IDENTITY_ENDPOINT` and under `MSI_ENDPOINT`. Validation itself never
/// fails.
pub fn validate_config(config: &Config, identity_endpoint_set: bool, msi_endpoint_set: bool) -> (r:
    Result<Vec<String>, AppError>)
    ensures
        r matches Ok(w) && strings_view(w@) == warnings(
            config@,
            identity_endpoint_set,
            msi_endpoint_set,
        ),
{
    let ghost all = config@.services;
    let method = config.auth.default_method;
    let uses_key = method == AuthMethod::Key || method == AuthMethod::Both;
    let uses_cc = method == AuthMethod::Token || method == AuthMethod::Both;
    let uses_bearer = method == AuthMethod::DeviceCode || method == AuthMethod::ManualToken
        || method == AuthMethod::ManagedIdentity;
    let mut w: Vec<String> = Vec::new();
    assert(strings_view(w@) =~= Seq::<Seq<char>>::empty());
    if uses_key {
        let mut i: usize = 0;
        assert(all.take(0) =~= Seq::<ServiceEntryView>::empty());
        while i < config.services.len()
            invariant
                i <= config.services.len(),
                all == config@.services,
                strings_view(w@) == key_warnings(all.take(i as int)),
            decreases config.services.len() - i,
        {
            assert(all.take(i + 1).drop_last() =~= all.take(i as int));
            let service = &config.services[i];
            let mut t = "Service '".to_owned();
            t.append(service.name.as_str());
            t.append("' is enabled but has no API key configured");
            push_if(&mut w, service.config.enabled && service.config.api_key.is_none(), t.as_str());
            i += 1;
        }
        assert(all.take(config.services.len() as int) =~= all);
    }
    let ghost w1 = strings_view(w@);
    push_if(&mut w, uses_cc && config.auth.entra.tenant_id.is_none(), WARN_TENANT);
    push_if(&mut w, uses_cc && config.auth.entra.client_id.is_none(), WARN_CLIENT);
    push_if(&mut w, uses_cc && config.auth.entra.client_secret.is_none(), WARN_SECRET);
    push_if(
        &mut w,
        method == AuthMethod::DeviceCode && config.auth.user.tenant_id.is_none(),
        WARN_DEVICE_TENANT,
    );
    push_if(
        &mut w,
        method == AuthMethod::ManualToken && config.auth.user.bearer_token.is_none(),
        WARN_MANUAL_TOKEN,
    );
    push_if(
        &mut w,
        method == AuthMethod::ManagedIdentity && !identity_endpoint_set && !msi_endpoint_set,
        WARN_IDENTITY,
    );
    let custom = any_custom_endpoint(&config.services);
    push_if(&mut w, uses_bearer && !custom, WARN_ENDPOINT);
    let ghost head = strings_view(w@);
    let mut j: usize = 0;
    assert(all.take(0) =~= Seq::<ServiceEntryView>::empty());
    assert(head + Seq::<Seq<char>>::empty() =~= head);
    while j < config.services.len()
        invariant
            j <= config.services.len(),
            all == config@.services,
            strings_view(w@) == head + place_warnings(all.take(j as int)),
        decreases config.services.len() - j,
    {
        assert(all.take(j + 1).drop_last() =~= all.take(j as int));
        let service = &config.services[j];
        let mut t = "Service '".to_owned();
        t.append(service.name.as_str());
        t.append("' has no region or endpoint configured");
        let ghost before = strings_view(w@);
        push_if(
            &mut w,
            service.config.enabled && service.config.region.is_none()
                && service.config.endpoint.is_none(),
            t.as_str(),
        );
        assert(strings_view(w@) =~= head + place_warnings(all.take(j + 1)));
        j += 1;
    }
    assert(all.take(config.services.len() as int) =~= all);
    Ok(w)
}

impl Config {
    /// The error for a settings file that could not be read: a file that is
    /// not there is reported with its path, anything else as the error of
    /// the file system.
    pub fn from_file(path: &str, not_found: bool, message: String) -> (r: AppError)
        ensures
            r@ == if not_found {
                AppErrorView::FileNotFound(path@)
            } else {
                AppErrorView::Io(message@)
            },
    {
        if not_found {
            AppError::FileNotFound(path.to_owned())
        } else {
            AppError::Io(message)
        }
    }

    /// The error for settings that could not be written as text.
    pub fn to_toml(message: String) -> (r: AppError)
        ensures
            r@ == AppErrorView::Config(message@),
    {
        AppError::Config(message)
    }
}

} // verus!
