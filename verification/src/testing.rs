//! The test runner: what a run is made of, which credentials and input it
//! uses, and which services it visits.

use crate::auth::{AuthManager, AuthManagerView, Credentials, CredentialsView};
use crate::auth::managed_identity::ManagedIdentityEnv;
use crate::auth::token_cache::{lookup, TokenCacheFile, DEFAULT_BUFFER_SECS};
use crate::config::{
    AuthMethod, Cloud, Config, ConfigView, EntraConfig, EntraConfigView, UserAuthConfig,
    UserAuthConfigView, MAX_INPUT_FILE_SIZE,
};
use crate::error::{AppError, AppErrorView};
use crate::paint::{
    extend, joined, plain, push_span, push_text, render, shows, spans_view, tinted, Span, SpanView,
    Tint,
};
use crate::services::{
    get_all_services, get_service, input_name, scenarios_view, ServiceKind, TestContext,
    TestContextView, TestInput, TestInputView, TestScenario, TestScenarioView,
};
use crate::text::{
    clone_opt, decimal, i64_to_decimal, lowercase_of, opt_view, signed_decimal, str_eq,
    strings_view, u64_to_decimal,
};
use crate::time::{whole_minutes, Timestamp};
use vstd::prelude::*;
use vstd::string::*;
use vstd::utf8::encode_utf8;

verus! {

/// The look of the progress bar of a test run.
pub const RUN_PROGRESS_TEMPLATE: &'static str =
    "{spinner:.green} [{elapsed_precise}] {bar:40.cyan/blue} {pos}/{len} {msg}";

/// The characters of the progress bar of a test run.
pub const RUN_PROGRESS_CHARS: &'static str = "##-";

/// The look of the countdown of a device-code session.
pub const SIGN_IN_PROGRESS_TEMPLATE: &'static str =
    "  {spinner:.cyan} Waiting for sign-in... [{bar:30.dim}] {msg}";

/// The characters of the countdown of a device-code session.
pub const SIGN_IN_PROGRESS_CHARS: &'static str = "=>-";

/// Test runner configuration.
#[derive(Debug)]
pub struct TestRunnerConfig {
    /// Services to test.
    pub services: Vec<String>,
    /// API key for authentication.
    pub api_key: Option<String>,
    /// Azure region.
    pub region: String,
    /// Cloud environment.
    pub cloud: Cloud,
    /// Authentication method.
    pub auth_method: AuthMethod,
    /// Request timeout in seconds.
    pub timeout_secs: u64,
    /// Custom endpoint.
    pub endpoint: Option<String>,
    /// Input file path.
    pub input_file: Option<String>,
    /// Specific scenarios to run.
    pub scenarios: Option<Vec<String>>,
    /// Entra configuration.
    pub entra_config: Option<EntraConfig>,
    /// User auth configuration.
    pub user_config: Option<UserAuthConfig>,
    /// Show verbose output.
    pub verbose: bool,
    /// Quiet mode (no progress indicators).
    pub quiet: bool,
    /// Display the bearer token after authentication.
    pub show_token: bool,
    /// Skip reading cached tokens from disk.
    pub no_cache: bool,
}

pub ghost struct TestRunnerConfigView {
    pub services: Seq<Seq<char>>,
    pub api_key: Option<Seq<char>>,
    pub region: Seq<char>,
    pub cloud: Cloud,
    pub auth_method: AuthMethod,
    pub timeout_secs: u64,
    pub endpoint: Option<Seq<char>>,
    pub input_file: Option<Seq<char>>,
    pub scenarios: Option<Seq<Seq<char>>>,
    pub entra_config: Option<EntraConfigView>,
    pub user_config: Option<UserAuthConfigView>,
    pub verbose: bool,
    pub quiet: bool,
    pub show_token: bool,
    pub no_cache: bool,
}

/// The views of an optional list of strings.
pub open spec fn opt_strings_view(v: Option<Vec<String>>) -> Option<Seq<Seq<char>>> {
    match v {
        Some(names) => Some(strings_view(names@)),
        None => None,
    }
}

impl View for TestRunnerConfig {
    type V = TestRunnerConfigView;

    open spec fn view(&self) -> TestRunnerConfigView {
        TestRunnerConfigView {
            services: strings_view(self.services@),
            api_key: opt_view(self.api_key),
            region: self.region@,
            cloud: self.cloud,
            auth_method: self.auth_method,
            timeout_secs: self.timeout_secs,
            endpoint: opt_view(self.endpoint),
            input_file: opt_view(self.input_file),
            scenarios: opt_strings_view(self.scenarios),
            entra_config: match self.entra_config {
                Some(c) => Some(c@),
                None => None,
            },
            user_config: match self.user_config {
                Some(c) => Some(c@),
                None => None,
            },
            verbose: self.verbose,
            quiet: self.quiet,
            show_token: self.show_token,
            no_cache: self.no_cache,
        }
    }
}

/// The first of two optional values that is there.
pub open spec fn or_else<T>(first: Option<T>, second: Option<T>) -> Option<T> {
    if first is Some {
        first
    } else {
        second
    }
}

/// The API key of the first of the named services that has one.
pub open spec fn first_api_key(config: ConfigView, names: Seq<Seq<char>>) -> Option<Seq<char>>
    decreases names.len(),
{
    if names.len() == 0 {
        None
    } else if config.service(names.first()) is Some && config.service(names.first())->0.api_key
        is Some {
        config.service(names.first())->0.api_key
    } else {
        first_api_key(config, names.drop_first())
    }
}

/// The region of the first of the named services that has one.
pub open spec fn first_region(config: ConfigView, names: Seq<Seq<char>>) -> Option<Seq<char>>
    decreases names.len(),
{
    if names.len() == 0 {
        None
    } else if config.service(names.first()) is Some && config.service(names.first())->0.region
        is Some {
        config.service(names.first())->0.region
    } else {
        first_region(config, names.drop_first())
    }
}

/// The settings of a run: what the command line gives goes before what the
/// settings file gives.
///
/// - The API key and the region come from the command line, else from the
///   first of the services to test that has one in the file; without any
///   region the run uses `eastus`.
/// - Tenant and bearer token of the command line replace those of the file.
/// - Cloud, method and timeout come from the command line, else from the
///   file.
/// - The input file comes from the command line, else it is the audio file
///   of the settings file.
pub open spec fn runner_config(
    config: ConfigView,
    services: Seq<Seq<char>>,
    api_key: Option<Seq<char>>,
    region: Option<Seq<char>>,
    cloud: Option<Cloud>,
    auth_method: Option<AuthMethod>,
    timeout: Option<u64>,
    endpoint: Option<Seq<char>>,
    input_file: Option<Seq<char>>,
    scenarios: Option<Seq<Seq<char>>>,
    tenant: Option<Seq<char>>,
    bearer_token: Option<Seq<char>>,
    verbose: bool,
    quiet: bool,
    show_token: bool,
    no_cache: bool,
) -> TestRunnerConfigView {
    TestRunnerConfigView {
        services,
        api_key: or_else(api_key, first_api_key(config, services)),
        region: match or_else(region, first_region(config, services)) {
            Some(r) => r,
            None => "eastus"@,
        },
        cloud: match cloud {
            Some(c) => c,
            None => config.global.cloud,
        },
        auth_method: match auth_method {
            Some(m) => m,
            None => config.auth.default_method,
        },
        timeout_secs: match timeout {
            Some(t) => t,
            None => config.global.timeout_seconds,
        },
        endpoint,
        input_file: or_else(input_file, config.custom_inputs.audio_file),
        scenarios,
        entra_config: Some(config.auth.entra),
        user_config: Some(
            UserAuthConfigView {
                tenant_id: or_else(tenant, config.auth.user.tenant_id),
                bearer_token: or_else(bearer_token, config.auth.user.bearer_token),
                ..config.auth.user
            },
        ),
        verbose,
        quiet,
        show_token,
        no_cache,
    }
}

fn find_api_key(config: &Config, names: &Vec<String>) -> (r: Option<String>)
    ensures
        opt_view(r) == first_api_key(config@, strings_view(names@)),
{
    let ghost all = strings_view(names@);
    let mut i: usize = 0;
    assert(all.skip(0) =~= all);
    while i < names.len()
        invariant
            i <= names.len(),
            all == strings_view(names@),
            first_api_key(config@, all) == first_api_key(config@, all.skip(i as int)),
        decreases names.len() - i,
    {
        assert(all.skip(i as int).drop_first() =~= all.skip(i + 1));
        assert(all.skip(i as int).first() == names@[i as int]@);
        match config.get_service(names[i].as_str()) {
            Some(service) => {
                if service.api_key.is_some() {
                    return clone_opt(&service.api_key);
                }
            },
            None => {},
        }
        i += 1;
    }
    None
}

fn find_region(config: &Config, names: &Vec<String>) -> (r: Option<String>)
    ensures
        opt_view(r) == first_region(config@, strings_view(names@)),
{
    let ghost all = strings_view(names@);
    let mut i: usize = 0;
    assert(all.skip(0) =~= all);
    while i < names.len()
        invariant
            i <= names.len(),
            all == strings_view(names@),
            first_region(config@, all) == first_region(config@, all.skip(i as int)),
        decreases names.len() - i,
    {
        assert(all.skip(i as int).drop_first() =~= all.skip(i + 1));
        assert(all.skip(i as int).first() == names@[i as int]@);
        match config.get_service(names[i].as_str()) {
            Some(service) => {
                if service.region.is_some() {
                    return clone_opt(&service.region);
                }
            },
            None => {},
        }
        i += 1;
    }
    None
}

impl TestRunnerConfig {
    /// Create from command-line arguments and the settings file.
    pub fn from_config(
        config: &Config,
        services: Vec<String>,
        api_key: Option<String>,
        region: Option<String>,
        cloud: Option<Cloud>,
        auth_method: Option<AuthMethod>,
        timeout: Option<u64>,
        endpoint: Option<String>,
        input_file: Option<String>,
        scenarios: Option<Vec<String>>,
        tenant: Option<String>,
        bearer_token: Option<String>,
        verbose: bool,
        quiet: bool,
        show_token: bool,
        no_cache: bool,
    ) -> (r: TestRunnerConfig)
        ensures
            r@ == runner_config(
                config@,
                strings_view(services@),
                opt_view(api_key),
                opt_view(region),
                cloud,
                auth_method,
                timeout,
                opt_view(endpoint),
                opt_view(input_file),
                opt_strings_view(scenarios),
                opt_view(tenant),
                opt_view(bearer_token),
                verbose,
                quiet,
                show_token,
                no_cache,
            ),
    {
        let api_key = match api_key {
            Some(k) => Some(k),
            None => find_api_key(config, &services),
        };
        let region = match region {
            Some(r) => Some(r),
            None => find_region(config, &services),
        };
        let region = match region {
            Some(r) => r,
            None => "eastus".to_owned(),
        };
        let mut user_config = config.auth.user.clone();
        if tenant.is_some() {
            user_config.tenant_id = tenant;
        }
        if bearer_token.is_some() {
            user_config.bearer_token = bearer_token;
        }
        let input_file = match input_file {
            Some(f) => Some(f),
            None => clone_opt(&config.custom_inputs.audio_file),
        };
        TestRunnerConfig {
            services,
            api_key,
            region,
            cloud: match cloud {
                Some(c) => c,
                None => config.global.cloud,
            },
            auth_method: match auth_method {
                Some(m) => m,
                None => config.auth.default_method,
            },
            timeout_secs: match timeout {
                Some(t) => t,
                None => config.global.timeout_seconds,
            },
            endpoint,
            input_file,
            scenarios,
            entra_config: Some(config.auth.entra.clone()),
            user_config: Some(user_config),
            verbose,
            quiet,
            show_token,
            no_cache,
        }
    }
}

/// The content type for a file extension, whatever its letter case.
pub open spec fn content_type_text(extension: Seq<char>) -> Seq<char> {
    content_type_of_lowercase(lowercase_of(extension))
}

/// The content type for a file extension in lower case.
pub open spec fn content_type_of_lowercase(e: Seq<char>) -> Seq<char> {
    if e == "wav"@ {
        "audio/wav"@
    } else if e == "mp3"@ {
        "audio/mpeg"@
    } else if e == "ogg"@ {
        "audio/ogg"@
    } else if e == "png"@ {
        "image/png"@
    } else if e == "jpg"@ || e == "jpeg"@ {
        "image/jpeg"@
    } else if e == "gif"@ {
        "image/gif"@
    } else if e == "bmp"@ {
        "image/bmp"@
    } else if e == "pdf"@ {
        "application/pdf"@
    } else if e == "tiff"@ || e == "tif"@ {
        "image/tiff"@
    } else {
        "application/octet-stream"@
    }
}

/// The content type for a file extension, whatever its letter case; any
/// extension that is not known stands for arbitrary bytes.
pub fn content_type_for(extension: &str) -> (r: &'static str)
    ensures
        r@ == content_type_text(extension@),
{
    let low = extension.to_lowercase();
    content_type_for_lowercase(low.as_str())
}

/// The content type for a file extension in lower case; any extension that
/// is not known stands for arbitrary bytes.
pub fn content_type_for_lowercase(e: &str) -> (r: &'static str)
    ensures
        r@ == content_type_of_lowercase(e@),
{
    if str_eq(e, "wav") {
        "audio/wav"
    } else if str_eq(e, "mp3") {
        "audio/mpeg"
    } else if str_eq(e, "ogg") {
        "audio/ogg"
    } else if str_eq(e, "png") {
        "image/png"
    } else if str_eq(e, "jpg") || str_eq(e, "jpeg") {
        "image/jpeg"
    } else if str_eq(e, "gif") {
        "image/gif"
    } else if str_eq(e, "bmp") {
        "image/bmp"
    } else if str_eq(e, "pdf") {
        "application/pdf"
    } else if str_eq(e, "tiff") || str_eq(e, "tif") {
        "image/tiff"
    } else {
        "application/octet-stream"
    }
}

/// What the file system says of the input file.
#[derive(Debug)]
pub enum InputFile {
    /// There is no file at the path.
    NotFound,
    /// The path cannot be resolved; the reason.
    Unresolvable(String),
    /// The file cannot be examined or read; the reason.
    Unreadable(String),
    /// The file is larger than is read; its size in bytes.
    TooLarge(u64),
    /// The file with its content. The extension is empty where the name has
    /// none.
    Read { data: Vec<u8>, extension: String, file_name: Option<String> },
}

pub ghost enum InputFileView {
    NotFound,
    Unresolvable(Seq<char>),
    Unreadable(Seq<char>),
    TooLarge(u64),
    Read { data: Seq<u8>, extension: Seq<char>, file_name: Option<Seq<char>> },
}

impl View for InputFile {
    type V = InputFileView;

    open spec fn view(&self) -> InputFileView {
        match self {
            InputFile::NotFound => InputFileView::NotFound,
            InputFile::Unresolvable(m) => InputFileView::Unresolvable(m@),
            InputFile::Unreadable(m) => InputFileView::Unreadable(m@),
            InputFile::TooLarge(n) => InputFileView::TooLarge(*n),
            InputFile::Read { data, extension, file_name } => InputFileView::Read {
                data: data@,
                extension: extension@,
                file_name: opt_view(*file_name),
            },
        }
    }
}

/// Whether a file of a size is read: one of more than 10MB is not.
pub fn input_size_allowed(size: u64) -> (r: bool)
    ensures
        r == (size <= MAX_INPUT_FILE_SIZE),
{
    size <= MAX_INPUT_FILE_SIZE
}

/// The input of a run for what the file system says of the file at
/// `path`.
pub open spec fn input_of(path: Seq<char>, file: InputFileView) -> Result<
    TestInputView,
    AppErrorView,
> {
    match file {
        InputFileView::NotFound => Err(AppErrorView::FileNotFound(path)),
        InputFileView::Unresolvable(m) => Err(
            AppErrorView::InvalidInput("Invalid path '"@ + path + "': "@ + m),
        ),
        InputFileView::Unreadable(m) => Err(AppErrorView::Io(m)),
        InputFileView::TooLarge(n) => Err(
            AppErrorView::InvalidInput(
                "File exceeds 10MB limit ("@ + decimal(n as nat) + " bytes)"@,
            ),
        ),
        InputFileView::Read { data, extension, file_name } => Ok(
            TestInputView {
                data,
                content_type: content_type_text(extension),
                file_name,
                text: None,
            },
        ),
    }
}

/// Which service a name of the run stands for.
#[derive(Debug)]
pub enum ServiceStep {
    /// The service is tested.
    Test(ServiceKind),
    /// No service has the name; it is passed over.
    Unknown(String),
}

/// Test runner.
#[derive(Debug)]
pub struct TestRunner {
    config: TestRunnerConfig,
}

impl View for TestRunner {
    type V = TestRunnerConfigView;

    closed spec fn view(&self) -> TestRunnerConfigView {
        self.config@
    }
}

impl TestRunnerConfigView {
    /// Whether the token cache on disk is asked first: for the device-code
    /// method, unless the cache is switched off.
    pub open spec fn uses_disk_cache(self) -> bool {
        !self.no_cache && self.auth_method == AuthMethod::DeviceCode
    }

    /// The tenant under which the cache is asked; empty where none is set.
    pub open spec fn cache_tenant(self) -> Seq<char> {
        match self.user_config {
            Some(u) => match u.tenant_id {
                Some(t) => t,
                None => Seq::empty(),
            },
            None => Seq::empty(),
        }
    }

    /// The context in which every service of the run is tested.
    pub open spec fn context(self, credentials: CredentialsView, input: Option<TestInputView>) -> TestContextView {
        TestContextView {
            credentials,
            timeout_secs: self.timeout_secs,
            cloud: self.cloud,
            region: self.region,
            endpoint: self.endpoint,
            input,
            verbose: self.verbose,
        }
    }
}

impl TestRunner {
    pub fn new(config: TestRunnerConfig) -> (r: TestRunner)
        ensures
            r@ == config@,
    {
        TestRunner { config }
    }

    /// The settings of the run.
    pub fn config(&self) -> (r: &TestRunnerConfig)
        ensures
            r@ == self@,
    {
        &self.config
    }

    /// The path of the input file, where the run has one.
    pub fn input_path(&self) -> (r: Option<&String>)
        ensures
            match r {
                Some(p) => self@.input_file == Some(p@),
                None => self@.input_file is None,
            },
    {
        self.config.input_file.as_ref()
    }

    /// The input of the run. Without an input file there is none; else it
    /// is made of what the file system says of the file: its content with
    /// the content type of its extension, or the error to report.
    pub fn load_input(&self, file: Option<InputFile>) -> (r: Result<Option<TestInput>, AppError>)
        ensures
            match r {
                Ok(None) => self@.input_file is None || file is None,
                Ok(Some(input)) => self@.input_file is Some && file is Some && input_of(
                    self@.input_file->0,
                    file->0@,
                ) == Ok::<TestInputView, AppErrorView>(input@),
                Err(e) => self@.input_file is Some && file is Some && input_of(
                    self@.input_file->0,
                    file->0@,
                ) == Err::<TestInputView, AppErrorView>(e@),
            },
    {
        let path = match &self.config.input_file {
            Some(p) => p,
            None => {
                return Ok(None);
            },
        };
        let file = match file {
            Some(f) => f,
            None => {
                return Ok(None);
            },
        };
        match file {
            InputFile::NotFound => Err(AppError::FileNotFound(path.clone())),
            InputFile::Unresolvable(m) => {
                let mut t = "Invalid path '".to_owned();
                t.append(path.as_str());
                t.append("': ");
                t.append(m.as_str());
                Err(AppError::InvalidInput(t))
            },
            InputFile::Unreadable(m) => Err(AppError::Io(m)),
            InputFile::TooLarge(n) => {
                let mut t = "File exceeds 10MB limit (".to_owned();
                t.append(u64_to_decimal(n).as_str());
                t.append(" bytes)");
                Err(AppError::InvalidInput(t))
            },
            InputFile::Read { data, extension, file_name } => Ok(
                Some(
                    TestInput {
                        data,
                        content_type: content_type_for(extension.as_str()).to_owned(),
                        file_name,
                        text: None,
                    },
                ),
            ),
        }
    }

    /// Whether the token cache on disk is asked before anything else.
    pub fn uses_disk_cache(&self) -> (r: bool)
        ensures
            r == self@.uses_disk_cache(),
    {
        !self.config.no_cache && self.config.auth_method == AuthMethod::DeviceCode
    }

    /// The credentials from the token cache on disk, with the minutes they
    /// still last: those of the first entry for the scope of the cloud and
    /// the tenant of the run that is valid at `now`. Without such an entry,
    /// or where the cache is not to be asked, there are none.
    pub fn cached_credentials(&self, cache: &TokenCacheFile, now: &Timestamp) -> (r: Option<
        (Credentials, i64),
    >)
        ensures
            match r {
                Some((c, minutes)) => self@.uses_disk_cache() && (lookup(
                    cache@,
                    self@.cloud.scope_text(),
                    self@.cache_tenant(),
                    *now,
                    DEFAULT_BUFFER_SECS,
                ) matches Some(e) && c@ == CredentialsView::BearerToken(e.access_token)
                    && minutes == whole_minutes(e.expires_at.total_nanos() - now.total_nanos())),
                None => !self@.uses_disk_cache() || lookup(
                    cache@,
                    self@.cloud.scope_text(),
                    self@.cache_tenant(),
                    *now,
                    DEFAULT_BUFFER_SECS,
                ) is None,
            },
    {
        if !self.uses_disk_cache() {
            return None;
        }
        let scope = self.config.cloud.cognitive_scope();
        let tenant_id: &str = match &self.config.user_config {
            Some(u) => match &u.tenant_id {
                Some(t) => t.as_str(),
                None => "",
            },
            None => "",
        };
        proof {
            reveal_strlit("");
            assert(""@ =~= Seq::<char>::empty());
        }
        match cache.get_valid_token_at(scope, tenant_id, now) {
            Some(entry) => Some(
                (
                    Credentials::BearerToken(entry.access_token.clone()),
                    entry.remaining_minutes_at(now),
                ),
            ),
            None => None,
        }
    }

    /// The authentication manager for the settings of the run.
    pub fn get_credentials(&self, env: ManagedIdentityEnv) -> (r: Result<AuthManager, AppError>)
        ensures
            match r {
                Ok(m) => AuthManagerView::refusal(self@.user_config, self@.auth_method) is None
                    && m@ == AuthManagerView::built(
                    self@.api_key,
                    self@.entra_config,
                    self@.user_config,
                    self@.cloud,
                    self@.auth_method,
                    self@.quiet,
                    env@,
                ),
                Err(e) => AuthManagerView::refusal(self@.user_config, self@.auth_method) == Some(
                    e@,
                ),
            },
    {
        AuthManager::new_with_options(
            clone_opt(&self.config.api_key),
            self.config.entra_config.as_ref(),
            self.config.user_config.as_ref(),
            self.config.cloud,
            self.config.auth_method,
            self.config.quiet,
            env,
        )
    }

    /// The context in which a service of the run is tested.
    pub fn context(&self, credentials: Credentials, input: Option<TestInput>) -> (r: TestContext)
        ensures
            r@ == self@.context(
                credentials@,
                match input {
                    Some(i) => Some(i@),
                    None => None,
                },
            ),
    {
        TestContext::new(
            credentials,
            self.config.cloud,
            self.config.region.clone(),
            self.config.timeout_secs,
        ).with_endpoint(clone_opt(&self.config.endpoint)).with_input(input).with_verbose(
            self.config.verbose,
        )
    }

    /// The services that the run visits, one step for each name in the
    /// order of the settings: the service of that name, or the note that
    /// there is none.
    pub fn run(&self) -> (r: Vec<ServiceStep>)
        ensures
            r.len() == self@.services.len(),
            forall|i: int|
                0 <= i < r.len() ==> match #[trigger] r@[i] {
                    ServiceStep::Test(kind) => ServiceKind::named(self@.services[i]) == Some(kind),
                    ServiceStep::Unknown(name) => ServiceKind::named(self@.services[i]) is None
                        && name@ == self@.services[i],
                },
    {
        let mut steps: Vec<ServiceStep> = Vec::new();
        let mut i: usize = 0;
        while i < self.config.services.len()
            invariant
                i <= self.config.services.len(),
                steps.len() == i,
                forall|k: int|
                    0 <= k < i ==> match #[trigger] steps@[k] {
                        ServiceStep::Test(kind) => ServiceKind::named(self@.services[k]) == Some(
                            kind,
                        ),
                        ServiceStep::Unknown(name) => ServiceKind::named(self@.services[k])
                            is None && name@ == self@.services[k],
                    },
            decreases self.config.services.len() - i,
        {
            let name = &self.config.services[i];
            assert(self@.services[i as int] == name@);
            match get_service(name.as_str()) {
                Some(kind) => steps.push(ServiceStep::Test(kind)),
                None => steps.push(ServiceStep::Unknown(name.clone())),
            }
            i += 1;
        }
        steps
    }
}

/// The scenarios of one service under its display name.
pub ghost struct ListingView {
    pub service: Seq<char>,
    pub scenarios: Seq<TestScenarioView>,
}

/// The listing of a service.
pub open spec fn listing_of(kind: ServiceKind) -> ListingView {
    ListingView { service: kind.display_name_text(), scenarios: kind.scenarios() }
}

/// The view of a listing.
pub open spec fn listing_view(l: (String, Vec<TestScenario>)) -> ListingView {
    ListingView { service: l.0@, scenarios: scenarios_view(l.1@) }
}

/// The views of a list of listings, in order.
pub open spec fn listings_view(v: Seq<(String, Vec<TestScenario>)>) -> Seq<ListingView> {
    v.map_values(|l: (String, Vec<TestScenario>)| listing_view(l))
}

/// The listings for a service name: that of the service of that name, none
/// where no service has it, and those of all services where no name is
/// given.
pub open spec fn listings_for(service_name: Option<Seq<char>>) -> Seq<ListingView> {
    match service_name {
        Some(name) => match ServiceKind::named(name) {
            Some(kind) => seq![listing_of(kind)],
            None => Seq::empty(),
        },
        None => seq![
            listing_of(ServiceKind::Speech),
            listing_of(ServiceKind::Translator),
            listing_of(ServiceKind::Language),
            listing_of(ServiceKind::Vision),
            listing_of(ServiceKind::DocumentIntelligence),
        ],
    }
}

/// List available scenarios for a service.
pub fn list_scenarios(service_name: Option<&str>) -> (r: Vec<(String, Vec<TestScenario>)>)
    ensures
        listings_view(r@) == listings_for(
            match service_name {
                Some(n) => Some(n@),
                None => None,
            },
        ),
{
    let services = match service_name {
        Some(name) => {
            let mut v: Vec<ServiceKind> = Vec::new();
            match get_service(name) {
                Some(kind) => v.push(kind),
                None => {},
            }
            v
        },
        None => get_all_services(),
    };
    let mut r: Vec<(String, Vec<TestScenario>)> = Vec::new();
    let mut i: usize = 0;
    while i < services.len()
        invariant
            i <= services.len(),
            r.len() == i,
            forall|k: int|
                0 <= k < i ==> listing_view(#[trigger] r@[k]) == listing_of(services@[k]),
        decreases services.len() - i,
    {
        let kind = services[i];
        r.push((kind.display_name().to_owned(), kind.list_scenarios()));
        i += 1;
    }
    assert(listings_view(r@) =~= listings_for(
        match service_name {
            Some(n) => Some(n@),
            None => None,
        },
    ));
    r
}

/// The note that a scenario requires input; empty where it requires none.
pub open spec fn input_marker(s: TestScenarioView) -> Seq<char> {
    if s.requires_input {
        " [requires "@ + input_name(s.input_type) + "]"@
    } else {
        Seq::empty()
    }
}

/// The line of one scenario.
pub open spec fn scenario_line(s: TestScenarioView) -> Seq<SpanView> {
    seq![
        plain("  "@),
        tinted(Tint::Cyan, s.id),
        plain(" - "@),
        plain(s.description),
        tinted(Tint::Dim, input_marker(s)),
        plain("\n"@),
    ]
}

/// The lines of the scenarios of a service, in order.
pub open spec fn scenario_lines(scenarios: Seq<TestScenarioView>) -> Seq<SpanView>
    decreases scenarios.len(),
{
    if scenarios.len() == 0 {
        Seq::empty()
    } else {
        scenario_lines(scenarios.drop_last()) + scenario_line(scenarios.last())
    }
}

/// A rule of dashes, one for each byte of a name in UTF-8.
pub open spec fn rule_for(name: Seq<char>) -> Seq<char> {
    Seq::new(encode_utf8(name).len(), |i: int| '-')
}

/// The lines of one listing: the name of the service, a rule below it, its
/// scenarios, and an empty line.
pub open spec fn listing_block(l: ListingView) -> Seq<SpanView> {
    seq![tinted(Tint::Bold, l.service), plain("\n"@), plain(rule_for(l.service)), plain("\n"@)]
        + scenario_lines(l.scenarios) + seq![plain("\n"@)]
}

/// The lines of the listings, in order.
pub open spec fn listing_blocks(listings: Seq<ListingView>) -> Seq<SpanView>
    decreases listings.len(),
{
    if listings.len() == 0 {
        Seq::empty()
    } else {
        listing_blocks(listings.drop_last()) + listing_block(listings.last())
    }
}

/// The scenarios as pieces of text: a title and the listings.
pub open spec fn scenarios_layout(listings: Seq<ListingView>) -> Seq<SpanView> {
    seq![plain("\nAvailable Test Scenarios\n"@), plain("========================\n\n"@)]
        + listing_blocks(listings)
}

fn rule(name: &str) -> (r: String)
    ensures
        r@ == rule_for(name@),
{
    let n = name.as_bytes().len();
    let mut r = String::new();
    let mut i: usize = 0;
    while i < n
        invariant
            i <= n,
            r@ == Seq::new(i as nat, |k: int| '-'),
        decreases n - i,
    {
        r.push('-');
        assert(r@ =~= Seq::new((i + 1) as nat, |k: int| '-'));
        i += 1;
    }
    r
}

fn scenario_spans(s: &TestScenario) -> (r: Vec<Span>)
    ensures
        spans_view(r@) == scenario_line(s@),
{
    let mut marker = String::new();
    if s.requires_input {
        marker.append(" [requires ");
        match s.input_type {
            Some(t) => marker.append(t.name()),
            None => {},
        }
        marker.append("]");
        assert(marker@ =~= " [requires "@ + input_name(s.input_type) + "]"@);
    }
    let mut b: Vec<Span> = Vec::new();
    push_text(&mut b, "  ");
    push_span(&mut b, Tint::Cyan, s.id);
    push_text(&mut b, " - ");
    push_text(&mut b, s.description);
    push_span(&mut b, Tint::Dim, marker.as_str());
    push_text(&mut b, "\n");
    assert(spans_view(b@) =~= scenario_line(s@));
    b
}

fn listing_spans(listing: &(String, Vec<TestScenario>)) -> (r: Vec<Span>)
    ensures
        spans_view(r@) == listing_block(listing_view(*listing)),
{
    let ghost all = scenarios_view(listing.1@);
    let mut b: Vec<Span> = Vec::new();
    push_span(&mut b, Tint::Bold, listing.0.as_str());
    push_text(&mut b, "\n");
    push_text(&mut b, rule(listing.0.as_str()).as_str());
    push_text(&mut b, "\n");
    let ghost head = spans_view(b@);
    assert(head =~= seq![
        tinted(Tint::Bold, listing.0@),
        plain("\n"@),
        plain(rule_for(listing.0@)),
        plain("\n"@),
    ]);
    let mut i: usize = 0;
    assert(all.take(0) =~= Seq::<TestScenarioView>::empty());
    assert(head + Seq::<SpanView>::empty() =~= head);
    while i < listing.1.len()
        invariant
            i <= listing.1.len(),
            all == scenarios_view(listing.1@),
            spans_view(b@) == head + scenario_lines(all.take(i as int)),
        decreases listing.1.len() - i,
    {
        assert(all.take(i + 1).drop_last() =~= all.take(i as int));
        extend(&mut b, scenario_spans(&listing.1[i]));
        assert(spans_view(b@) =~= head + scenario_lines(all.take(i + 1)));
        i += 1;
    }
    assert(all.take(listing.1.len() as int) =~= all);
    push_text(&mut b, "\n");
    assert(spans_view(b@) =~= listing_block(listing_view(*listing)));
    b
}

/// The scenarios as pieces of text with their looks.
pub fn scenarios_spans(scenarios: &Vec<(String, Vec<TestScenario>)>) -> (r: Vec<Span>)
    ensures
        spans_view(r@) == scenarios_layout(listings_view(scenarios@)),
{
    let ghost all = listings_view(scenarios@);
    let mut b: Vec<Span> = Vec::new();
    push_text(&mut b, "\nAvailable Test Scenarios\n");
    push_text(&mut b, "========================\n\n");
    let ghost head = spans_view(b@);
    assert(head =~= seq![
        plain("\nAvailable Test Scenarios\n"@),
        plain("========================\n\n"@),
    ]);
    let mut i: usize = 0;
    assert(all.take(0) =~= Seq::<ListingView>::empty());
    assert(head + Seq::<SpanView>::empty() =~= head);
    while i < scenarios.len()
        invariant
            i <= scenarios.len(),
            all == listings_view(scenarios@),
            spans_view(b@) == head + listing_blocks(all.take(i as int)),
        decreases scenarios.len() - i,
    {
        assert(all.take(i + 1).drop_last() =~= all.take(i as int));
        extend(&mut b, listing_spans(&scenarios[i]));
        assert(spans_view(b@) =~= head + listing_blocks(all.take(i + 1)));
        i += 1;
    }
    assert(all.take(scenarios.len() as int) =~= all);
    b
}

/// Format scenarios for display: each piece of the layout, shown with its
/// look as far as the terminal library gives it one.
pub fn format_scenarios(scenarios: &Vec<(String, Vec<TestScenario>)>) -> (r: String)
    ensures
        exists|pieces: Seq<Seq<char>>| #[trigger]
            shows(pieces, scenarios_layout(listings_view(scenarios@))) && r@ == joined(pieces),
{
    let spans = scenarios_spans(scenarios);
    render(&spans)
}

/// The notice that the run uses a token from the cache on disk.
pub open spec fn cached_lines(minutes: int) -> Seq<SpanView> {
    seq![
        plain("  "@),
        tinted(Tint::Cyan, "[*]"@),
        plain(" Using cached token ("@),
        plain(signed_decimal(minutes)),
        plain(" minutes remaining)\n"@),
    ]
}

/// The notice that the run uses a token from the cache on disk, with the
/// minutes it still lasts, as pieces of text.
pub fn cached_notice(minutes: i64) -> (r: Vec<Span>)
    ensures
        spans_view(r@) == cached_lines(minutes as int),
{
    let mut b: Vec<Span> = Vec::new();
    push_text(&mut b, "  ");
    push_span(&mut b, Tint::Cyan, "[*]");
    push_text(&mut b, " Using cached token (");
    push_text(&mut b, i64_to_decimal(minutes).as_str());
    push_text(&mut b, " minutes remaining)\n");
    assert(spans_view(b@) =~= cached_lines(minutes as int));
    b
}

/// What is shown while a service is tested.
pub fn progress_message(service_name: &str) -> (r: String)
    ensures
        r@ == "Testing "@ + service_name@,
{
    let mut r = "Testing ".to_owned();
    r.append(service_name);
    r
}

/// What is shown, in verbose mode, for a name that no service has.
pub fn unknown_service_note(service_name: &str) -> (r: String)
    ensures
        r@ == "Unknown service: "@ + service_name@,
{
    let mut r = "Unknown service: ".to_owned();
    r.append(service_name);
    r
}

/// The results of one service: its display name, the endpoint that was
/// tested, the results of its scenarios and the time they took together.
pub fn service_results(
    kind: ServiceKind,
    context: &TestContext,
    results: Vec<crate::services::TestResult>,
    total_duration_ms: u64,
) -> (r: crate::services::ServiceTestResults)
    ensures
        r@ == (crate::services::ServiceTestResultsView {
            service_name: kind.display_name_text(),
            endpoint: kind.endpoint_text(context@.region, context@.cloud, context@.endpoint),
            results: crate::services::results_view(results@),
            total_duration_ms,
        }),
{
    crate::services::ServiceTestResults {
        service_name: kind.display_name().to_owned(),
        endpoint: kind.get_endpoint(
            context.region.as_str(),
            context.cloud,
            match &context.endpoint {
                Some(e) => Some(e.as_str()),
                None => None,
            },
        ),
        results,
        total_duration_ms,
    }
}

} // verus!
