//! The error taxonomy of the tool: what can go wrong, which exit status it
//! maps to, and which guidance the operator is shown.

use crate::text::{chars_of, contains, decimal, str_contains, string_of_range, u64_to_decimal};
use vstd::prelude::*;
use vstd::string::*;

verus! {

/// Longest error text, in bytes of UTF-8, that is shown in full.
pub const MAX_ERROR_LEN: usize = 200;

pub const HINT_TENANT: &'static str =
    "Use --tenant YOUR_TENANT_ID or set AZURE_USER_TENANT_ID environment variable.\n  Find your tenant ID: Azure Portal > Microsoft Entra ID > Overview > Tenant ID";

pub const HINT_TOKEN_EMPTY: &'static str =
    "Provide a token with --bearer-token TOKEN or set AZURE_BEARER_TOKEN.\n  Get a token interactively: azure-aitoolsconnect login --tenant YOUR_TENANT_ID";

pub const HINT_TOKEN_INVALID: &'static str =
    "Ensure you are using a valid JWT token (they typically start with 'eyJ').\n  Get a fresh token: azure-aitoolsconnect login --tenant YOUR_TENANT_ID";

pub const HINT_DEVICE_EXPIRED: &'static str =
    "The device code expired before sign-in completed. Run the command again\n  and complete the sign-in within the time limit shown.";

pub const HINT_DEVICE_DECLINED: &'static str =
    "Authorization was denied. Ensure your account has the 'Cognitive Services User'\n  RBAC role assigned on the target Azure AI resource.";

pub const HINT_DEVICE_OTHER: &'static str =
    "Check your network connection and tenant ID. If the issue persists, verify\n  the tenant allows device code authentication in Entra ID settings.";

pub const HINT_AUTH_REJECTED: &'static str =
    "Authentication was rejected. For bearer token auth, ensure:\n  1. Use a custom subdomain endpoint (--endpoint https://YOUR-RESOURCE.cognitiveservices.azure.com)\n  2. The 'Cognitive Services User' RBAC role is assigned to your identity\n  3. Your token has not expired (get a fresh one with: azure-aitoolsconnect login)";

pub const HINT_AUTH_API_KEY: &'static str =
    "Set an API key with --api-key YOUR_KEY or AZURE_AI_API_KEY environment variable.\n  Or use interactive login: azure-aitoolsconnect test --auth device-code --tenant YOUR_TENANT_ID";

pub const HINT_CONFIG_API_KEY: &'static str =
    "Set an API key with --api-key YOUR_KEY or AZURE_AI_API_KEY environment variable.\n  For interactive login: azure-aitoolsconnect test --auth device-code --tenant YOUR_TENANT_ID\n  To create a config file: azure-aitoolsconnect init";

pub const HINT_MANAGED_IDENTITY: &'static str =
    "Managed identity is only available in Azure environments (VM, App Service, etc.).\n  For local development, use: azure-aitoolsconnect test --auth device-code --tenant YOUR_TENANT_ID";

pub const HINT_DNS: &'static str =
    "DNS resolution failed. Check your network connection and proxy settings.\n  Run diagnostics: azure-aitoolsconnect diagnose --dns --region YOUR_REGION";

pub const HINT_NETWORK: &'static str =
    "Check your network connection. If behind a proxy or firewall, ensure Azure\n  endpoints are accessible. Run: azure-aitoolsconnect diagnose --region YOUR_REGION";

pub const HINT_CONFIG_FILE: &'static str =
    "Create a config file: azure-aitoolsconnect init\n  Or specify a path: azure-aitoolsconnect --config /path/to/config.toml";

/// The number of bytes that UTF-8 takes for one character.
pub open spec fn utf8_width(c: char) -> nat {
    if (c as u32) < 0x80 {
        1
    } else if (c as u32) < 0x800 {
        2
    } else if (c as u32) < 0x10000 {
        3
    } else {
        4
    }
}

/// The number of bytes that UTF-8 takes for a text.
pub open spec fn utf8_len(s: Seq<char>) -> nat
    decreases s.len(),
{
    if s.len() == 0 {
        0
    } else {
        utf8_len(s.drop_last()) + utf8_width(s.last())
    }
}

/// How many leading characters of `s` fit, whole, into `limit` bytes of
/// UTF-8.
pub open spec fn fitting_chars(s: Seq<char>, limit: nat) -> nat
    decreases s.len(),
{
    if s.len() == 0 || utf8_len(s) <= limit {
        s.len()
    } else {
        fitting_chars(s.drop_last(), limit)
    }
}

/// A response body prepared for display, with its HTTP status: a status of
/// 500 or above gives a fixed text that hides the body, and a body of more
/// than 200 bytes is cut after the last whole character that ends within
/// 200 bytes, with a mark that it was cut. Where a character ends with byte
/// 200 the cut is after byte 200.
pub open spec fn sanitized(body: Seq<char>, status: u16) -> Seq<char> {
    if status >= 500 {
        "Server error (HTTP "@ + decimal(status as nat) + ")"@
    } else if utf8_len(body) > MAX_ERROR_LEN {
        body.take(fitting_chars(body, MAX_ERROR_LEN as nat) as int) + "... (truncated)"@
    } else {
        body
    }
}

proof fn lemma_utf8_len_take(s: Seq<char>, i: int)
    requires
        0 <= i < s.len(),
    ensures
        utf8_len(s.take(i + 1)) == utf8_len(s.take(i)) + utf8_width(s[i]),
{
    assert(s.take(i + 1).drop_last() =~= s.take(i));
}

proof fn lemma_utf8_len_monotone(s: Seq<char>, i: int, j: int)
    requires
        0 <= i <= j <= s.len(),
    ensures
        utf8_len(s.take(i)) <= utf8_len(s.take(j)),
    decreases j - i,
{
    if i < j {
        lemma_utf8_len_take(s, j - 1);
        lemma_utf8_len_monotone(s, i, j - 1);
    }
}

proof fn lemma_fitting_chars(s: Seq<char>, limit: nat, n: int)
    requires
        0 <= n <= s.len(),
        utf8_len(s.take(n)) <= limit,
        n < s.len() ==> utf8_len(s.take(n + 1)) > limit,
    ensures
        fitting_chars(s, limit) == n,
    decreases s.len(),
{
    assert(s.take(s.len() as int) =~= s);
    if s.len() == 0 {
    } else if n == s.len() {
    } else {
        lemma_utf8_len_monotone(s, n + 1, s.len() as int);
        let t = s.drop_last();
        assert(t.take(n) =~= s.take(n));
        if n < t.len() {
            assert(t.take(n + 1) =~= s.take(n + 1));
        }
        lemma_fitting_chars(t, limit, n);
    }
}

fn width_of(c: char) -> (w: usize)
    ensures
        w == utf8_width(c),
        1 <= w <= 4,
{
    let v: u32 = c as u32;
    if v < 0x80 {
        1
    } else if v < 0x800 {
        2
    } else if v < 0x10000 {
        3
    } else {
        4
    }
}

/// Whether a body can be prepared for display without cutting a character
/// in two: the status is 500 or above, so that the body is hidden; or the
/// body has no more than 200 bytes, so that nothing is cut; or a character
/// of the body ends with byte 200.
pub open spec fn cut_is_clean(body: Seq<char>, status: u16) -> bool {
    status >= 500 || utf8_len(body) <= MAX_ERROR_LEN || utf8_len(
        body.take(fitting_chars(body, MAX_ERROR_LEN as nat) as int),
    ) == MAX_ERROR_LEN
}

/// The body prepared for display by `sanitized`, and whether that cut no
/// character in two.
pub(crate) fn prepared(body: &str, status: u16) -> (r: (String, bool))
    ensures
        r.0@ == sanitized(body@, status),
        r.1 == cut_is_clean(body@, status),
{
    if status >= 500 {
        let mut r = "Server error (HTTP ".to_owned();
        let n = u64_to_decimal(status as u64);
        r.append(n.as_str());
        r.append(")");
        return (r, true);
    }
    let v = chars_of(body);
    let mut n: usize = 0;
    let mut bytes: usize = 0;
    assert(v@.take(0) =~= Seq::<char>::empty());
    while n < v.len() && bytes + width_of(v[n]) <= MAX_ERROR_LEN
        invariant
            n <= v.len(),
            bytes == utf8_len(v@.take(n as int)),
            bytes <= MAX_ERROR_LEN,
        decreases v.len() - n,
    {
        proof {
            lemma_utf8_len_take(v@, n as int);
        }
        bytes = bytes + width_of(v[n]);
        n += 1;
    }
    proof {
        assert(v@.take(v@.len() as int) =~= v@);
        if n < v.len() {
            lemma_utf8_len_take(v@, n as int);
            lemma_utf8_len_monotone(v@, n + 1, v@.len() as int);
        }
        lemma_fitting_chars(v@, MAX_ERROR_LEN as nat, n as int);
    }
    if n < v.len() {
        let mut r = string_of_range(&v, 0, n);
        assert(v@.subrange(0, n as int) =~= v@.take(n as int));
        r.append("... (truncated)");
        (r, bytes == MAX_ERROR_LEN)
    } else {
        (body.to_owned(), true)
    }
}

/// Prepares a response body for display: a status of 500 or above gives a
/// fixed text that hides the body, and a body of more than 200 bytes is cut
/// after byte 200, with a mark that it was cut. A body of more than 200
/// bytes in which a character lies across byte 200 cannot be cut there and
/// is not taken; `sanitize_error_checked` takes every body.
pub fn sanitize_error(body: &str, status: u16) -> (r: String)
    requires
        cut_is_clean(body@, status),
    ensures
        r@ == sanitized(body@, status),
        status < 500 && utf8_len(body@) > MAX_ERROR_LEN ==> utf8_len(
            body@.take(fitting_chars(body@, MAX_ERROR_LEN as nat) as int),
        ) == MAX_ERROR_LEN,
{
    prepared(body, status).0
}

/// Prepares a response body for display where that cuts no character in
/// two, as `sanitize_error` does; for any other body there is no result.
pub fn sanitize_error_checked(body: &str, status: u16) -> (r: Option<String>)
    ensures
        match r {
            Some(text) => cut_is_clean(body@, status) && text@ == sanitized(body@, status),
            None => !cut_is_clean(body@, status),
        },
{
    let (text, clean) = prepared(body, status);
    if clean {
        Some(text)
    } else {
        None
    }
}

/// The exit status of the process.
#[derive(Debug, Clone, Copy, PartialEq, Eq, Structural)]
pub enum ExitCode {
    /// All tests passed.
    Success,
    /// Some tests failed.
    TestFailure,
    /// Authentication failure.
    AuthFailure,
    /// Network failure.
    NetworkFailure,
    /// Configuration error.
    ConfigError,
    /// Invalid input.
    InvalidInput,
}

impl ExitCode {
    /// The number handed to the operating system.
    pub open spec fn number(self) -> int {
        match self {
            ExitCode::Success => 0,
            ExitCode::TestFailure => 1,
            ExitCode::AuthFailure => 2,
            ExitCode::NetworkFailure => 3,
            ExitCode::ConfigError => 4,
            ExitCode::InvalidInput => 5,
        }
    }

    /// The number handed to the operating system.
    pub fn code(&self) -> (r: i32)
        ensures
            r == self.number(),
    {
        match self {
            ExitCode::Success => 0,
            ExitCode::TestFailure => 1,
            ExitCode::AuthFailure => 2,
            ExitCode::NetworkFailure => 3,
            ExitCode::ConfigError => 4,
            ExitCode::InvalidInput => 5,
        }
    }
}

impl From<ExitCode> for i32 {
    fn from(code: ExitCode) -> (r: i32) {
        code.code()
    }
}

impl vstd::std_specs::convert::FromSpecImpl<ExitCode> for i32 {
    open spec fn obeys_from_spec() -> bool {
        true
    }

    open spec fn from_spec(code: ExitCode) -> i32 {
        code.number() as i32
    }
}

/// Everything that can go wrong. A variant that stands for a failure inside
/// another component holds that component's message as text.
#[derive(Debug)]
pub enum AppError {
    Config(String),
    Auth(String),
    Network(String),
    Service { service: String, message: String },
    InvalidInput(String),
    Io(String),
    Http(String),
    Json(String),
    TomlParse(String),
    UrlParse(String),
    TestFailed { scenario: String, reason: String },
    FileNotFound(String),
    Timeout(String),
    DeviceCodeAuthFailed(String),
    ManagedIdentityNotAvailable(String),
    InvalidBearerToken(String),
    MissingTenantId,
}

/// An error with its texts as sequences of characters.
pub ghost enum AppErrorView {
    Config(Seq<char>),
    Auth(Seq<char>),
    Network(Seq<char>),
    Service { service: Seq<char>, message: Seq<char> },
    InvalidInput(Seq<char>),
    Io(Seq<char>),
    Http(Seq<char>),
    Json(Seq<char>),
    TomlParse(Seq<char>),
    UrlParse(Seq<char>),
    TestFailed { scenario: Seq<char>, reason: Seq<char> },
    FileNotFound(Seq<char>),
    Timeout(Seq<char>),
    DeviceCodeAuthFailed(Seq<char>),
    ManagedIdentityNotAvailable(Seq<char>),
    InvalidBearerToken(Seq<char>),
    MissingTenantId,
}

impl View for AppError {
    type V = AppErrorView;

    open spec fn view(&self) -> AppErrorView {
        match self {
            AppError::Config(m) => AppErrorView::Config(m@),
            AppError::Auth(m) => AppErrorView::Auth(m@),
            AppError::Network(m) => AppErrorView::Network(m@),
            AppError::Service { service, message } => AppErrorView::Service {
                service: service@,
                message: message@,
            },
            AppError::InvalidInput(m) => AppErrorView::InvalidInput(m@),
            AppError::Io(m) => AppErrorView::Io(m@),
            AppError::Http(m) => AppErrorView::Http(m@),
            AppError::Json(m) => AppErrorView::Json(m@),
            AppError::TomlParse(m) => AppErrorView::TomlParse(m@),
            AppError::UrlParse(m) => AppErrorView::UrlParse(m@),
            AppError::TestFailed { scenario, reason } => AppErrorView::TestFailed {
                scenario: scenario@,
                reason: reason@,
            },
            AppError::FileNotFound(m) => AppErrorView::FileNotFound(m@),
            AppError::Timeout(m) => AppErrorView::Timeout(m@),
            AppError::DeviceCodeAuthFailed(m) => AppErrorView::DeviceCodeAuthFailed(m@),
            AppError::ManagedIdentityNotAvailable(m) => AppErrorView::ManagedIdentityNotAvailable(
                m@,
            ),
            AppError::InvalidBearerToken(m) => AppErrorView::InvalidBearerToken(m@),
            AppError::MissingTenantId => AppErrorView::MissingTenantId,
        }
    }
}

impl AppErrorView {
    /// The exit status that an error maps to.
    pub open spec fn exit_code(self) -> ExitCode {
        match self {
            AppErrorView::Config(_) | AppErrorView::TomlParse(_) => ExitCode::ConfigError,
            AppErrorView::Auth(_)
            | AppErrorView::DeviceCodeAuthFailed(_)
            | AppErrorView::ManagedIdentityNotAvailable(_)
            | AppErrorView::InvalidBearerToken(_)
            | AppErrorView::MissingTenantId => ExitCode::AuthFailure,
            AppErrorView::Network(_) | AppErrorView::Http(_) | AppErrorView::Timeout(
                _,
            ) => ExitCode::NetworkFailure,
            AppErrorView::InvalidInput(_)
            | AppErrorView::FileNotFound(_)
            | AppErrorView::UrlParse(_)
            | AppErrorView::Io(_) => ExitCode::InvalidInput,
            AppErrorView::Service { .. }
            | AppErrorView::TestFailed { .. }
            | AppErrorView::Json(_) => ExitCode::TestFailure,
        }
    }

    /// The guidance shown with an error, where there is any.
    pub open spec fn hint(self) -> Option<Seq<char>> {
        match self {
            AppErrorView::MissingTenantId => Some(HINT_TENANT@),
            AppErrorView::InvalidBearerToken(m) => if contains(m, "empty"@) {
                Some(HINT_TOKEN_EMPTY@)
            } else {
                Some(HINT_TOKEN_INVALID@)
            },
            AppErrorView::DeviceCodeAuthFailed(m) => if contains(m, "timed out"@) || contains(
                m,
                "expired"@,
            ) {
                Some(HINT_DEVICE_EXPIRED@)
            } else if contains(m, "declined"@) {
                Some(HINT_DEVICE_DECLINED@)
            } else {
                Some(HINT_DEVICE_OTHER@)
            },
            AppErrorView::Auth(m) => if contains(m, "401"@) || contains(m, "403"@) || contains(
                m,
                "Unauthorized"@,
            ) {
                Some(HINT_AUTH_REJECTED@)
            } else if contains(m, "API key"@) || contains(m, "api key"@) {
                Some(HINT_AUTH_API_KEY@)
            } else {
                None
            },
            AppErrorView::Config(m) => if contains(m, "tenant_id required"@) {
                Some(HINT_TENANT@)
            } else if contains(m, "bearer_token required"@) {
                Some(HINT_TOKEN_EMPTY@)
            } else if contains(m, "managed identity provider required"@) {
                Some(HINT_MANAGED_IDENTITY@)
            } else if contains(m, "API key"@) || contains(m, "not configured"@) {
                Some(HINT_CONFIG_API_KEY@)
            } else {
                None
            },
            AppErrorView::ManagedIdentityNotAvailable(_) => Some(HINT_MANAGED_IDENTITY@),
            AppErrorView::Network(m) => if contains(m, "dns"@) || contains(m, "resolve"@)
                || contains(m, "DNS"@) {
                Some(HINT_DNS@)
            } else {
                Some(HINT_NETWORK@)
            },
            AppErrorView::Http(_) | AppErrorView::Timeout(_) => Some(HINT_NETWORK@),
            AppErrorView::FileNotFound(p) => if contains(p, "config"@) {
                Some(HINT_CONFIG_FILE@)
            } else {
                None
            },
            _ => None,
        }
    }

    /// The one-line description of an error.
    pub open spec fn message(self) -> Seq<char> {
        match self {
            AppErrorView::Config(m) => "Configuration error: "@ + m,
            AppErrorView::Auth(m) => "Authentication error: "@ + m,
            AppErrorView::Network(m) => "Network error: "@ + m,
            AppErrorView::Service { service, message } => "Service error: "@ + service + " - "@
                + message,
            AppErrorView::InvalidInput(m) => "Invalid input: "@ + m,
            AppErrorView::Io(m) => "IO error: "@ + m,
            AppErrorView::Http(m) => "HTTP error: "@ + m,
            AppErrorView::Json(m) => "JSON error: "@ + m,
            AppErrorView::TomlParse(m) => "TOML parse error: "@ + m,
            AppErrorView::UrlParse(m) => "URL parse error: "@ + m,
            AppErrorView::TestFailed { scenario, reason } => "Test scenario '"@ + scenario
                + "' failed: "@ + reason,
            AppErrorView::FileNotFound(m) => "File not found: "@ + m,
            AppErrorView::Timeout(m) => "Timeout: "@ + m,
            AppErrorView::DeviceCodeAuthFailed(m) => "Device code authentication failed: "@ + m,
            AppErrorView::ManagedIdentityNotAvailable(m) => "Managed identity not available: "@
                + m,
            AppErrorView::InvalidBearerToken(m) => "Invalid bearer token: "@ + m,
            AppErrorView::MissingTenantId => "User authentication requires tenant ID"@,
        }
    }
}

fn two_parts(a: &str, b: &str) -> (r: String)
    ensures
        r@ == a@ + b@,
{
    let mut r = a.to_owned();
    r.append(b);
    r
}

impl AppError {
    /// The exit status that this error maps to.
    pub fn exit_code(&self) -> (r: ExitCode)
        ensures
            r == self@.exit_code(),
    {
        match self {
            AppError::Config(_) | AppError::TomlParse(_) => ExitCode::ConfigError,
            AppError::Auth(_)
            | AppError::DeviceCodeAuthFailed(_)
            | AppError::ManagedIdentityNotAvailable(_)
            | AppError::InvalidBearerToken(_)
            | AppError::MissingTenantId => ExitCode::AuthFailure,
            AppError::Network(_) | AppError::Http(_) | AppError::Timeout(
                _,
            ) => ExitCode::NetworkFailure,
            AppError::InvalidInput(_)
            | AppError::FileNotFound(_)
            | AppError::UrlParse(_)
            | AppError::Io(_) => ExitCode::InvalidInput,
            AppError::Service { .. } | AppError::TestFailed { .. } | AppError::Json(
                _,
            ) => ExitCode::TestFailure,
        }
    }

    /// Guidance that helps the operator mend the cause, where there is any.
    pub fn hint(&self) -> (r: Option<&'static str>)
        ensures
            match r {
                Some(t) => self@.hint() == Some(t@),
                None => self@.hint() is None,
            },
    {
        match self {
            AppError::MissingTenantId => Some(HINT_TENANT),
            AppError::InvalidBearerToken(m) => {
                if str_contains(m.as_str(), "empty") {
                    Some(HINT_TOKEN_EMPTY)
                } else {
                    Some(HINT_TOKEN_INVALID)
                }
            },
            AppError::DeviceCodeAuthFailed(m) => {
                if str_contains(m.as_str(), "timed out") || str_contains(m.as_str(), "expired") {
                    Some(HINT_DEVICE_EXPIRED)
                } else if str_contains(m.as_str(), "declined") {
                    Some(HINT_DEVICE_DECLINED)
                } else {
                    Some(HINT_DEVICE_OTHER)
                }
            },
            AppError::Auth(m) => {
                if str_contains(m.as_str(), "401") || str_contains(m.as_str(), "403")
                    || str_contains(m.as_str(), "Unauthorized") {
                    Some(HINT_AUTH_REJECTED)
                } else if str_contains(m.as_str(), "API key") || str_contains(
                    m.as_str(),
                    "api key",
                ) {
                    Some(HINT_AUTH_API_KEY)
                } else {
                    None
                }
            },
            AppError::Config(m) => {
                if str_contains(m.as_str(), "tenant_id required") {
                    Some(HINT_TENANT)
                } else if str_contains(m.as_str(), "bearer_token required") {
                    Some(HINT_TOKEN_EMPTY)
                } else if str_contains(m.as_str(), "managed identity provider required") {
                    Some(HINT_MANAGED_IDENTITY)
                } else if str_contains(m.as_str(), "API key") || str_contains(
                    m.as_str(),
                    "not configured",
                ) {
                    Some(HINT_CONFIG_API_KEY)
                } else {
                    None
                }
            },
            AppError::ManagedIdentityNotAvailable(_) => Some(HINT_MANAGED_IDENTITY),
            AppError::Network(m) => {
                if str_contains(m.as_str(), "dns") || str_contains(m.as_str(), "resolve")
                    || str_contains(m.as_str(), "DNS") {
                    Some(HINT_DNS)
                } else {
                    Some(HINT_NETWORK)
                }
            },
            AppError::Http(_) | AppError::Timeout(_) => Some(HINT_NETWORK),
            AppError::FileNotFound(p) => {
                if str_contains(p.as_str(), "config") {
                    Some(HINT_CONFIG_FILE)
                } else {
                    None
                }
            },
            _ => None,
        }
    }

    /// The one-line description of this error.
    pub fn message(&self) -> (r: String)
        ensures
            r@ == self@.message(),
    {
        match self {
            AppError::Config(m) => two_parts("Configuration error: ", m.as_str()),
            AppError::Auth(m) => two_parts("Authentication error: ", m.as_str()),
            AppError::Network(m) => two_parts("Network error: ", m.as_str()),
            AppError::Service { service, message } => {
                let mut r = two_parts("Service error: ", service.as_str());
                r.append(" - ");
                r.append(message.as_str());
                r
            },
            AppError::InvalidInput(m) => two_parts("Invalid input: ", m.as_str()),
            AppError::Io(m) => two_parts("IO error: ", m.as_str()),
            AppError::Http(m) => two_parts("HTTP error: ", m.as_str()),
            AppError::Json(m) => two_parts("JSON error: ", m.as_str()),
            AppError::TomlParse(m) => two_parts("TOML parse error: ", m.as_str()),
            AppError::UrlParse(m) => two_parts("URL parse error: ", m.as_str()),
            AppError::TestFailed { scenario, reason } => {
                let mut r = two_parts("Test scenario '", scenario.as_str());
                r.append("' failed: ");
                r.append(reason.as_str());
                r
            },
            AppError::FileNotFound(m) => two_parts("File not found: ", m.as_str()),
            AppError::Timeout(m) => two_parts("Timeout: ", m.as_str()),
            AppError::DeviceCodeAuthFailed(m) => two_parts(
                "Device code authentication failed: ",
                m.as_str(),
            ),
            AppError::ManagedIdentityNotAvailable(m) => two_parts(
                "Managed identity not available: ",
                m.as_str(),
            ),
            AppError::InvalidBearerToken(m) => two_parts("Invalid bearer token: ", m.as_str()),
            AppError::MissingTenantId => "User authentication requires tenant ID".to_owned(),
        }
    }
}

} // verus!
