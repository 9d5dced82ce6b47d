//! Credential acquisition: the providers, the caches that keep their tokens
//! and the manager that picks one provider from the settings.
//!
//! Nothing here touches the network. A provider frames the request that has
//! to be sent and judges what came back; sending is left to the caller.

pub mod device_code;
pub mod interactive;
pub mod managed_identity;
pub mod manual_token;
pub mod oauth;
pub mod token_cache;

use crate::auth::device_code::{DeviceCodeAuth, DeviceCodeAuthView};
use crate::auth::interactive::{InteractiveAuth, InteractiveAuthView};
use crate::auth::managed_identity::{
    resource_text, ManagedIdentityAuth, ManagedIdentityAuthView, ManagedIdentityEnv,
    ManagedIdentityEnvView,
};
use crate::auth::manual_token::{ManualTokenAuth, MSG_TOKEN_EMPTY};
use crate::config::{
    AuthMethod, Cloud, EntraConfig, EntraConfigView, UserAuthConfig, UserAuthConfigView,
};
use crate::error::{AppError, AppErrorView};
use crate::text::{clone_opt, opt_view};
use crate::time::Timestamp;
use vstd::prelude::*;
use vstd::string::*;

verus! {

/// Seconds before its expiry from which a token in memory counts as expired.
pub const TOKEN_EXPIRY_BUFFER_SECS: u64 = 60;

/// Lifetime assumed for a cognitive token: nine of its ten minutes.
pub const COGNITIVE_TOKEN_LIFETIME_SECS: u64 = 540;

/// Azure CLI's well-known public client ID.
pub const AZURE_CLI_CLIENT_ID: &'static str = "04b07795-8ddb-461a-bbee-02f9e1bf7b46";

pub const API_KEY_HEADER: &'static str = "Ocp-Apim-Subscription-Key";

pub const AUTHORIZATION_HEADER: &'static str = "Authorization";

pub const TOKEN_ENDPOINT_PATH: &'static str = "/oauth2/v2.0/token";

/// Whether an HTTP status stands for success: 200 to 299.
pub fn is_success(status: u16) -> (r: bool)
    ensures
        r == (200 <= status < 300),
{
    200 <= status && status < 300
}

/// One name with its value: a form field or a header.
#[derive(Debug)]
pub struct Field {
    pub name: String,
    pub value: String,
}

impl View for Field {
    type V = (Seq<char>, Seq<char>);

    open spec fn view(&self) -> (Seq<char>, Seq<char>) {
        (self.name@, self.value@)
    }
}

/// The views of a list of fields, in order.
pub open spec fn fields_view(v: Seq<Field>) -> Seq<(Seq<char>, Seq<char>)> {
    v.map_values(|f: Field| f@)
}

pub(crate) fn field(name: &str, value: &str) -> (f: Field)
    ensures
        f@ == (name@, value@),
{
    Field { name: name.to_owned(), value: value.to_owned() }
}

/// A request that the caller has to send: a POST of form fields where
/// `form` is set, else a request without a body, with the given headers.
#[derive(Debug)]
pub struct Request {
    pub url: String,
    pub headers: Vec<Field>,
    pub form: Vec<Field>,
}

pub ghost struct RequestView {
    pub url: Seq<char>,
    pub headers: Seq<(Seq<char>, Seq<char>)>,
    pub form: Seq<(Seq<char>, Seq<char>)>,
}

impl View for Request {
    type V = RequestView;

    open spec fn view(&self) -> RequestView {
        RequestView {
            url: self.url@,
            headers: fields_view(self.headers@),
            form: fields_view(self.form@),
        }
    }
}

/// What came back for a request that asks for a token.
#[derive(Debug)]
pub enum TokenReply {
    /// The request could not be sent or no response arrived; the
    /// transport's message.
    SendFailed(String),
    /// The server answered with a status outside 200 to 299. `status` is the
    /// status as it is shown to the operator; `body` is the response body
    /// where it could be read.
    Refused { status: String, body: Option<String> },
    /// The server answered with success, but the body could not be read as
    /// a token; the reader's message.
    Malformed(String),
    /// The server granted a token that lasts `expires_in` seconds.
    Granted { access_token: String, expires_in: u64 },
}

pub ghost enum TokenReplyView {
    SendFailed(Seq<char>),
    Refused { status: Seq<char>, body: Option<Seq<char>> },
    Malformed(Seq<char>),
    Granted { access_token: Seq<char>, expires_in: u64 },
}

impl View for TokenReply {
    type V = TokenReplyView;

    open spec fn view(&self) -> TokenReplyView {
        match self {
            TokenReply::SendFailed(m) => TokenReplyView::SendFailed(m@),
            TokenReply::Refused { status, body } => TokenReplyView::Refused {
                status: status@,
                body: opt_view(*body),
            },
            TokenReply::Malformed(m) => TokenReplyView::Malformed(m@),
            TokenReply::Granted { access_token, expires_in } => TokenReplyView::Granted {
                access_token: access_token@,
                expires_in: *expires_in,
            },
        }
    }
}

/// The body of a refused request as it is shown: the body itself, or a
/// fixed text where it could not be read.
pub open spec fn shown_body(body: Option<Seq<char>>) -> Seq<char> {
    match body {
        Some(b) => b,
        None => "Unknown error"@,
    }
}

pub(crate) fn push_shown_body(message: &mut String, body: &Option<String>)
    ensures
        final(message)@ == old(message)@ + shown_body(opt_view(*body)),
{
    match body {
        Some(b) => message.append(b.as_str()),
        None => message.append("Unknown error"),
    }
}

/// The token endpoint of a tenant in a cloud.
pub open spec fn token_url_text(cloud: Cloud, tenant_id: Seq<char>) -> Seq<char> {
    cloud.login_endpoint_text() + "/"@ + tenant_id + TOKEN_ENDPOINT_PATH@
}

/// The token endpoint of a tenant in a cloud.
pub fn token_url(cloud: Cloud, tenant_id: &str) -> (r: String)
    ensures
        r@ == token_url_text(cloud, tenant_id@),
{
    let mut r = cloud.login_endpoint().to_owned();
    r.append("/");
    r.append(tenant_id);
    r.append(TOKEN_ENDPOINT_PATH);
    r
}

/// Cached token with expiry. `expires_at` counts nanoseconds on the clock
/// whose readings are handed to `TokenCache`.
#[derive(Debug)]
pub struct CachedToken {
    pub token: String,
    pub expires_at: i128,
}

impl CachedToken {
    /// Whether at `now` no more than `buffer_secs` seconds of lifetime are
    /// left.
    pub fn is_expired(&self, buffer_secs: u64, now: &Timestamp) -> (r: bool)
        ensures
            r == (now.total_nanos() + buffer_secs * 1_000_000_000 >= self.expires_at),
    {
        now.as_nanos() + (buffer_secs as i128) * 1_000_000_000 >= self.expires_at
    }
}

/// The in-memory token cache of one provider: a single slot.
#[derive(Debug)]
pub struct TokenCache {
    cached: Option<CachedToken>,
    buffer_secs: u64,
}

pub ghost struct TokenCacheView {
    /// The token in the slot with its expiry in nanoseconds, if any.
    pub slot: Option<(Seq<char>, int)>,
    pub buffer_secs: u64,
}

impl View for TokenCache {
    type V = TokenCacheView;

    closed spec fn view(&self) -> TokenCacheView {
        TokenCacheView {
            slot: match self.cached {
                Some(c) => Some((c.token@, c.expires_at as int)),
                None => None,
            },
            buffer_secs: self.buffer_secs,
        }
    }
}

impl TokenCacheView {
    /// What a read of the cache at `now` returns: the token in the slot
    /// while more than the buffer is left of its lifetime.
    pub open spec fn read(self, now: Timestamp) -> Option<Seq<char>> {
        match self.slot {
            Some((token, expires_at)) => if now.total_nanos() + self.buffer_secs * 1_000_000_000
                < expires_at {
                Some(token)
            } else {
                None
            },
            None => None,
        }
    }

    /// The cache after a token that lasts `expires_in_secs` from `now` was
    /// stored.
    pub open spec fn stored(self, token: Seq<char>, expires_in_secs: u64, now: Timestamp) -> TokenCacheView {
        TokenCacheView {
            slot: Some((token, now.total_nanos() + expires_in_secs * 1_000_000_000)),
            buffer_secs: self.buffer_secs,
        }
    }
}

impl TokenCache {
    /// An empty cache with the given buffer.
    pub fn new(buffer_secs: u64) -> (r: TokenCache)
        ensures
            r@ == (TokenCacheView { slot: None, buffer_secs }),
    {
        TokenCache { cached: None, buffer_secs }
    }

    /// A copy of the token in the slot, if it is valid at `now`.
    pub fn get(&self, now: &Timestamp) -> (r: Option<String>)
        ensures
            opt_view(r) == self@.read(*now),
    {
        match &self.cached {
            Some(c) => {
                if !c.is_expired(self.buffer_secs, now) {
                    Some(c.token.clone())
                } else {
                    None
                }
            },
            None => None,
        }
    }

    /// Replaces the slot, whatever it held, with a token that lasts
    /// `expires_in_secs` seconds from `now`.
    pub fn set(&mut self, token: String, expires_in_secs: u64, now: &Timestamp)
        ensures
            final(self)@ == old(self)@.stored(token@, expires_in_secs, *now),
    {
        let expires_at: i128 = now.as_nanos() + (expires_in_secs as i128) * 1_000_000_000;
        self.cached = Some(CachedToken { token, expires_at });
    }
}

/// A token that was stored is read back exactly while more than the buffer
/// is left of its lifetime, and never later.
pub proof fn law_memory_cache_expiry(
    cache: TokenCacheView,
    token: Seq<char>,
    expires_in_secs: u64,
    stored_at: Timestamp,
    now: Timestamp,
)
    ensures
        cache.stored(token, expires_in_secs, stored_at).read(now) == if now.total_nanos()
            + cache.buffer_secs * 1_000_000_000 < stored_at.total_nanos() + expires_in_secs
            * 1_000_000_000 {
            Some(token)
        } else {
            None
        },
{
}

/// Authentication credentials.
#[derive(Debug)]
pub enum Credentials {
    ApiKey(String),
    BearerToken(String),
}

pub ghost enum CredentialsView {
    ApiKey(Seq<char>),
    BearerToken(Seq<char>),
}

impl View for Credentials {
    type V = CredentialsView;

    open spec fn view(&self) -> CredentialsView {
        match self {
            Credentials::ApiKey(k) => CredentialsView::ApiKey(k@),
            Credentials::BearerToken(t) => CredentialsView::BearerToken(t@),
        }
    }
}

impl Clone for Credentials {
    fn clone(&self) -> (r: Credentials)
        ensures
            r@ == self@,
    {
        match self {
            Credentials::ApiKey(k) => Credentials::ApiKey(k.clone()),
            Credentials::BearerToken(t) => Credentials::BearerToken(t.clone()),
        }
    }
}

impl CredentialsView {
    /// The one header that carries these credentials.
    pub open spec fn header(self) -> (Seq<char>, Seq<char>) {
        match self {
            CredentialsView::ApiKey(k) => (API_KEY_HEADER@, k),
            CredentialsView::BearerToken(t) => (AUTHORIZATION_HEADER@, "Bearer "@ + t),
        }
    }
}

impl Credentials {
    /// The header to add to a request: `Ocp-Apim-Subscription-Key` with the
    /// key, or `Authorization` with `Bearer` and the token.
    pub fn header(&self) -> (f: Field)
        ensures
            f@ == self@.header(),
    {
        match self {
            Credentials::ApiKey(k) => field(API_KEY_HEADER, k.as_str()),
            Credentials::BearerToken(t) => {
                let mut v = "Bearer ".to_owned();
                v.append(t.as_str());
                field(AUTHORIZATION_HEADER, v.as_str())
            },
        }
    }

    /// Applies the credentials to a request, given by its headers: exactly
    /// one header is added, after those that are there, and none is changed.
    pub fn apply_to_request(&self, headers: &mut Vec<Field>)
        ensures
            fields_view(final(headers)@) == fields_view(old(headers)@).push(self@.header()),
    {
        headers.push(self.header());
        assert(fields_view(headers@) =~= fields_view(old(headers)@).push(self@.header()));
    }
}

/// What every provider can say of itself.
pub trait AuthProvider {
    /// Get the authentication method name.
    fn method_name(&self) -> (r: &'static str);
}

/// API Key authentication provider.
#[derive(Debug)]
pub struct ApiKeyAuth {
    api_key: String,
}

impl View for ApiKeyAuth {
    type V = Seq<char>;

    closed spec fn view(&self) -> Seq<char> {
        self.api_key@
    }
}

impl Clone for ApiKeyAuth {
    fn clone(&self) -> (r: ApiKeyAuth)
        ensures
            r@ == self@,
    {
        ApiKeyAuth { api_key: self.api_key.clone() }
    }
}

impl ApiKeyAuth {
    pub fn new(api_key: String) -> (r: ApiKeyAuth)
        ensures
            r@ == api_key@,
    {
        ApiKeyAuth { api_key }
    }

    /// The key as credentials.
    pub fn get_credentials(&self) -> (r: Credentials)
        ensures
            r@ == CredentialsView::ApiKey(self@),
    {
        Credentials::ApiKey(self.api_key.clone())
    }
}

impl AuthProvider for ApiKeyAuth {
    fn method_name(&self) -> (r: &'static str)
        ensures
            r@ == "API Key"@,
    {
        "API Key"
    }
}

/// Entra ID (Azure AD) token authentication provider: exchanges a client
/// secret for a short-lived token and keeps the token in memory.
#[derive(Debug)]
pub struct EntraTokenAuth {
    cloud: Cloud,
    tenant_id: String,
    client_id: String,
    client_secret: String,
    scope: String,
    token_cache: TokenCache,
}

pub ghost struct EntraTokenAuthView {
    pub cloud: Cloud,
    pub tenant_id: Seq<char>,
    pub client_id: Seq<char>,
    pub client_secret: Seq<char>,
    pub scope: Seq<char>,
    pub token_cache: TokenCacheView,
}

impl View for EntraTokenAuth {
    type V = EntraTokenAuthView;

    closed spec fn view(&self) -> EntraTokenAuthView {
        EntraTokenAuthView {
            cloud: self.cloud,
            tenant_id: self.tenant_id@,
            client_id: self.client_id@,
            client_secret: self.client_secret@,
            scope: self.scope@,
            token_cache: self.token_cache@,
        }
    }
}

impl EntraTokenAuthView {
    /// The provider that `EntraTokenAuth::new` builds from complete
    /// settings.
    pub open spec fn fresh(config: EntraConfigView, cloud: Cloud) -> EntraTokenAuthView {
        EntraTokenAuthView {
            cloud,
            tenant_id: config.tenant_id->0,
            client_id: config.client_id->0,
            client_secret: config.client_secret->0,
            scope: cloud.scope_text(),
            token_cache: TokenCacheView { slot: None, buffer_secs: TOKEN_EXPIRY_BUFFER_SECS },
        }
    }

    /// The request for a token with the client-credentials grant.
    pub open spec fn token_request(self) -> RequestView {
        RequestView {
            url: token_url_text(self.cloud, self.tenant_id),
            headers: Seq::empty(),
            form: seq![
                ("grant_type"@, "client_credentials"@),
                ("client_id"@, self.client_id),
                ("client_secret"@, self.client_secret),
                ("scope"@, self.scope),
            ],
        }
    }
}

/// What a reply to a client-credentials request means: the token with its
/// lifetime, or the authentication error that is reported.
pub open spec fn entra_outcome(reply: TokenReplyView) -> Result<(Seq<char>, u64), AppErrorView> {
    match reply {
        TokenReplyView::SendFailed(m) => Err(AppErrorView::Auth("Failed to request token: "@ + m)),
        TokenReplyView::Refused { status, body } => Err(
            AppErrorView::Auth(
                "Token request failed ("@ + status + "): "@ + shown_body(body),
            ),
        ),
        TokenReplyView::Malformed(m) => Err(
            AppErrorView::Auth("Failed to parse token response: "@ + m),
        ),
        TokenReplyView::Granted { access_token, expires_in } => Ok((access_token, expires_in)),
    }
}

/// The error for a missing part of the client-credentials settings, if one
/// is missing: tenant first, then client, then secret.
pub open spec fn entra_missing(config: EntraConfigView) -> Option<AppErrorView> {
    if config.tenant_id is None {
        Some(AppErrorView::Auth("Missing tenant_id for Entra auth"@))
    } else if config.client_id is None {
        Some(AppErrorView::Auth("Missing client_id for Entra auth"@))
    } else if config.client_secret is None {
        Some(AppErrorView::Auth("Missing client_secret for Entra auth"@))
    } else {
        None
    }
}

impl EntraTokenAuth {
    /// Builds the provider from settings that name tenant, client and
    /// secret; where one is missing, the error names the first that is.
    pub fn new(config: &EntraConfig, cloud: Cloud) -> (r: Result<EntraTokenAuth, AppError>)
        ensures
            match r {
                Ok(a) => entra_missing(config@) is None && a@ == EntraTokenAuthView::fresh(
                    config@,
                    cloud,
                ),
                Err(e) => entra_missing(config@) == Some(e@),
            },
    {
        let tenant_id = match &config.tenant_id {
            Some(t) => t.clone(),
            None => {
                return Err(AppError::Auth("Missing tenant_id for Entra auth".to_owned()));
            },
        };
        let client_id = match &config.client_id {
            Some(t) => t.clone(),
            None => {
                return Err(AppError::Auth("Missing client_id for Entra auth".to_owned()));
            },
        };
        let client_secret = match &config.client_secret {
            Some(t) => t.clone(),
            None => {
                return Err(AppError::Auth("Missing client_secret for Entra auth".to_owned()));
            },
        };
        Ok(
            EntraTokenAuth {
                cloud,
                tenant_id,
                client_id,
                client_secret,
                scope: cloud.cognitive_scope().to_owned(),
                token_cache: TokenCache::new(TOKEN_EXPIRY_BUFFER_SECS),
            },
        )
    }

    /// The request that asks for a token: one POST of form fields to the
    /// token endpoint of the tenant.
    pub fn token_request(&self) -> (r: Request)
        ensures
            r@ == self@.token_request(),
    {
        let mut form: Vec<Field> = Vec::new();
        form.push(field("grant_type", "client_credentials"));
        form.push(field("client_id", self.client_id.as_str()));
        form.push(field("client_secret", self.client_secret.as_str()));
        form.push(field("scope", self.scope.as_str()));
        let r = Request { url: token_url(self.cloud, self.tenant_id.as_str()), headers: Vec::new(), form };
        assert(r@.form =~= self@.token_request().form);
        assert(r@.headers =~= self@.token_request().headers);
        r
    }

    /// Judges the reply to the token request: the token with its lifetime in
    /// seconds, or the error to report. No reply is tried again.
    pub fn fetch_token(reply: TokenReply) -> (r: Result<(String, u64), AppError>)
        ensures
            match r {
                Ok((token, expires_in)) => entra_outcome(reply@) == Ok::<
                    (Seq<char>, u64),
                    AppErrorView,
                >((token@, expires_in)),
                Err(e) => entra_outcome(reply@) == Err::<(Seq<char>, u64), AppErrorView>(e@),
            },
    {
        match reply {
            TokenReply::SendFailed(m) => {
                let mut t = "Failed to request token: ".to_owned();
                t.append(m.as_str());
                Err(AppError::Auth(t))
            },
            TokenReply::Refused { status, body } => {
                let mut t = "Token request failed (".to_owned();
                t.append(status.as_str());
                t.append("): ");
                push_shown_body(&mut t, &body);
                Err(AppError::Auth(t))
            },
            TokenReply::Malformed(m) => {
                let mut t = "Failed to parse token response: ".to_owned();
                t.append(m.as_str());
                Err(AppError::Auth(t))
            },
            TokenReply::Granted { access_token, expires_in } => Ok((access_token, expires_in)),
        }
    }

    /// The credentials from the cache, where it holds a token that is valid
    /// at `now`. `None` means that a token has to be requested.
    pub fn cached_credentials(&self, now: &Timestamp) -> (r: Option<Credentials>)
        ensures
            match r {
                Some(c) => self@.token_cache.read(*now) matches Some(t) && c@
                    == CredentialsView::BearerToken(t),
                None => self@.token_cache.read(*now) is None,
            },
    {
        match self.token_cache.get(now) {
            Some(t) => Some(Credentials::BearerToken(t)),
            None => None,
        }
    }

    /// Takes the reply to the token request: a granted token is stored in
    /// the cache for its lifetime and returned as credentials; any failure
    /// is reported and leaves the cache as it was.
    pub fn get_credentials(&mut self, reply: TokenReply, now: &Timestamp) -> (r: Result<
        Credentials,
        AppError,
    >)
        ensures
            match r {
                Ok(c) => entra_outcome(reply@) matches Ok((token, expires_in)) && c@
                    == CredentialsView::BearerToken(token) && final(self)@ == (EntraTokenAuthView {
                    token_cache: old(self)@.token_cache.stored(token, expires_in, *now),
                    ..old(self)@
                }),
                Err(e) => entra_outcome(reply@) == Err::<(Seq<char>, u64), AppErrorView>(e@)
                    && final(self)@ == old(self)@,
            },
    {
        match EntraTokenAuth::fetch_token(reply) {
            Ok((token, expires_in)) => {
                self.token_cache.set(token.clone(), expires_in, now);
                Ok(Credentials::BearerToken(token))
            },
            Err(e) => Err(e),
        }
    }
}

impl AuthProvider for EntraTokenAuth {
    fn method_name(&self) -> (r: &'static str)
        ensures
            r@ == "Entra ID Token"@,
    {
        "Entra ID Token"
    }
}

/// What came back for a request whose answer is plain text.
#[derive(Debug)]
pub enum TextReply {
    /// The request could not be sent or no response arrived.
    SendFailed(String),
    /// The server answered with a status outside 200 to 299.
    Refused { status: String, body: Option<String> },
    /// The server answered with success, but the body could not be read.
    Unreadable(String),
    /// The body of a successful answer.
    Body(String),
}

pub ghost enum TextReplyView {
    SendFailed(Seq<char>),
    Refused { status: Seq<char>, body: Option<Seq<char>> },
    Unreadable(Seq<char>),
    Body(Seq<char>),
}

impl View for TextReply {
    type V = TextReplyView;

    open spec fn view(&self) -> TextReplyView {
        match self {
            TextReply::SendFailed(m) => TextReplyView::SendFailed(m@),
            TextReply::Refused { status, body } => TextReplyView::Refused {
                status: status@,
                body: opt_view(*body),
            },
            TextReply::Unreadable(m) => TextReplyView::Unreadable(m@),
            TextReply::Body(b) => TextReplyView::Body(b@),
        }
    }
}

/// Cognitive Services token exchange (API key -> short-lived token).
#[derive(Debug)]
pub struct CognitiveTokenAuth {
    api_key: String,
    token_endpoint: String,
    token_cache: TokenCache,
}

pub ghost struct CognitiveTokenAuthView {
    pub api_key: Seq<char>,
    pub token_endpoint: Seq<char>,
    pub token_cache: TokenCacheView,
}

impl View for CognitiveTokenAuth {
    type V = CognitiveTokenAuthView;

    closed spec fn view(&self) -> CognitiveTokenAuthView {
        CognitiveTokenAuthView {
            api_key: self.api_key@,
            token_endpoint: self.token_endpoint@,
            token_cache: self.token_cache@,
        }
    }
}

impl CognitiveTokenAuthView {
    /// The request that exchanges the key for a token.
    pub open spec fn exchange_request(self) -> RequestView {
        RequestView {
            url: self.token_endpoint,
            headers: seq![(API_KEY_HEADER@, self.api_key), ("Content-Length"@, "0"@)],
            form: Seq::empty(),
        }
    }
}

/// What a reply to the key exchange means: the token, or the authentication
/// error that is reported.
pub open spec fn exchange_outcome(reply: TextReplyView) -> Result<Seq<char>, AppErrorView> {
    match reply {
        TextReplyView::SendFailed(m) => Err(AppErrorView::Auth("Token exchange failed: "@ + m)),
        TextReplyView::Refused { status, body } => Err(
            AppErrorView::Auth(
                "Token exchange failed ("@ + status + "): "@ + shown_body(body),
            ),
        ),
        TextReplyView::Unreadable(m) => Err(AppErrorView::Auth("Failed to read token: "@ + m)),
        TextReplyView::Body(token) => Ok(token),
    }
}

impl CognitiveTokenAuth {
    /// The provider for a key in a region of a cloud, with an empty cache.
    pub fn new(api_key: String, region: &str, cloud: Cloud) -> (r: CognitiveTokenAuth)
        ensures
            r@ == (CognitiveTokenAuthView {
                api_key: api_key@,
                token_endpoint: cloud.token_endpoint_text(region@),
                token_cache: TokenCacheView { slot: None, buffer_secs: TOKEN_EXPIRY_BUFFER_SECS },
            }),
    {
        CognitiveTokenAuth {
            api_key,
            token_endpoint: cloud.cognitive_token_endpoint(region),
            token_cache: TokenCache::new(TOKEN_EXPIRY_BUFFER_SECS),
        }
    }

    /// The token from the cache, where it holds one that is valid at `now`.
    /// `None` means that the key has to be exchanged.
    pub fn cached_token(&self, now: &Timestamp) -> (r: Option<String>)
        ensures
            opt_view(r) == self@.token_cache.read(*now),
    {
        self.token_cache.get(now)
    }

    /// The request that exchanges the key for a token: an empty POST with
    /// the key in its header.
    pub fn exchange_request(&self) -> (r: Request)
        ensures
            r@ == self@.exchange_request(),
    {
        let mut headers: Vec<Field> = Vec::new();
        headers.push(field(API_KEY_HEADER, self.api_key.as_str()));
        headers.push(field("Content-Length", "0"));
        let r = Request { url: self.token_endpoint.clone(), headers, form: Vec::new() };
        assert(r@.headers =~= self@.exchange_request().headers);
        assert(r@.form =~= self@.exchange_request().form);
        r
    }

    /// Takes the reply to the key exchange: a token is stored in the cache
    /// for nine minutes and returned; any failure is reported and leaves
    /// the cache as it was.
    pub fn exchange_token(&mut self, reply: TextReply, now: &Timestamp) -> (r: Result<
        String,
        AppError,
    >)
        ensures
            match r {
                Ok(t) => exchange_outcome(reply@) == Ok::<Seq<char>, AppErrorView>(t@) && final(self)@ == (CognitiveTokenAuthView {
                    token_cache: old(self)@.token_cache.stored(
                        t@,
                        COGNITIVE_TOKEN_LIFETIME_SECS,
                        *now,
                    ),
                    ..old(self)@
                }),
                Err(e) => exchange_outcome(reply@) == Err::<Seq<char>, AppErrorView>(e@) && final(self)@ == old(self)@,
            },
    {
        match reply {
            TextReply::SendFailed(m) => {
                let mut t = "Token exchange failed: ".to_owned();
                t.append(m.as_str());
                Err(AppError::Auth(t))
            },
            TextReply::Refused { status, body } => {
                let mut t = "Token exchange failed (".to_owned();
                t.append(status.as_str());
                t.append("): ");
                push_shown_body(&mut t, &body);
                Err(AppError::Auth(t))
            },
            TextReply::Unreadable(m) => {
                let mut t = "Failed to read token: ".to_owned();
                t.append(m.as_str());
                Err(AppError::Auth(t))
            },
            TextReply::Body(token) => {
                self.token_cache.set(token.clone(), COGNITIVE_TOKEN_LIFETIME_SECS, now);
                Ok(token)
            },
        }
    }
}

impl AuthProvider for CognitiveTokenAuth {
    fn method_name(&self) -> (r: &'static str)
        ensures
            r@ == "Cognitive Token"@,
    {
        "Cognitive Token"
    }
}

/// The kinds of provider that the manager can hold.
#[derive(Debug, Clone, Copy, PartialEq, Eq, Structural)]
pub enum ProviderKind {
    ApiKey,
    Entra,
    ManualToken,
    ManagedIdentity,
    DeviceCode,
    Interactive,
}

/// Authentication manager that supports multiple auth methods. It holds the
/// providers whose prerequisites the settings meet and hands out the one
/// that the settings select.
#[derive(Debug)]
pub struct AuthManager {
    api_key: Option<ApiKeyAuth>,
    entra: Option<EntraTokenAuth>,
    manual_token: Option<ManualTokenAuth>,
    managed_identity: Option<ManagedIdentityAuth>,
    device_code: Option<DeviceCodeAuth>,
    interactive: Option<InteractiveAuth>,
    default_method: AuthMethod,
}

pub ghost struct AuthManagerView {
    pub api_key: Option<Seq<char>>,
    pub entra: Option<EntraTokenAuthView>,
    pub manual_token: Option<Seq<char>>,
    pub managed_identity: Option<ManagedIdentityAuthView>,
    pub device_code: Option<DeviceCodeAuthView>,
    pub interactive: Option<InteractiveAuthView>,
    pub default_method: AuthMethod,
}

impl View for AuthManager {
    type V = AuthManagerView;

    closed spec fn view(&self) -> AuthManagerView {
        AuthManagerView {
            api_key: match self.api_key {
                Some(a) => Some(a@),
                None => None,
            },
            entra: match self.entra {
                Some(a) => Some(a@),
                None => None,
            },
            manual_token: match self.manual_token {
                Some(a) => Some(a@),
                None => None,
            },
            managed_identity: match self.managed_identity {
                Some(a) => Some(a@),
                None => None,
            },
            device_code: match self.device_code {
                Some(a) => Some(a@),
                None => None,
            },
            interactive: match self.interactive {
                Some(a) => Some(a@),
                None => None,
            },
            default_method: self.default_method,
        }
    }
}

/// The tenant of the settings for the flows that sign a user in.
pub open spec fn user_tenant(user: Option<UserAuthConfigView>) -> Option<Seq<char>> {
    match user {
        Some(u) => u.tenant_id,
        None => None,
    }
}

/// The public client of the settings, if they name one.
pub open spec fn user_client(user: Option<UserAuthConfigView>) -> Option<Seq<char>> {
    match user {
        Some(u) => u.client_id,
        None => None,
    }
}

/// The bearer token of the settings, if they hold one.
pub open spec fn user_token(user: Option<UserAuthConfigView>) -> Option<Seq<char>> {
    match user {
        Some(u) => u.bearer_token,
        None => None,
    }
}

/// The client of the user-assigned identity, if the settings name one.
pub open spec fn user_identity_client(user: Option<UserAuthConfigView>) -> Option<Seq<char>> {
    match user {
        Some(u) => u.managed_identity_client_id,
        None => None,
    }
}

/// Whether the method signs a user in and so needs a tenant.
pub open spec fn needs_tenant(method: AuthMethod) -> bool {
    method == AuthMethod::DeviceCode || method == AuthMethod::Interactive
}

/// The configuration error that names what a method lacks: for the API
/// key, the client credentials and "both" that it is not configured, for
/// every other method the setting that the method requires, with the name
/// of the method.
pub open spec fn lacking(method: AuthMethod) -> AppErrorView {
    match method {
        AuthMethod::Key => AppErrorView::Config("API key not configured"@),
        AuthMethod::Token => AppErrorView::Config("Entra token auth not configured"@),
        AuthMethod::Both => AppErrorView::Config("No authentication configured"@),
        AuthMethod::DeviceCode | AuthMethod::Interactive => AppErrorView::Config(
            "tenant_id required for "@ + method.name_text(),
        ),
        AuthMethod::ManagedIdentity => AppErrorView::Config(
            "managed identity provider required for "@ + method.name_text(),
        ),
        AuthMethod::ManualToken => AppErrorView::Config(
            "bearer_token required for "@ + method.name_text(),
        ),
    }
}

/// The configuration error that names what a method lacks.
pub fn lacking_error(method: AuthMethod) -> (e: AppError)
    ensures
        e@ == lacking(method),
        e@ is Config,
        e@.exit_code() == crate::error::ExitCode::ConfigError,
{
    match method {
        AuthMethod::Key => AppError::Config("API key not configured".to_owned()),
        AuthMethod::Token => AppError::Config("Entra token auth not configured".to_owned()),
        AuthMethod::Both => AppError::Config("No authentication configured".to_owned()),
        AuthMethod::DeviceCode | AuthMethod::Interactive => {
            let mut m = "tenant_id required for ".to_owned();
            m.append(method.name());
            AppError::Config(m)
        },
        AuthMethod::ManagedIdentity => {
            let mut m = "managed identity provider required for ".to_owned();
            m.append(method.name());
            AppError::Config(m)
        },
        AuthMethod::ManualToken => {
            let mut m = "bearer_token required for ".to_owned();
            m.append(method.name());
            AppError::Config(m)
        },
    }
}

impl AuthManagerView {
    /// Why no manager can be built from the settings, if that is so: a
    /// bearer token that is empty, or a method that signs a user in without
    /// a tenant. The second is a configuration error that names `tenant_id`
    /// and the method.
    pub open spec fn refusal(user: Option<UserAuthConfigView>, method: AuthMethod) -> Option<
        AppErrorView,
    > {
        if user_token(user) is Some && user_token(user)->0.len() == 0 {
            Some(AppErrorView::InvalidBearerToken(MSG_TOKEN_EMPTY@))
        } else if needs_tenant(method) && user_tenant(user) is None {
            Some(lacking(method))
        } else {
            None
        }
    }

    /// The manager that is built from settings that are not refused. A
    /// provider is there exactly where all it needs is given:
    /// - the API key provider with an API key;
    /// - the client-credentials provider with tenant, client and secret;
    /// - the manual provider with a bearer token;
    /// - managed identity, device code and the interactive flow only as the
    ///   selected method.
    pub open spec fn built(
        api_key: Option<Seq<char>>,
        entra: Option<EntraConfigView>,
        user: Option<UserAuthConfigView>,
        cloud: Cloud,
        method: AuthMethod,
        quiet: bool,
        env: ManagedIdentityEnvView,
    ) -> AuthManagerView {
        AuthManagerView {
            api_key,
            entra: if entra is Some && entra->0.complete() {
                Some(EntraTokenAuthView::fresh(entra->0, cloud))
            } else {
                None
            },
            manual_token: user_token(user),
            managed_identity: if method == AuthMethod::ManagedIdentity {
                Some(
                    ManagedIdentityAuthView {
                        endpoint: env.endpoint(),
                        resource: resource_text(cloud),
                        user_assigned_client_id: user_identity_client(user),
                    },
                )
            } else {
                None
            },
            device_code: if method == AuthMethod::DeviceCode {
                Some(
                    DeviceCodeAuthView {
                        tenant_id: user_tenant(user)->0,
                        client_id: crate::auth::device_code::client_or_default(user_client(user)),
                        scope: cloud.scope_text(),
                        cloud,
                        quiet,
                    },
                )
            } else {
                None
            },
            interactive: if method == AuthMethod::Interactive {
                Some(
                    InteractiveAuthView {
                        tenant_id: user_tenant(user)->0,
                        client_id: crate::auth::device_code::client_or_default(user_client(user)),
                        scope: cloud.scope_text(),
                        cloud,
                        quiet,
                    },
                )
            } else {
                None
            },
            default_method: method,
        }
    }

    /// The kind of provider that a method asks for first.
    pub open spec fn wanted(method: AuthMethod) -> ProviderKind {
        match method {
            AuthMethod::Key | AuthMethod::Both => ProviderKind::ApiKey,
            AuthMethod::Token => ProviderKind::Entra,
            AuthMethod::DeviceCode => ProviderKind::DeviceCode,
            AuthMethod::Interactive => ProviderKind::Interactive,
            AuthMethod::ManagedIdentity => ProviderKind::ManagedIdentity,
            AuthMethod::ManualToken => ProviderKind::ManualToken,
        }
    }

    /// The provider that the selected method asks for, or the
    /// configuration error that names what the method lacks. Only the
    /// method "both" has a second choice: the API key first, then client
    /// credentials.
    pub open spec fn provider(self) -> Result<ProviderKind, AppErrorView> {
        if self.holds(AuthManagerView::wanted(self.default_method)) {
            Ok(AuthManagerView::wanted(self.default_method))
        } else if self.default_method == AuthMethod::Both && self.entra is Some {
            Ok(ProviderKind::Entra)
        } else {
            Err(lacking(self.default_method))
        }
    }

    /// Whether the manager holds a provider of a kind.
    pub open spec fn holds(self, kind: ProviderKind) -> bool {
        match kind {
            ProviderKind::ApiKey => self.api_key is Some,
            ProviderKind::Entra => self.entra is Some,
            ProviderKind::ManualToken => self.manual_token is Some,
            ProviderKind::ManagedIdentity => self.managed_identity is Some,
            ProviderKind::DeviceCode => self.device_code is Some,
            ProviderKind::Interactive => self.interactive is Some,
        }
    }

    /// The kinds of provider in the order in which they are listed.
    pub open spec fn kinds() -> Seq<ProviderKind> {
        seq![
            ProviderKind::ApiKey,
            ProviderKind::Entra,
            ProviderKind::ManualToken,
            ProviderKind::ManagedIdentity,
            ProviderKind::DeviceCode,
            ProviderKind::Interactive,
        ]
    }

    /// Of the first `n` kinds, in their order, those that the manager
    /// holds.
    pub open spec fn listed_of(self, n: nat) -> Seq<ProviderKind>
        decreases n,
    {
        if n == 0 || n > AuthManagerView::kinds().len() {
            Seq::empty()
        } else if self.holds(AuthManagerView::kinds()[n - 1]) {
            self.listed_of((n - 1) as nat).push(AuthManagerView::kinds()[n - 1])
        } else {
            self.listed_of((n - 1) as nat)
        }
    }

    /// The providers that are listed for diagnosis: every provider that
    /// the manager holds, once, in the order of the kinds, whatever the
    /// selected method.
    pub open spec fn listed(self) -> Seq<ProviderKind> {
        self.listed_of(AuthManagerView::kinds().len())
    }
}

impl AuthManager {
    /// Builds the manager with progress shown. See `new_with_options`.
    pub fn new(
        api_key: Option<String>,
        entra_config: Option<&EntraConfig>,
        user_config: Option<&UserAuthConfig>,
        cloud: Cloud,
        default_method: AuthMethod,
        env: ManagedIdentityEnv,
    ) -> (r: Result<AuthManager, AppError>)
        ensures
            match r {
                Ok(m) => AuthManagerView::refusal(
                    match user_config {
                        Some(u) => Some(u@),
                        None => None,
                    },
                    default_method,
                ) is None && m@ == AuthManagerView::built(
                    opt_view(api_key),
                    match entra_config {
                        Some(c) => Some(c@),
                        None => None,
                    },
                    match user_config {
                        Some(u) => Some(u@),
                        None => None,
                    },
                    cloud,
                    default_method,
                    false,
                    env@,
                ),
                Err(e) => AuthManagerView::refusal(
                    match user_config {
                        Some(u) => Some(u@),
                        None => None,
                    },
                    default_method,
                ) == Some(e@),
            },
    {
        AuthManager::new_with_options(
            api_key,
            entra_config,
            user_config,
            cloud,
            default_method,
            false,
            env,
        )
    }

    /// Builds the manager from the settings. Only providers whose
    /// prerequisites are all there are built; none is guessed or half
    /// built. The settings are refused where they hold an empty bearer
    /// token, or select a method that signs a user in and name no tenant.
    pub fn new_with_options(
        api_key: Option<String>,
        entra_config: Option<&EntraConfig>,
        user_config: Option<&UserAuthConfig>,
        cloud: Cloud,
        default_method: AuthMethod,
        quiet: bool,
        env: ManagedIdentityEnv,
    ) -> (r: Result<AuthManager, AppError>)
        ensures
            match r {
                Ok(m) => AuthManagerView::refusal(
                    match user_config {
                        Some(u) => Some(u@),
                        None => None,
                    },
                    default_method,
                ) is None && m@ == AuthManagerView::built(
                    opt_view(api_key),
                    match entra_config {
                        Some(c) => Some(c@),
                        None => None,
                    },
                    match user_config {
                        Some(u) => Some(u@),
                        None => None,
                    },
                    cloud,
                    default_method,
                    quiet,
                    env@,
                ),
                Err(e) => AuthManagerView::refusal(
                    match user_config {
                        Some(u) => Some(u@),
                        None => None,
                    },
                    default_method,
                ) == Some(e@),
            },
    {
        let api_key_auth = match api_key {
            Some(k) => Some(ApiKeyAuth::new(k)),
            None => None,
        };
        let entra_auth = match entra_config {
            Some(config) => {
                if config.tenant_id.is_some() && config.client_id.is_some()
                    && config.client_secret.is_some() {
                    match EntraTokenAuth::new(config, cloud) {
                        Ok(a) => Some(a),
                        Err(e) => {
                            return Err(e);
                        },
                    }
                } else {
                    None
                }
            },
            None => None,
        };
        let manual_token_auth = match user_config {
            Some(config) => match &config.bearer_token {
                Some(token) => match ManualTokenAuth::new(token.clone()) {
                    Ok(a) => Some(a),
                    Err(e) => {
                        return Err(e);
                    },
                },
                None => None,
            },
            None => None,
        };
        let tenant: Option<String> = match user_config {
            Some(config) => clone_opt(&config.tenant_id),
            None => None,
        };
        let client: Option<String> = match user_config {
            Some(config) => clone_opt(&config.client_id),
            None => None,
        };
        let managed_identity_auth = if default_method == AuthMethod::ManagedIdentity {
            let user_assigned_client_id = match user_config {
                Some(config) => clone_opt(&config.managed_identity_client_id),
                None => None,
            };
            match ManagedIdentityAuth::new(&cloud, user_assigned_client_id, env) {
                Ok(a) => Some(a),
                Err(e) => {
                    return Err(e);
                },
            }
        } else {
            None
        };
        let device_code_auth = if default_method == AuthMethod::DeviceCode {
            let tenant_id = match clone_opt(&tenant) {
                Some(t) => t,
                None => {
                    return Err(lacking_error(default_method));
                },
            };
            match DeviceCodeAuth::new(tenant_id, clone_opt(&client), &cloud) {
                Ok(a) => Some(a.with_quiet(quiet)),
                Err(e) => {
                    return Err(e);
                },
            }
        } else {
            None
        };
        let interactive_auth = if default_method == AuthMethod::Interactive {
            let tenant_id = match tenant {
                Some(t) => t,
                None => {
                    return Err(lacking_error(default_method));
                },
            };
            match InteractiveAuth::new(tenant_id, client, &cloud) {
                Ok(a) => Some(a.with_quiet(quiet)),
                Err(e) => {
                    return Err(e);
                },
            }
        } else {
            None
        };
        Ok(
            AuthManager {
                api_key: api_key_auth,
                entra: entra_auth,
                manual_token: manual_token_auth,
                managed_identity: managed_identity_auth,
                device_code: device_code_auth,
                interactive: interactive_auth,
                default_method,
            },
        )
    }

    /// Get the primary auth provider based on the selected method, or the
    /// configuration error that names what the method lacks. No other
    /// method is ever taken in its place, but for "both": the API key
    /// first, then client credentials.
    pub fn get_provider(&self) -> (r: Result<ProviderKind, AppError>)
        ensures
            match r {
                Ok(k) => self@.provider() == Ok::<ProviderKind, AppErrorView>(k) && self@.holds(k),
                Err(e) => self@.provider() == Err::<ProviderKind, AppErrorView>(e@) && e@
                    == lacking(self@.default_method) && e@ is Config,
            },
    {
        match self.default_method {
            AuthMethod::Key => {
                if self.api_key.is_some() {
                    return Ok(ProviderKind::ApiKey);
                }
            },
            AuthMethod::Token => {
                if self.entra.is_some() {
                    return Ok(ProviderKind::Entra);
                }
            },
            AuthMethod::DeviceCode => {
                if self.device_code.is_some() {
                    return Ok(ProviderKind::DeviceCode);
                }
            },
            AuthMethod::Interactive => {
                if self.interactive.is_some() {
                    return Ok(ProviderKind::Interactive);
                }
            },
            AuthMethod::ManagedIdentity => {
                if self.managed_identity.is_some() {
                    return Ok(ProviderKind::ManagedIdentity);
                }
            },
            AuthMethod::ManualToken => {
                if self.manual_token.is_some() {
                    return Ok(ProviderKind::ManualToken);
                }
            },
            AuthMethod::Both => {
                if self.api_key.is_some() {
                    return Ok(ProviderKind::ApiKey);
                } else if self.entra.is_some() {
                    return Ok(ProviderKind::Entra);
                }
            },
        }
        Err(lacking_error(self.default_method))
    }

    /// Get all configured auth providers, whatever the selected method:
    /// each kind of provider that the manager holds is listed once, in the
    /// order of the kinds, and nothing else is.
    pub fn get_all_providers(&self) -> (r: Vec<ProviderKind>)
        ensures
            r@ == self@.listed(),
            r@.no_duplicates(),
            forall|k: ProviderKind| r@.contains(k) <==> self@.holds(k),
    {
        let mut providers: Vec<ProviderKind> = Vec::new();
        assert(providers@ =~= self@.listed_of(0));
        if self.api_key.is_some() {
            providers.push(ProviderKind::ApiKey);
        }
        assert(providers@ =~= self@.listed_of(1));
        if self.entra.is_some() {
            providers.push(ProviderKind::Entra);
        }
        assert(providers@ =~= self@.listed_of(2));
        if self.manual_token.is_some() {
            providers.push(ProviderKind::ManualToken);
        }
        assert(providers@ =~= self@.listed_of(3));
        if self.managed_identity.is_some() {
            providers.push(ProviderKind::ManagedIdentity);
        }
        assert(providers@ =~= self@.listed_of(4));
        if self.device_code.is_some() {
            providers.push(ProviderKind::DeviceCode);
        }
        assert(providers@ =~= self@.listed_of(5));
        if self.interactive.is_some() {
            providers.push(ProviderKind::Interactive);
        }
        assert(providers@ =~= self@.listed_of(6));
        proof {
            law_every_held_provider_is_listed(self@);
        }
        providers
    }

    /// Check if API key auth is available.
    pub fn has_api_key(&self) -> (r: bool)
        ensures
            r == self@.api_key is Some,
    {
        self.api_key.is_some()
    }

    /// Check if Entra auth is available.
    pub fn has_entra(&self) -> (r: bool)
        ensures
            r == self@.entra is Some,
    {
        self.entra.is_some()
    }

    /// The selected method.
    pub fn default_method(&self) -> (r: AuthMethod)
        ensures
            r == self@.default_method,
    {
        self.default_method
    }

    /// The name of the method of a provider that the manager holds.
    pub fn method_name(&self, kind: ProviderKind) -> (r: &'static str)
        ensures
            r@ == method_name_text(kind),
    {
        match kind {
            ProviderKind::ApiKey => "API Key",
            ProviderKind::Entra => "Entra ID Token",
            ProviderKind::ManualToken => "Manual Token",
            ProviderKind::ManagedIdentity => "Managed Identity",
            ProviderKind::DeviceCode => "Device Code Flow",
            ProviderKind::Interactive => "Interactive Browser",
        }
    }

    /// The API key provider, if the manager holds it.
    pub fn api_key(&self) -> (r: Option<&ApiKeyAuth>)
        ensures
            match r {
                Some(a) => self@.api_key == Some(a@),
                None => self@.api_key is None,
            },
    {
        self.api_key.as_ref()
    }

    /// The client-credentials provider, if the manager holds it.
    pub fn entra(&self) -> (r: Option<&EntraTokenAuth>)
        ensures
            match r {
                Some(a) => self@.entra == Some(a@),
                None => self@.entra is None,
            },
    {
        self.entra.as_ref()
    }

    /// The manual provider, if the manager holds it.
    pub fn manual_token(&self) -> (r: Option<&ManualTokenAuth>)
        ensures
            match r {
                Some(a) => self@.manual_token == Some(a@),
                None => self@.manual_token is None,
            },
    {
        self.manual_token.as_ref()
    }

    /// The managed-identity provider, if the manager holds it.
    pub fn managed_identity(&self) -> (r: Option<&ManagedIdentityAuth>)
        ensures
            match r {
                Some(a) => self@.managed_identity == Some(a@),
                None => self@.managed_identity is None,
            },
    {
        self.managed_identity.as_ref()
    }

    /// The device-code provider, if the manager holds it.
    pub fn device_code(&self) -> (r: Option<&DeviceCodeAuth>)
        ensures
            match r {
                Some(a) => self@.device_code == Some(a@),
                None => self@.device_code is None,
            },
    {
        self.device_code.as_ref()
    }

    /// The interactive provider, if the manager holds it.
    pub fn interactive(&self) -> (r: Option<&InteractiveAuth>)
        ensures
            match r {
                Some(a) => self@.interactive == Some(a@),
                None => self@.interactive is None,
            },
    {
        self.interactive.as_ref()
    }

    /// Stores a granted token in the cache of the client-credentials
    /// provider and returns it as credentials; a failure is reported and
    /// changes nothing. Without that provider the reply is an error of
    /// configuration.
    pub fn entra_credentials(&mut self, reply: TokenReply, now: &Timestamp) -> (r: Result<
        Credentials,
        AppError,
    >)
        ensures
            match r {
                Ok(c) => old(self)@.entra is Some && (entra_outcome(reply@) matches Ok(
                    (token, expires_in),
                ) && c@ == CredentialsView::BearerToken(token) && final(self)@ == (AuthManagerView {
                    entra: Some(
                        EntraTokenAuthView {
                            token_cache: old(self)@.entra->0.token_cache.stored(
                                token,
                                expires_in,
                                *now,
                            ),
                            ..old(self)@.entra->0
                        },
                    ),
                    ..old(self)@
                })),
                Err(e) => final(self)@ == old(self)@ && (if old(self)@.entra is Some {
                    entra_outcome(reply@) == Err::<(Seq<char>, u64), AppErrorView>(e@)
                } else {
                    e@ == AppErrorView::Config("Entra token auth not configured"@)
                }),
            },
    {
        match &mut self.entra {
            Some(entra) => entra.get_credentials(reply, now),
            None => Err(AppError::Config("Entra token auth not configured".to_owned())),
        }
    }
}

/// The name under which each kind of provider reports its method.
pub open spec fn method_name_text(kind: ProviderKind) -> Seq<char> {
    match kind {
        ProviderKind::ApiKey => "API Key"@,
        ProviderKind::Entra => "Entra ID Token"@,
        ProviderKind::ManualToken => "Manual Token"@,
        ProviderKind::ManagedIdentity => "Managed Identity"@,
        ProviderKind::DeviceCode => "Device Code Flow"@,
        ProviderKind::Interactive => "Interactive Browser"@,
    }
}

/// The manager never puts one method in the place of another: the provider
/// it hands out is of the selected method, or, for "both" alone, one of its
/// two in their fixed order.
pub proof fn law_no_silent_substitution(m: AuthManagerView)
    ensures
        m.provider() matches Ok(k) ==> m.holds(k) && match m.default_method {
            AuthMethod::Key => k == ProviderKind::ApiKey,
            AuthMethod::Token => k == ProviderKind::Entra,
            AuthMethod::DeviceCode => k == ProviderKind::DeviceCode,
            AuthMethod::Interactive => k == ProviderKind::Interactive,
            AuthMethod::ManagedIdentity => k == ProviderKind::ManagedIdentity,
            AuthMethod::ManualToken => k == ProviderKind::ManualToken,
            AuthMethod::Both => (k == ProviderKind::ApiKey) || (k == ProviderKind::Entra
                && m.api_key is None),
        },
{
}

/// Every provider that the manager holds is listed, once, and nothing that
/// it does not hold is listed, whatever the selected method.
pub proof fn law_every_held_provider_is_listed(m: AuthManagerView)
    ensures
        m.listed().no_duplicates(),
        forall|k: ProviderKind| m.listed().contains(k) <==> m.holds(k),
{
    let kinds = AuthManagerView::kinds();
    let l0 = m.listed_of(0);
    let l1 = m.listed_of(1);
    let l2 = m.listed_of(2);
    let l3 = m.listed_of(3);
    let l4 = m.listed_of(4);
    let l5 = m.listed_of(5);
    let l6 = m.listed_of(6);
    assert(l0 =~= Seq::<ProviderKind>::empty());
    lemma_listed_step(m, 1);
    lemma_listed_step(m, 2);
    lemma_listed_step(m, 3);
    lemma_listed_step(m, 4);
    lemma_listed_step(m, 5);
    lemma_listed_step(m, 6);
    assert forall|k: ProviderKind| m.listed().contains(k) <==> m.holds(k) by {
        if m.holds(k) {
            let i = choose|i: int| 0 <= i < 6 && kinds[i] == k;
            assert(listed_upto(m, 6));
        }
    }
}

/// What holds of the listing of the first `n` kinds: it has no kind twice,
/// and it holds a kind exactly where the kind is among the first `n` and
/// the manager holds its provider.
pub open spec fn listed_upto(m: AuthManagerView, n: nat) -> bool {
    &&& m.listed_of(n).no_duplicates()
    &&& forall|k: ProviderKind|
        #[trigger] m.listed_of(n).contains(k) <==> m.holds(k) && exists|i: int|
            0 <= i < n && AuthManagerView::kinds()[i] == k
}

proof fn lemma_listed_step(m: AuthManagerView, n: nat)
    requires
        1 <= n <= 6,
        listed_upto(m, (n - 1) as nat) || n == 1,
    ensures
        listed_upto(m, n),
{
    let kinds = AuthManagerView::kinds();
    let before = m.listed_of((n - 1) as nat);
    let k = kinds[n - 1];
    if n == 1 {
        assert(before =~= Seq::<ProviderKind>::empty());
        assert(listed_upto(m, 0)) by {
            assert forall|x: ProviderKind| #[trigger] before.contains(x) <==> m.holds(x) && exists|
                i: int,
            | 0 <= i < 0 && kinds[i] == x by {}
        }
    }
    assert(forall|i: int, j: int| 0 <= i < j < 6 ==> kinds[i] != kinds[j]);
    let after = m.listed_of(n);
    if m.holds(k) {
        assert(after == before.push(k));
        assert(!before.contains(k)) by {
            if before.contains(k) {
                let i = choose|i: int| 0 <= i < n - 1 && kinds[i] == k;
                assert(kinds[i] != kinds[n - 1]);
            }
        }
        assert(after.no_duplicates()) by {
            assert forall|i: int, j: int| 0 <= i < j < after.len() implies after[i] != after[j] by {
                if j == before.len() {
                    assert(before.contains(after[i]));
                } else {
                    assert(before[i] != before[j]);
                }
            }
        }
        assert forall|x: ProviderKind| #[trigger] after.contains(x) <==> m.holds(x) && exists|
            i: int,
        | 0 <= i < n && kinds[i] == x by {
            if after.contains(x) {
                let j = choose|j: int| 0 <= j < after.len() && after[j] == x;
                if j == before.len() {
                    assert(kinds[n - 1] == x);
                } else {
                    assert(before[j] == x);
                    assert(before.contains(x));
                    let i = choose|i: int| 0 <= i < n - 1 && kinds[i] == x;
                    assert(0 <= i < n && kinds[i] == x);
                }
            }
            if m.holds(x) && exists|i: int| 0 <= i < n && kinds[i] == x {
                let i = choose|i: int| 0 <= i < n && kinds[i] == x;
                if i == n - 1 {
                    assert(after[before.len() as int] == x);
                } else {
                    assert(0 <= i < n - 1 && kinds[i] == x);
                    assert(before.contains(x));
                    let j = choose|j: int| 0 <= j < before.len() && before[j] == x;
                    assert(after[j] == x);
                }
            }
        }
    } else {
        assert(after == before);
        assert forall|x: ProviderKind| #[trigger] after.contains(x) <==> m.holds(x) && exists|
            i: int,
        | 0 <= i < n && kinds[i] == x by {
            if after.contains(x) {
                let i = choose|i: int| 0 <= i < n - 1 && kinds[i] == x;
                assert(0 <= i < n && kinds[i] == x);
            }
            if m.holds(x) && exists|i: int| 0 <= i < n && kinds[i] == x {
                let i = choose|i: int| 0 <= i < n && kinds[i] == x;
                assert(i != n - 1);
                assert(0 <= i < n - 1 && kinds[i] == x);
            }
        }
    }
}

/// A selected method whose provider the manager does not hold gives a
/// configuration error that names what the method lacks; no provider of
/// another method is handed out in its place.
pub proof fn law_missing_provider_is_configuration_error(m: AuthManagerView)
    requires
        m.default_method != AuthMethod::Both,
        !m.holds(AuthManagerView::wanted(m.default_method)),
    ensures
        m.provider() == Err::<ProviderKind, AppErrorView>(lacking(m.default_method)),
        lacking(m.default_method) is Config,
        lacking(m.default_method).exit_code() == crate::error::ExitCode::ConfigError,
{
}

/// Settings that select a method that signs a user in and name no tenant
/// are refused with a configuration error that names `tenant_id` and the
/// method, unless an empty bearer token is refused first.
pub proof fn law_missing_tenant_is_configuration_error(
    user: Option<UserAuthConfigView>,
    method: AuthMethod,
)
    requires
        needs_tenant(method),
        user_tenant(user) is None,
        !(user_token(user) is Some && user_token(user)->0.len() == 0),
    ensures
        AuthManagerView::refusal(user, method) == Some(
            AppErrorView::Config("tenant_id required for "@ + method.name_text()),
        ),
        AuthManagerView::refusal(user, method)->0.exit_code() == crate::error::ExitCode::ConfigError,
{
}

/// A manager that was built from the settings always has a provider for a
/// method that signs a user in or uses managed identity: the error for a
/// missing tenant comes when the manager is built, not later.
pub proof fn law_built_manager_serves_selected_flow(
    api_key: Option<Seq<char>>,
    entra: Option<EntraConfigView>,
    user: Option<UserAuthConfigView>,
    cloud: Cloud,
    method: AuthMethod,
    quiet: bool,
    env: ManagedIdentityEnvView,
)
    requires
        AuthManagerView::refusal(user, method) is None,
    ensures
        needs_tenant(method) || method == AuthMethod::ManagedIdentity
            ==> AuthManagerView::built(api_key, entra, user, cloud, method, quiet, env).provider()
            is Ok,
{
}

/// Test result for authentication.
#[derive(Debug)]
pub struct AuthTestResult {
    pub method: String,
    pub success: bool,
    pub duration_ms: u64,
    pub error: Option<String>,
}

} // verus!
