//! The interactive flow: authorization code with PKCE. The operator signs in
//! with a browser, and the identity provider redirects the browser to a
//! listener on the loopback interface.
//!
//! The listener, the browser and the token request are the caller's. This
//! module says which address to open, reads the request line of the
//! callback, decides what the browser is told and whether the code may be
//! exchanged, frames the exchange and judges its reply.

use crate::auth::{
    field, fields_view, push_shown_body, shown_body, AuthProvider, Credentials, CredentialsView,
    Field, Request, RequestView, TokenReply, TokenReplyView, AZURE_CLI_CLIENT_ID,
};
use crate::auth::device_code::{
    TokenResult, TokenResultView, DEFAULT_SESSION_TIMEOUT_SECS, NOTICE_RULE,
};
use crate::auth::oauth::{
    authorization_url_of, begin_authorization, url_parse_error, url_parse_error_of,
    url_query_pairs, url_query_pairs_of, Authorization,
};
use crate::config::Cloud;
use crate::error::{AppError, AppErrorView};
use crate::paint::{plain, push_span, push_text, spans_view, tinted, Span, SpanView, Tint};
use crate::text::{
    decimal, opt_view, second_word, str_eq, str_second_word, str_to_u64, strings_view, u64_of,
    u64_to_decimal,
};
use vstd::prelude::*;
use vstd::string::*;
use vstd::utf8::encode_utf8;

verus! {

/// What is reported of a callback whose state is not the state of the
/// session.
pub const CSRF_MISMATCH: &'static str =
    "CSRF state mismatch \u{2014} possible security issue. Please try again.";

pub const SUCCESS_PAGE: &'static str =
    "<html><body><h2>Authentication Successful!</h2><p>You can close this window and return to the terminal.</p></body></html>";

pub const STATUS_OK: &'static str = "HTTP/1.1 200 OK";

pub const STATUS_BAD_REQUEST: &'static str = "HTTP/1.1 400 Bad Request";

pub const RESPONSE_HEAD: &'static str = "\r\nContent-Type: text/html\r\nContent-Length: ";

pub const RESPONSE_NECK: &'static str = "\r\nConnection: close\r\n\r\n";

/// The value of the last pair named `name`, as a map built from the pairs
/// in their order holds it.
pub open spec fn param(pairs: Seq<(Seq<char>, Seq<char>)>, name: Seq<char>) -> Option<Seq<char>>
    decreases pairs.len(),
{
    if pairs.len() == 0 {
        None
    } else if pairs.last().0 == name {
        Some(pairs.last().1)
    } else {
        param(pairs.drop_last(), name)
    }
}

/// A complete HTTP/1.1 response with an HTML body, after which the
/// connection is closed. The length counts the bytes of the body in UTF-8.
pub open spec fn http_response(status_line: Seq<char>, body: Seq<char>) -> Seq<char> {
    status_line + RESPONSE_HEAD@ + decimal(encode_utf8(body).len()) + RESPONSE_NECK@ + body
}

/// The page that tells the operator that signing in failed.
pub open spec fn error_page(error: Seq<char>, description: Seq<char>) -> Seq<char> {
    "<html><body><h2>Authentication Failed</h2><p>"@ + error + ": "@ + description
        + "</p><p>You can close this window.</p></body></html>"@
}

/// What is made of a callback: the response for the browser, if one is
/// written, and the code with the state or the error.
#[derive(Debug)]
pub struct CallbackReply {
    pub response: Option<String>,
    pub result: Result<(String, String), AppError>,
}

pub ghost struct CallbackReplyView {
    pub response: Option<Seq<char>>,
    pub result: Result<(Seq<char>, Seq<char>), AppErrorView>,
}

impl View for CallbackReply {
    type V = CallbackReplyView;

    open spec fn view(&self) -> CallbackReplyView {
        CallbackReplyView {
            response: opt_view(self.response),
            result: match self.result {
                Ok((code, state)) => Ok((code@, state@)),
                Err(e) => Err(e@),
            },
        }
    }
}

/// A callback that ends in `message` without a response to the browser.
pub open spec fn silent_failure(message: Seq<char>) -> CallbackReplyView {
    CallbackReplyView { response: None, result: Err(AppErrorView::Auth(message)) }
}

/// What the query parameters of a callback mean.
///
/// - With an `error` parameter the browser gets the failure page under
///   status 400, and the flow fails with the error and its description.
/// - Without `code`, or with `code` and without `state`, the flow fails and
///   nothing is written.
/// - Else the browser gets the success page under status 200, and the code
///   and the state are handed on.
pub open spec fn callback_of_pairs(pairs: Seq<(Seq<char>, Seq<char>)>) -> CallbackReplyView {
    let error = param(pairs, "error"@);
    let code = param(pairs, "code"@);
    let state = param(pairs, "state"@);
    if error is Some {
        let description = match param(pairs, "error_description"@) {
            Some(d) => d,
            None => Seq::empty(),
        };
        CallbackReplyView {
            response: Some(
                http_response(STATUS_BAD_REQUEST@, error_page(error->0, description)),
            ),
            result: Err(
                AppErrorView::Auth(
                    "Authentication error: "@ + error->0 + " - "@ + description,
                ),
            ),
        }
    } else if code is None {
        silent_failure("No authorization code in callback"@)
    } else if state is None {
        silent_failure("No state parameter in callback"@)
    } else {
        CallbackReplyView {
            response: Some(http_response(STATUS_OK@, SUCCESS_PAGE@)),
            result: Ok((code->0, state->0)),
        }
    }
}

/// What the first line of the callback request means: its second word is
/// the request target, which is read as a URL on `localhost`; the query
/// parameters of that URL decide.
pub open spec fn callback_of_line(request_line: Seq<char>) -> CallbackReplyView {
    match second_word(request_line) {
        None => silent_failure("Invalid callback request"@),
        Some(target) => {
            let url = "http://localhost"@ + target;
            callback_of_query(
                match url_parse_error_of(url) {
                    Some(e) => Err(e),
                    None => Ok(url_query_pairs_of(url)),
                },
            )
        },
    }
}

/// What the request target of the callback means once it was read as a
/// URL: its query parameters decide, and a target that is no URL fails
/// with the message of the parser.
pub open spec fn callback_of_query(
    query: Result<Seq<(Seq<char>, Seq<char>)>, Seq<char>>,
) -> CallbackReplyView {
    match query {
        Ok(pairs) => callback_of_pairs(pairs),
        Err(e) => silent_failure("Failed to parse callback URL: "@ + e),
    }
}

fn find_param(pairs: &Vec<Field>, name: &str) -> (r: Option<String>)
    ensures
        opt_view(r) == param(fields_view(pairs@), name@),
{
    let ghost all = fields_view(pairs@);
    let mut i: usize = pairs.len();
    assert(all.take(i as int) =~= all);
    while i > 0
        invariant
            i <= pairs.len(),
            all == fields_view(pairs@),
            param(all, name@) == param(all.take(i as int), name@),
        decreases i,
    {
        assert(all.take(i as int).drop_last() =~= all.take(i - 1));
        if str_eq(pairs[i - 1].name.as_str(), name) {
            return Some(pairs[i - 1].value.clone());
        }
        i -= 1;
    }
    None
}

fn response(status_line: &str, body: &str) -> (r: String)
    ensures
        r@ == http_response(status_line@, body@),
{
    let mut r = status_line.to_owned();
    r.append(RESPONSE_HEAD);
    let n = u64_to_decimal(body.as_bytes().len() as u64);
    r.append(n.as_str());
    r.append(RESPONSE_NECK);
    r.append(body);
    r
}

fn failure(message: &str) -> (r: CallbackReply)
    ensures
        r@ == silent_failure(message@),
{
    CallbackReply { response: None, result: Err(AppError::Auth(message.to_owned())) }
}

/// Decides on a callback from its query parameters, decoded and in their
/// order; of two parameters with one name the later counts.
pub fn callback_from_pairs(pairs: &Vec<Field>) -> (r: CallbackReply)
    ensures
        r@ == callback_of_pairs(fields_view(pairs@)),
{
    if let Some(error) = find_param(pairs, "error") {
        let description = match find_param(pairs, "error_description") {
            Some(d) => d,
            None => String::new(),
        };
        let mut page = "<html><body><h2>Authentication Failed</h2><p>".to_owned();
        page.append(error.as_str());
        page.append(": ");
        page.append(description.as_str());
        page.append("</p><p>You can close this window.</p></body></html>");
        let mut message = "Authentication error: ".to_owned();
        message.append(error.as_str());
        message.append(" - ");
        message.append(description.as_str());
        return CallbackReply {
            response: Some(response(STATUS_BAD_REQUEST, page.as_str())),
            result: Err(AppError::Auth(message)),
        };
    }
    let code = match find_param(pairs, "code") {
        Some(c) => c,
        None => {
            return failure("No authorization code in callback");
        },
    };
    let state = match find_param(pairs, "state") {
        Some(s) => s,
        None => {
            return failure("No state parameter in callback");
        },
    };
    CallbackReply { response: Some(response(STATUS_OK, SUCCESS_PAGE)), result: Ok((code, state)) }
}

/// Reads the first line of the one request that the listener accepted,
/// `GET <path>?<query> HTTP/1.1`, and decides what the browser is told and
/// what the flow goes on with.
pub fn wait_for_callback(request_line: &str) -> (r: CallbackReply)
    ensures
        r@ == callback_of_line(request_line@),
{
    let target = match str_second_word(request_line) {
        Some(t) => t,
        None => {
            return failure("Invalid callback request");
        },
    };
    let mut url = "http://localhost".to_owned();
    url.append(target.as_str());
    callback_from_query(url_query_pairs(url.as_str()))
}

/// Decides what the browser is told and what the flow goes on with, for
/// the request target of the callback once it was read as a URL: the query
/// parameters, or the message with which the target was refused.
pub fn callback_from_query(query: Result<Vec<Field>, String>) -> (r: CallbackReply)
    ensures
        r@ == callback_of_query(
            match query {
                Ok(pairs) => Ok(fields_view(pairs@)),
                Err(e) => Err(e@),
            },
        ),
{
    match query {
        Ok(pairs) => callback_from_pairs(&pairs),
        Err(e) => {
            let mut message = "Failed to parse callback URL: ".to_owned();
            message.append(e.as_str());
            failure(message.as_str())
        },
    }
}

/// The redirect address for a listener on `port`.
pub open spec fn redirect_uri_text(port: u16) -> Seq<char> {
    "http://localhost:"@ + decimal(port as nat)
}

/// The redirect address for a listener on `port`.
pub fn redirect_uri(port: u16) -> (r: String)
    ensures
        r@ == redirect_uri_text(port),
{
    let mut r = "http://localhost:".to_owned();
    let n = u64_to_decimal(port as u64);
    r.append(n.as_str());
    r
}

/// One attempt of the interactive flow, from the moment the address to open
/// is known. It cannot be shown for debugging: the verifier and the state
/// are not for logs.
pub struct InteractiveSession {
    /// The port on which the listener waits.
    pub port: u16,
    /// The address that the browser is sent to.
    pub authorize_url: String,
    /// The state that the callback must bring back.
    pub csrf_state: String,
    /// The PKCE verifier; it is shown to the token endpoint only.
    pub code_verifier: String,
}

pub ghost struct InteractiveSessionView {
    pub port: u16,
    pub authorize_url: Seq<char>,
    pub csrf_state: Seq<char>,
    pub code_verifier: Seq<char>,
}

impl View for InteractiveSession {
    type V = InteractiveSessionView;

    open spec fn view(&self) -> InteractiveSessionView {
        InteractiveSessionView {
            port: self.port,
            authorize_url: self.authorize_url@,
            csrf_state: self.csrf_state@,
            code_verifier: self.code_verifier@,
        }
    }
}

/// What follows a callback: the response for the browser, if one is
/// written, and the token request or the error that ends the flow.
#[derive(Debug)]
pub struct CallbackOutcome {
    pub response: Option<String>,
    pub next: Result<Request, AppError>,
}

pub ghost struct CallbackOutcomeView {
    pub response: Option<Seq<char>>,
    pub next: Result<RequestView, AppErrorView>,
}

impl View for CallbackOutcome {
    type V = CallbackOutcomeView;

    open spec fn view(&self) -> CallbackOutcomeView {
        CallbackOutcomeView {
            response: opt_view(self.response),
            next: match self.next {
                Ok(r) => Ok(r@),
                Err(e) => Err(e@),
            },
        }
    }
}

/// The error for the first address of the flow that was refused, where
/// each argument is the message with which one address was refused, if it
/// was: that of the authorization endpoint, then that of the token
/// endpoint, then that of the redirect address.
pub open spec fn url_failure(
    authorize: Option<Seq<char>>,
    token: Option<Seq<char>>,
    redirect: Option<Seq<char>>,
) -> Option<AppErrorView> {
    if authorize is Some {
        Some(AppErrorView::Auth("Invalid auth URL: "@ + authorize->0))
    } else if token is Some {
        Some(AppErrorView::Auth("Invalid token URL: "@ + token->0))
    } else if redirect is Some {
        Some(AppErrorView::Auth("Invalid redirect URL: "@ + redirect->0))
    } else {
        None
    }
}

/// Interactive browser-based authentication provider using the
/// authorization-code flow with PKCE.
#[derive(Debug)]
pub struct InteractiveAuth {
    tenant_id: String,
    client_id: String,
    scope: String,
    cloud: Cloud,
    quiet: bool,
}

pub ghost struct InteractiveAuthView {
    pub tenant_id: Seq<char>,
    pub client_id: Seq<char>,
    pub scope: Seq<char>,
    pub cloud: Cloud,
    pub quiet: bool,
}

impl View for InteractiveAuth {
    type V = InteractiveAuthView;

    closed spec fn view(&self) -> InteractiveAuthView {
        InteractiveAuthView {
            tenant_id: self.tenant_id@,
            client_id: self.client_id@,
            scope: self.scope@,
            cloud: self.cloud,
            quiet: self.quiet,
        }
    }
}

impl InteractiveAuthView {
    /// The address of one of the tenant's OAuth2 endpoints.
    pub open spec fn endpoint(self, name: Seq<char>) -> Seq<char> {
        self.cloud.login_endpoint_text() + "/"@ + self.tenant_id + "/oauth2/v2.0/"@ + name
    }

    /// The first of the addresses of the flow that is no URL, with the
    /// error that reports it, if there is one: the authorization endpoint,
    /// then the token endpoint, then the redirect address.
    pub open spec fn url_error(self, port: u16) -> Option<AppErrorView> {
        url_failure(
            url_parse_error_of(self.endpoint("authorize"@)),
            url_parse_error_of(self.endpoint("token"@)),
            url_parse_error_of(redirect_uri_text(port)),
        )
    }

    /// The address to open for a session: the authorization endpoint with
    /// the client, the redirect address, the scope, `response_mode=query`,
    /// the challenge of the session's verifier and the session's state.
    pub open spec fn authorize_url(self, session: InteractiveSessionView) -> Seq<char> {
        authorization_url_of(
            self.endpoint("authorize"@),
            self.client_id,
            redirect_uri_text(session.port),
            self.scope,
            ("response_mode"@, "query"@),
            session.code_verifier,
            session.csrf_state,
        )
    }

    /// The request that exchanges an authorization code for a token.
    pub open spec fn exchange_request(
        self,
        code: Seq<char>,
        code_verifier: Seq<char>,
        port: u16,
    ) -> RequestView {
        RequestView {
            url: self.endpoint("token"@),
            headers: Seq::empty(),
            form: seq![
                ("grant_type"@, "authorization_code"@),
                ("client_id"@, self.client_id),
                ("code"@, code),
                ("redirect_uri"@, redirect_uri_text(port)),
                ("code_verifier"@, code_verifier),
                ("scope"@, self.scope),
            ],
        }
    }

    /// What follows a callback in a session: its error, if it has one; the
    /// CSRF error where its state is not the state of the session; else the
    /// exchange of its code.
    pub open spec fn after_callback(
        self,
        session: InteractiveSessionView,
        callback: CallbackReplyView,
    ) -> CallbackOutcomeView {
        CallbackOutcomeView {
            response: callback.response,
            next: match callback.result {
                Err(e) => Err(e),
                Ok((code, state)) => if state == session.csrf_state {
                    Ok(self.exchange_request(code, session.code_verifier, session.port))
                } else {
                    Err(AppErrorView::Auth(CSRF_MISMATCH@))
                },
            },
        }
    }

    /// What a reply to the exchange means.
    pub open spec fn exchange_outcome(self, reply: TokenReplyView) -> Result<
        TokenResultView,
        AppErrorView,
    > {
        match reply {
            TokenReplyView::SendFailed(m) => Err(
                AppErrorView::Auth("Token exchange request failed: "@ + m),
            ),
            TokenReplyView::Refused { status, body } => Err(
                AppErrorView::Auth(
                    "Token exchange failed ("@ + status + "): "@ + shown_body(body),
                ),
            ),
            TokenReplyView::Malformed(m) => Err(
                AppErrorView::Auth("Failed to parse token response: "@ + m),
            ),
            TokenReplyView::Granted { access_token, expires_in } => Ok(
                TokenResultView { access_token, expires_in_secs: expires_in, scope: self.scope },
            ),
        }
    }
}

impl InteractiveAuth {
    /// The provider for a tenant in a cloud. Without a client ID the
    /// well-known public client signs in. The scope is that of the cognitive
    /// services in the cloud; progress is shown.
    pub fn new(tenant_id: String, client_id: Option<String>, cloud: &Cloud) -> (r: Result<
        InteractiveAuth,
        AppError,
    >)
        ensures
            r matches Ok(a) && a@ == (InteractiveAuthView {
                tenant_id: tenant_id@,
                client_id: match client_id {
                    Some(c) => c@,
                    None => AZURE_CLI_CLIENT_ID@,
                },
                scope: cloud.scope_text(),
                cloud: *cloud,
                quiet: false,
            }),
    {
        let client_id = match client_id {
            Some(c) => c,
            None => AZURE_CLI_CLIENT_ID.to_owned(),
        };
        Ok(
            InteractiveAuth {
                tenant_id,
                client_id,
                scope: cloud.cognitive_scope().to_owned(),
                cloud: *cloud,
                quiet: false,
            },
        )
    }

    /// Set quiet mode (suppresses progress indicators).
    pub fn with_quiet(self, quiet: bool) -> (r: InteractiveAuth)
        ensures
            r@ == (InteractiveAuthView { quiet, ..self@ }),
    {
        InteractiveAuth { quiet, ..self }
    }

    pub fn tenant_id(&self) -> (r: &str)
        ensures
            r@ == self@.tenant_id,
    {
        self.tenant_id.as_str()
    }

    pub fn client_id(&self) -> (r: &str)
        ensures
            r@ == self@.client_id,
    {
        self.client_id.as_str()
    }

    pub fn scope(&self) -> (r: &str)
        ensures
            r@ == self@.scope,
    {
        self.scope.as_str()
    }

    pub fn cloud(&self) -> (r: Cloud)
        ensures
            r == self@.cloud,
    {
        self.cloud
    }

    pub fn quiet(&self) -> (r: bool)
        ensures
            r == self@.quiet,
    {
        self.quiet
    }

    fn endpoint(&self, name: &str) -> (r: String)
        ensures
            r@ == self@.endpoint(name@),
    {
        let mut r = self.cloud.login_endpoint().to_owned();
        r.append("/");
        r.append(self.tenant_id.as_str());
        r.append("/oauth2/v2.0/");
        r.append(name);
        r
    }

    /// Begins an attempt once the listener waits on `port`: a fresh PKCE
    /// verifier and a fresh state are made, and the address to open is
    /// built from them. Where one of the addresses of the flow is no URL,
    /// the error names the first that is not.
    pub fn fetch_token(&self, port: u16) -> (r: Result<InteractiveSession, AppError>)
        ensures
            match r {
                Ok(session) => self@.url_error(port) is None && session.port == port
                    && session.authorize_url@ == self@.authorize_url(session@),
                Err(e) => self@.url_error(port) == Some(e@),
            },
    {
        let auth_url = self.endpoint("authorize");
        let redirect = redirect_uri(port);
        let authorize = url_parse_error(auth_url.as_str());
        let token = url_parse_error(self.endpoint("token").as_str());
        let redirected = url_parse_error(redirect.as_str());
        if let Some(e) = InteractiveAuth::url_failure(authorize, token, redirected) {
            return Err(e);
        }
        let extra = field("response_mode", "query");
        let begun = begin_authorization(
            auth_url.as_str(),
            self.client_id.as_str(),
            redirect.as_str(),
            self.scope.as_str(),
            &extra,
        );
        Ok(InteractiveAuth::session_of(port, begun))
    }

    /// The error for the first address of the flow that was refused, where
    /// each argument is the message with which one address was refused, if
    /// it was: that of the authorization endpoint, then that of the token
    /// endpoint, then that of the redirect address.
    pub fn url_failure(
        authorize: Option<String>,
        token: Option<String>,
        redirect: Option<String>,
    ) -> (r: Option<AppError>)
        ensures
            match r {
                Some(e) => url_failure(opt_view(authorize), opt_view(token), opt_view(redirect))
                    == Some(e@),
                None => url_failure(opt_view(authorize), opt_view(token), opt_view(redirect))
                    is None,
            },
    {
        if let Some(e) = authorize {
            let mut t = "Invalid auth URL: ".to_owned();
            t.append(e.as_str());
            return Some(AppError::Auth(t));
        }
        if let Some(e) = token {
            let mut t = "Invalid token URL: ".to_owned();
            t.append(e.as_str());
            return Some(AppError::Auth(t));
        }
        if let Some(e) = redirect {
            let mut t = "Invalid redirect URL: ".to_owned();
            t.append(e.as_str());
            return Some(AppError::Auth(t));
        }
        None
    }

    /// The session of an attempt whose listener waits on `port`, for the
    /// address, the state and the verifier that the attempt began with.
    pub fn session_of(port: u16, begun: Authorization) -> (r: InteractiveSession)
        ensures
            r@ == (InteractiveSessionView {
                port,
                authorize_url: begun.url@,
                csrf_state: begun.csrf_state@,
                code_verifier: begun.code_verifier@,
            }),
    {
        InteractiveSession {
            port,
            authorize_url: begun.url,
            csrf_state: begun.csrf_state,
            code_verifier: begun.code_verifier,
        }
    }

    /// The request that exchanges the authorization code for a token: one
    /// POST of form fields to the token endpoint.
    pub fn exchange_code(&self, code: &str, code_verifier: &str, port: u16) -> (r: Request)
        ensures
            r@ == self@.exchange_request(code@, code_verifier@, port),
    {
        let redirect = redirect_uri(port);
        let mut form: Vec<Field> = Vec::new();
        form.push(field("grant_type", "authorization_code"));
        form.push(field("client_id", self.client_id.as_str()));
        form.push(field("code", code));
        form.push(field("redirect_uri", redirect.as_str()));
        form.push(field("code_verifier", code_verifier));
        form.push(field("scope", self.scope.as_str()));
        let r = Request { url: self.endpoint("token"), headers: Vec::new(), form };
        assert(r@.form =~= self@.exchange_request(code@, code_verifier@, port).form);
        assert(r@.headers =~= self@.exchange_request(code@, code_verifier@, port).headers);
        r
    }

    /// Decides what follows a callback that was read already: a callback
    /// that failed ends the flow with its error; one whose state is not the
    /// state of the session ends it with the CSRF error; only then is the
    /// exchange of the code asked for.
    pub fn after_callback(&self, session: &InteractiveSession, callback: CallbackReply) -> (r:
        CallbackOutcome)
        ensures
            r@ == self@.after_callback(session@, callback@),
    {
        let CallbackReply { response, result } = callback;
        match result {
            Err(e) => CallbackOutcome { response, next: Err(e) },
            Ok((code, state)) => {
                if str_eq(state.as_str(), session.csrf_state.as_str()) {
                    CallbackOutcome {
                        response,
                        next: Ok(
                            self.exchange_code(
                                code.as_str(),
                                session.code_verifier.as_str(),
                                session.port,
                            ),
                        ),
                    }
                } else {
                    CallbackOutcome { response, next: Err(AppError::Auth(CSRF_MISMATCH.to_owned())) }
                }
            },
        }
    }

    /// Takes the first line of the callback request and decides what the
    /// browser is told and what follows.
    pub fn on_callback(&self, session: &InteractiveSession, request_line: &str) -> (r:
        CallbackOutcome)
        ensures
            r@ == self@.after_callback(session@, callback_of_line(request_line@)),
    {
        self.after_callback(session, wait_for_callback(request_line))
    }

    /// Judges the reply to the exchange: the result of the flow, or the
    /// error to report. No reply is tried again.
    pub fn authenticate(&self, reply: TokenReply) -> (r: Result<TokenResult, AppError>)
        ensures
            match r {
                Ok(t) => self@.exchange_outcome(reply@) == Ok::<TokenResultView, AppErrorView>(t@),
                Err(e) => self@.exchange_outcome(reply@) == Err::<TokenResultView, AppErrorView>(
                    e@,
                ),
            },
    {
        match reply {
            TokenReply::SendFailed(m) => {
                let mut t = "Token exchange request failed: ".to_owned();
                t.append(m.as_str());
                Err(AppError::Auth(t))
            },
            TokenReply::Refused { status, body } => {
                let mut t = "Token exchange failed (".to_owned();
                t.append(status.as_str());
                t.append("): ");
                push_shown_body(&mut t, &body);
                Err(AppError::Auth(t))
            },
            TokenReply::Malformed(m) => {
                let mut t = "Failed to parse token response: ".to_owned();
                t.append(m.as_str());
                Err(AppError::Auth(t))
            },
            TokenReply::Granted { access_token, expires_in } => Ok(
                TokenResult {
                    access_token,
                    expires_in_secs: expires_in,
                    scope: self.scope.clone(),
                },
            ),
        }
    }

    /// The credentials for the result of the flow.
    pub fn get_credentials(&self, result: TokenResult) -> (r: Credentials)
        ensures
            r@ == CredentialsView::BearerToken(result@.access_token),
    {
        Credentials::BearerToken(result.access_token)
    }
}

impl AuthProvider for InteractiveAuth {
    fn method_name(&self) -> (r: &'static str)
        ensures
            r@ == "Interactive Browser"@,
    {
        "Interactive Browser"
    }
}

/// A callback whose state is not the state of the session never leads to a
/// token request: the flow ends with the CSRF error. And a token request is
/// only ever asked for after a callback that brought a code and the state
/// of the session.
pub proof fn law_state_mismatch_stops_flow(
    auth: InteractiveAuthView,
    session: InteractiveSessionView,
    callback: CallbackReplyView,
)
    ensures
        callback.result matches Ok((_, state)) && state != session.csrf_state
            ==> auth.after_callback(session, callback).next == Err::<RequestView, AppErrorView>(
            AppErrorView::Auth(CSRF_MISMATCH@),
        ),
        auth.after_callback(session, callback).next is Ok ==> (callback.result matches Ok(
            (_, state),
        ) && state == session.csrf_state),
{
}

/// A callback with an `error` parameter fails with that error, whatever
/// else it carries; the browser is answered under status 400, and no token
/// request follows in any session.
pub proof fn law_error_callback_fails(
    auth: InteractiveAuthView,
    session: InteractiveSessionView,
    pairs: Seq<(Seq<char>, Seq<char>)>,
)
    requires
        param(pairs, "error"@) is Some,
    ensures
        callback_of_pairs(pairs).result matches Err(AppErrorView::Auth(m)) && ("Authentication error: "@
            + param(pairs, "error"@)->0).is_prefix_of(m),
        callback_of_pairs(pairs).response matches Some(text) && STATUS_BAD_REQUEST@.is_prefix_of(
            text,
        ),
        auth.after_callback(session, callback_of_pairs(pairs)).next is Err,
{
    let error = param(pairs, "error"@)->0;
    let description = match param(pairs, "error_description"@) {
        Some(d) => d,
        None => Seq::empty(),
    };
    let m = "Authentication error: "@ + error + " - "@ + description;
    assert(("Authentication error: "@ + error).is_prefix_of(m)) by {
        assert(m.subrange(0, ("Authentication error: "@ + error).len() as int) =~= (
        "Authentication error: "@ + error));
    }
    let text = http_response(STATUS_BAD_REQUEST@, error_page(error, description));
    assert(STATUS_BAD_REQUEST@.is_prefix_of(text)) by {
        assert(text.subrange(0, STATUS_BAD_REQUEST@.len() as int) =~= STATUS_BAD_REQUEST@);
    }
}

/// What the operator is told while the browser is opened; nothing in quiet
/// mode.
pub open spec fn opening_lines(quiet: bool, authorize_url: Seq<char>) -> Seq<SpanView> {
    if quiet {
        Seq::empty()
    } else {
        seq![
            plain("\n"@),
            tinted(Tint::Cyan, NOTICE_RULE@),
            plain("\n  "@),
            tinted(Tint::Cyan, "[*]"@),
            plain(" "@),
            tinted(Tint::Bold, "Opening browser for Azure authentication..."@),
            plain("\n"@),
            tinted(Tint::Cyan, NOTICE_RULE@),
            plain("\n\n  If the browser doesn't open, visit this URL:\n  "@),
            tinted(Tint::Underlined, authorize_url),
            plain("\n\n"@),
        ]
    }
}

/// What the operator is told when the code has arrived; nothing in quiet
/// mode.
pub open spec fn exchanging_lines(quiet: bool) -> Seq<SpanView> {
    if quiet {
        Seq::empty()
    } else {
        seq![
            plain("  "@),
            tinted(Tint::Cyan, "[*]"@),
            plain(" Authorization code received, exchanging for token...\n"@),
        ]
    }
}

/// The systems on which a browser can be opened.
#[derive(Debug, Clone, Copy, PartialEq, Eq, Structural)]
pub enum Platform {
    MacOs,
    Linux,
    Windows,
    Other,
}

/// The command that opens an address in the default browser: the program
/// and its arguments. There is none on a system that is not known.
pub open spec fn browser_command(url: Seq<char>, platform: Platform) -> Option<Seq<Seq<char>>> {
    match platform {
        Platform::MacOs => Some(seq!["open"@, url]),
        Platform::Linux => Some(seq!["xdg-open"@, url]),
        Platform::Windows => Some(seq!["cmd"@, "/c"@, "start"@, url]),
        Platform::Other => None,
    }
}

/// The command that opens an address in the operator's default browser.
/// Opening is best effort: the address is shown as well.
pub fn open_browser(url: &str, platform: Platform) -> (r: Option<Vec<String>>)
    ensures
        match r {
            Some(command) => browser_command(url@, platform) == Some(strings_view(command@)),
            None => browser_command(url@, platform) is None,
        },
{
    let mut command: Vec<String> = Vec::new();
    match platform {
        Platform::MacOs => {
            command.push("open".to_owned());
        },
        Platform::Linux => {
            command.push("xdg-open".to_owned());
        },
        Platform::Windows => {
            command.push("cmd".to_owned());
            command.push("/c".to_owned());
            command.push("start".to_owned());
        },
        Platform::Other => {
            return None;
        },
    }
    command.push(url.to_owned());
    assert(strings_view(command@) =~= browser_command(url@, platform)->0);
    Some(command)
}

impl InteractiveAuth {
    /// The notice that the browser is being opened, with the address to
    /// visit by hand, as pieces of text. Quiet mode has none.
    pub fn opening_notice(&self, session: &InteractiveSession) -> (r: Vec<Span>)
        ensures
            spans_view(r@) == opening_lines(self@.quiet, session.authorize_url@),
    {
        let mut b: Vec<Span> = Vec::new();
        if !self.quiet {
            push_text(&mut b, "\n");
            push_span(&mut b, Tint::Cyan, NOTICE_RULE);
            push_text(&mut b, "\n  ");
            push_span(&mut b, Tint::Cyan, "[*]");
            push_text(&mut b, " ");
            push_span(&mut b, Tint::Bold, "Opening browser for Azure authentication...");
            push_text(&mut b, "\n");
            push_span(&mut b, Tint::Cyan, NOTICE_RULE);
            push_text(&mut b, "\n\n  If the browser doesn't open, visit this URL:\n  ");
            push_span(&mut b, Tint::Underlined, session.authorize_url.as_str());
            push_text(&mut b, "\n\n");
        }
        assert(spans_view(b@) =~= opening_lines(self@.quiet, session.authorize_url@));
        b
    }

    /// The notice that the code has arrived and is being exchanged, as
    /// pieces of text. Quiet mode has none.
    pub fn exchanging_notice(&self) -> (r: Vec<Span>)
        ensures
            spans_view(r@) == exchanging_lines(self@.quiet),
    {
        let mut b: Vec<Span> = Vec::new();
        if !self.quiet {
            push_text(&mut b, "  ");
            push_span(&mut b, Tint::Cyan, "[*]");
            push_text(&mut b, " Authorization code received, exchanging for token...\n");
        }
        assert(spans_view(b@) =~= exchanging_lines(self@.quiet));
        b
    }
}

/// The step at which the listener or the client of the flow failed.
#[derive(Debug, Clone, Copy, PartialEq, Eq, Structural)]
pub enum FlowStep {
    /// The listener could not be bound to the loopback interface.
    Bind,
    /// The port of the listener could not be read.
    Address,
    /// The listener could not be made to wait.
    Blocking,
    /// No connection could be accepted.
    Accept,
    /// The request line could not be read.
    Read,
    /// No client for the token request could be made.
    Client,
}

impl FlowStep {
    /// What the error says of the step.
    pub open spec fn words(self) -> Seq<char> {
        match self {
            FlowStep::Bind => "Failed to bind localhost listener: "@,
            FlowStep::Address => "Failed to get listener address: "@,
            FlowStep::Blocking => "Failed to set listener blocking: "@,
            FlowStep::Accept => "Failed to accept callback connection: "@,
            FlowStep::Read => "Failed to read callback request: "@,
            FlowStep::Client => "Failed to create HTTP client: "@,
        }
    }

    /// The error for a failure at this step: an authentication error that
    /// names the step and gives the reason. It ends the flow.
    pub fn failure(self, reason: &str) -> (e: AppError)
        ensures
            e@ == AppErrorView::Auth(self.words() + reason@),
    {
        let mut t = match self {
            FlowStep::Bind => "Failed to bind localhost listener: ".to_owned(),
            FlowStep::Address => "Failed to get listener address: ".to_owned(),
            FlowStep::Blocking => "Failed to set listener blocking: ".to_owned(),
            FlowStep::Accept => "Failed to accept callback connection: ".to_owned(),
            FlowStep::Read => "Failed to read callback request: ".to_owned(),
            FlowStep::Client => "Failed to create HTTP client: ".to_owned(),
        };
        t.append(reason);
        AppError::Auth(t)
    }
}

/// Environment variable with which the caller sets how many seconds the
/// flow waits for the callback.
pub const CALLBACK_WAIT_VAR: &'static str = "AZURE_CALLBACK_TIMEOUT_SECS";

/// Seconds that the flow waits for the callback where the caller sets
/// nothing: as long as a device-code session lasts where the server names
/// no lifetime.
pub const DEFAULT_CALLBACK_WAIT_SECS: u64 = DEFAULT_SESSION_TIMEOUT_SECS;

/// The seconds that the flow waits for the callback, for what the caller
/// set: the number that the setting writes in decimal digits, where it
/// writes one above zero; else the default.
pub open spec fn callback_wait_of(setting: Option<Seq<char>>) -> u64 {
    match setting {
        Some(text) => match u64_of(text) {
            Some(n) => if n > 0 {
                n
            } else {
                DEFAULT_CALLBACK_WAIT_SECS
            },
            None => DEFAULT_CALLBACK_WAIT_SECS,
        },
        None => DEFAULT_CALLBACK_WAIT_SECS,
    }
}

/// What is reported where no callback arrived within the wait.
pub open spec fn callback_timeout(wait_secs: u64) -> AppErrorView {
    AppErrorView::Timeout(
        "No callback from the browser within "@ + decimal(wait_secs as nat) + " seconds"@,
    )
}

impl InteractiveAuth {
    /// The seconds that the flow waits for the callback: what the caller
    /// set, or the default. The wait is always bounded.
    pub fn callback_wait(setting: Option<&str>) -> (r: u64)
        ensures
            r == callback_wait_of(
                match setting {
                    Some(t) => Some(t@),
                    None => None,
                },
            ),
            r > 0,
    {
        match setting {
            Some(text) => match str_to_u64(text) {
                Some(n) => {
                    if n > 0 {
                        n
                    } else {
                        DEFAULT_CALLBACK_WAIT_SECS
                    }
                },
                None => DEFAULT_CALLBACK_WAIT_SECS,
            },
            None => DEFAULT_CALLBACK_WAIT_SECS,
        }
    }

    /// The error that ends the flow where no callback arrived within the
    /// wait: no token request is made.
    pub fn callback_timed_out(wait_secs: u64) -> (e: AppError)
        ensures
            e@ == callback_timeout(wait_secs),
    {
        let mut m = "No callback from the browser within ".to_owned();
        m.append(u64_to_decimal(wait_secs).as_str());
        m.append(" seconds");
        AppError::Timeout(m)
    }
}

} // verus!
