//! Managed identity: a token from the platform's metadata endpoint, without
//! any stored secret.
//!
//! Which endpoint serves the identity is read once from what the
//! environment holds; the environment itself is read by the caller and
//! handed in.

use crate::auth::{
    field, push_shown_body, shown_body, AuthProvider, Credentials, CredentialsView, Field, Request,
    RequestView,
};
use crate::config::Cloud;
use crate::error::{AppError, AppErrorView};
use crate::text::{clone_opt, opt_view};
use vstd::prelude::*;
use vstd::string::*;

verus! {

/// Environment variable that names the identity endpoint of App Service and
/// Container Apps.
pub const IDENTITY_ENDPOINT_VAR: &'static str = "IDENTITY_ENDPOINT";

/// Environment variable that holds the secret header value of that
/// endpoint.
pub const IDENTITY_HEADER_VAR: &'static str = "IDENTITY_HEADER";

/// Environment variable of the older endpoint on virtual machines.
pub const MSI_ENDPOINT_VAR: &'static str = "MSI_ENDPOINT";

/// Seconds after which a request to an identity endpoint is given up.
pub const IDENTITY_TIMEOUT_SECS: u64 = 5;

pub const VM_TOKEN_URL: &'static str =
    "http://169.254.169.254/metadata/identity/oauth2/token?api-version=2018-02-01&resource=";

pub const MSG_VM_UNREACHABLE: &'static str =
    "Could not reach IMDS endpoint (169.254.169.254). This may not be an Azure VM, or managed identity is not enabled: ";

pub const MSG_VM_ENABLE: &'static str = ". Ensure managed identity is enabled on this VM.";

/// What the environment says of managed identity: the values of the three
/// variables, each where it is set.
#[derive(Debug)]
pub struct ManagedIdentityEnv {
    pub identity_endpoint: Option<String>,
    pub identity_header: Option<String>,
    pub msi_endpoint: Option<String>,
}

pub ghost struct ManagedIdentityEnvView {
    pub identity_endpoint: Option<Seq<char>>,
    pub identity_header: Option<Seq<char>>,
    pub msi_endpoint: Option<Seq<char>>,
}

impl View for ManagedIdentityEnv {
    type V = ManagedIdentityEnvView;

    open spec fn view(&self) -> ManagedIdentityEnvView {
        ManagedIdentityEnvView {
            identity_endpoint: opt_view(self.identity_endpoint),
            identity_header: opt_view(self.identity_header),
            msi_endpoint: opt_view(self.msi_endpoint),
        }
    }
}

impl Clone for ManagedIdentityEnv {
    fn clone(&self) -> (r: ManagedIdentityEnv)
        ensures
            r@ == self@,
    {
        ManagedIdentityEnv {
            identity_endpoint: clone_opt(&self.identity_endpoint),
            identity_header: clone_opt(&self.identity_header),
            msi_endpoint: clone_opt(&self.msi_endpoint),
        }
    }
}

/// Managed Identity endpoint types.
#[derive(Debug)]
pub enum ManagedIdentityEndpoint {
    /// App Service / Container Apps (has identity endpoint and header).
    AppService { endpoint: String, header: String },
    /// Virtual Machine (uses the metadata service).
    VirtualMachine,
}

pub ghost enum ManagedIdentityEndpointView {
    AppService { endpoint: Seq<char>, header: Seq<char> },
    VirtualMachine,
}

impl View for ManagedIdentityEndpoint {
    type V = ManagedIdentityEndpointView;

    open spec fn view(&self) -> ManagedIdentityEndpointView {
        match self {
            ManagedIdentityEndpoint::AppService { endpoint, header } => ManagedIdentityEndpointView::AppService {
                endpoint: endpoint@,
                header: header@,
            },
            ManagedIdentityEndpoint::VirtualMachine => ManagedIdentityEndpointView::VirtualMachine,
        }
    }
}

impl ManagedIdentityEnvView {
    /// The endpoint that serves the identity: that of App Service where both
    /// its address and its header are set, else the metadata service of the
    /// virtual machine, whether the older variable is set or not.
    pub open spec fn endpoint(self) -> ManagedIdentityEndpointView {
        if self.identity_endpoint is Some && self.identity_header is Some {
            ManagedIdentityEndpointView::AppService {
                endpoint: self.identity_endpoint->0,
                header: self.identity_header->0,
            }
        } else {
            ManagedIdentityEndpointView::VirtualMachine
        }
    }
}

/// What came back from an identity endpoint.
#[derive(Debug)]
pub enum IdentityReply {
    /// The endpoint could not be reached; the transport's message.
    SendFailed(String),
    /// The endpoint answered with a status outside 200 to 299.
    Refused { status: String, body: Option<String> },
    /// The endpoint answered with success, but the body could not be read
    /// as a token; the reader's message.
    Malformed(String),
    /// The access token of the identity.
    Token(String),
}

pub ghost enum IdentityReplyView {
    SendFailed(Seq<char>),
    Refused { status: Seq<char>, body: Option<Seq<char>> },
    Malformed(Seq<char>),
    Token(Seq<char>),
}

impl View for IdentityReply {
    type V = IdentityReplyView;

    open spec fn view(&self) -> IdentityReplyView {
        match self {
            IdentityReply::SendFailed(m) => IdentityReplyView::SendFailed(m@),
            IdentityReply::Refused { status, body } => IdentityReplyView::Refused {
                status: status@,
                body: opt_view(*body),
            },
            IdentityReply::Malformed(m) => IdentityReplyView::Malformed(m@),
            IdentityReply::Token(t) => IdentityReplyView::Token(t@),
        }
    }
}

/// Managed Identity authentication provider.
#[derive(Debug)]
pub struct ManagedIdentityAuth {
    endpoint: ManagedIdentityEndpoint,
    resource: String,
    user_assigned_client_id: Option<String>,
}

pub ghost struct ManagedIdentityAuthView {
    pub endpoint: ManagedIdentityEndpointView,
    pub resource: Seq<char>,
    pub user_assigned_client_id: Option<Seq<char>>,
}

impl View for ManagedIdentityAuth {
    type V = ManagedIdentityAuthView;

    closed spec fn view(&self) -> ManagedIdentityAuthView {
        ManagedIdentityAuthView {
            endpoint: self.endpoint@,
            resource: self.resource@,
            user_assigned_client_id: opt_view(self.user_assigned_client_id),
        }
    }
}

/// The resource for which tokens are asked in a cloud.
pub open spec fn resource_text(cloud: Cloud) -> Seq<char> {
    match cloud {
        Cloud::Global => "https://cognitiveservices.azure.com"@,
        Cloud::China => "https://cognitiveservices.azure.cn"@,
    }
}

/// The query parameter that selects a user-assigned identity, where one is
/// selected.
pub open spec fn client_suffix(client_id: Option<Seq<char>>) -> Seq<char> {
    match client_id {
        Some(id) => "&client_id="@ + id,
        None => Seq::empty(),
    }
}

impl ManagedIdentityAuthView {
    /// The request to the identity endpoint of App Service.
    pub open spec fn app_service_request(self, endpoint: Seq<char>, secret: Seq<char>) -> RequestView {
        RequestView {
            url: endpoint + "?api-version=2019-08-01&resource="@ + self.resource + client_suffix(
                self.user_assigned_client_id,
            ),
            headers: seq![("X-IDENTITY-HEADER"@, secret)],
            form: Seq::empty(),
        }
    }

    /// The request to the metadata service of a virtual machine.
    pub open spec fn vm_request(self) -> RequestView {
        RequestView {
            url: VM_TOKEN_URL@ + self.resource + client_suffix(self.user_assigned_client_id),
            headers: seq![("Metadata"@, "true"@)],
            form: Seq::empty(),
        }
    }

    /// The request for a token, by the endpoint that was detected.
    pub open spec fn token_request(self) -> RequestView {
        match self.endpoint {
            ManagedIdentityEndpointView::AppService { endpoint, header } => self.app_service_request(
                endpoint,
                header,
            ),
            ManagedIdentityEndpointView::VirtualMachine => self.vm_request(),
        }
    }

    /// What a reply means: the token, or the error "managed identity not
    /// available" with the reason.
    pub open spec fn outcome(self, reply: IdentityReplyView) -> Result<Seq<char>, AppErrorView> {
        let vm = self.endpoint is VirtualMachine;
        match reply {
            IdentityReplyView::SendFailed(m) => Err(
                AppErrorView::ManagedIdentityNotAvailable(
                    if vm {
                        MSG_VM_UNREACHABLE@ + m
                    } else {
                        "Failed to reach App Service identity endpoint: "@ + m
                    },
                ),
            ),
            IdentityReplyView::Refused { status, body } => Err(
                AppErrorView::ManagedIdentityNotAvailable(
                    if vm {
                        "HTTP "@ + status + ": "@ + shown_body(body) + MSG_VM_ENABLE@
                    } else {
                        "HTTP "@ + status + ": "@ + shown_body(body)
                    },
                ),
            ),
            IdentityReplyView::Malformed(m) => Err(
                AppErrorView::ManagedIdentityNotAvailable("Failed to parse response: "@ + m),
            ),
            IdentityReplyView::Token(t) => Ok(t),
        }
    }
}

fn push_client_suffix(url: &mut String, client_id: &Option<String>)
    ensures
        final(url)@ == old(url)@ + client_suffix(opt_view(*client_id)),
{
    match client_id {
        Some(id) => {
            url.append("&client_id=");
            url.append(id.as_str());
            assert(final(url)@ =~= old(url)@ + ("&client_id="@ + id@));
        },
        None => {
            assert(old(url)@ + Seq::<char>::empty() =~= old(url)@);
        },
    }
}

impl ManagedIdentityAuth {
    /// The provider for a cloud, with the endpoint that the environment
    /// points to. A client ID selects a user-assigned identity.
    pub fn new(cloud: &Cloud, user_assigned_client_id: Option<String>, env: ManagedIdentityEnv) -> (r:
        Result<ManagedIdentityAuth, AppError>)
        ensures
            r matches Ok(a) && a@ == (ManagedIdentityAuthView {
                endpoint: env@.endpoint(),
                resource: resource_text(*cloud),
                user_assigned_client_id: opt_view(user_assigned_client_id),
            }),
    {
        let endpoint = match ManagedIdentityAuth::detect_endpoint(env) {
            Ok(e) => e,
            Err(e) => {
                return Err(e);
            },
        };
        let resource = match cloud {
            Cloud::Global => "https://cognitiveservices.azure.com",
            Cloud::China => "https://cognitiveservices.azure.cn",
        };
        Ok(ManagedIdentityAuth { endpoint, resource: resource.to_owned(), user_assigned_client_id })
    }

    /// Detect which managed identity endpoint to use from what the
    /// environment holds. Detection never fails: without the two values of
    /// App Service, the metadata service of the virtual machine is used.
    pub fn detect_endpoint(env: ManagedIdentityEnv) -> (r: Result<ManagedIdentityEndpoint, AppError>)
        ensures
            r matches Ok(e) && e@ == env@.endpoint(),
    {
        let ManagedIdentityEnv { identity_endpoint, identity_header, msi_endpoint } = env;
        match identity_endpoint {
            Some(endpoint) => match identity_header {
                Some(header) => {
                    return Ok(ManagedIdentityEndpoint::AppService { endpoint, header });
                },
                None => {},
            },
            None => {},
        }
        if msi_endpoint.is_some() {
            return Ok(ManagedIdentityEndpoint::VirtualMachine);
        }
        Ok(ManagedIdentityEndpoint::VirtualMachine)
    }

    /// The endpoint that was detected.
    pub fn endpoint(&self) -> (r: &ManagedIdentityEndpoint)
        ensures
            r@ == self@.endpoint,
    {
        &self.endpoint
    }

    /// The error where no client for the identity endpoint can be made: the
    /// identity is not available.
    pub fn client_failure(reason: &str) -> (e: AppError)
        ensures
            e@ == AppErrorView::ManagedIdentityNotAvailable(
                "Failed to create HTTP client: "@ + reason@,
            ),
    {
        let mut t = "Failed to create HTTP client: ".to_owned();
        t.append(reason);
        AppError::ManagedIdentityNotAvailable(t)
    }

    /// The request for a token, by the endpoint that was detected.
    pub fn fetch_token(&self) -> (r: Request)
        ensures
            r@ == self@.token_request(),
    {
        match &self.endpoint {
            ManagedIdentityEndpoint::AppService { endpoint, header } => self.fetch_app_service_token(
                endpoint.as_str(),
                header.as_str(),
            ),
            ManagedIdentityEndpoint::VirtualMachine => self.fetch_vm_token(),
        }
    }

    /// The request to the identity endpoint of App Service: a GET with the
    /// API version, the resource and, for a user-assigned identity, its
    /// client, and with the secret in a header.
    pub fn fetch_app_service_token(&self, endpoint: &str, secret: &str) -> (r: Request)
        ensures
            r@ == self@.app_service_request(endpoint@, secret@),
    {
        let mut url = endpoint.to_owned();
        url.append("?api-version=2019-08-01&resource=");
        url.append(self.resource.as_str());
        push_client_suffix(&mut url, &self.user_assigned_client_id);
        let mut headers: Vec<Field> = Vec::new();
        headers.push(field("X-IDENTITY-HEADER", secret));
        let r = Request { url, headers, form: Vec::new() };
        assert(r@.headers =~= self@.app_service_request(endpoint@, secret@).headers);
        assert(r@.form =~= self@.app_service_request(endpoint@, secret@).form);
        r
    }

    /// The request to the metadata service of a virtual machine: a GET to
    /// its fixed link-local address with the header `Metadata: true`.
    pub fn fetch_vm_token(&self) -> (r: Request)
        ensures
            r@ == self@.vm_request(),
    {
        let mut url = VM_TOKEN_URL.to_owned();
        url.append(self.resource.as_str());
        push_client_suffix(&mut url, &self.user_assigned_client_id);
        let mut headers: Vec<Field> = Vec::new();
        headers.push(field("Metadata", "true"));
        let r = Request { url, headers, form: Vec::new() };
        assert(r@.headers =~= self@.vm_request().headers);
        assert(r@.form =~= self@.vm_request().form);
        r
    }

    /// Judges the reply of the identity endpoint: the token, or the error
    /// "managed identity not available". A transport failure is that error
    /// too, never a network error, so that the operator is told to choose
    /// another method.
    pub fn access_token(&self, reply: IdentityReply) -> (r: Result<String, AppError>)
        ensures
            match r {
                Ok(t) => self@.outcome(reply@) == Ok::<Seq<char>, AppErrorView>(t@),
                Err(e) => self@.outcome(reply@) == Err::<Seq<char>, AppErrorView>(e@),
            },
    {
        let vm = match &self.endpoint {
            ManagedIdentityEndpoint::VirtualMachine => true,
            _ => false,
        };
        match reply {
            IdentityReply::SendFailed(m) => {
                let mut t = if vm {
                    MSG_VM_UNREACHABLE.to_owned()
                } else {
                    "Failed to reach App Service identity endpoint: ".to_owned()
                };
                t.append(m.as_str());
                Err(AppError::ManagedIdentityNotAvailable(t))
            },
            IdentityReply::Refused { status, body } => {
                let mut t = "HTTP ".to_owned();
                t.append(status.as_str());
                t.append(": ");
                push_shown_body(&mut t, &body);
                if vm {
                    t.append(MSG_VM_ENABLE);
                }
                Err(AppError::ManagedIdentityNotAvailable(t))
            },
            IdentityReply::Malformed(m) => {
                let mut t = "Failed to parse response: ".to_owned();
                t.append(m.as_str());
                Err(AppError::ManagedIdentityNotAvailable(t))
            },
            IdentityReply::Token(t) => Ok(t),
        }
    }

    /// The credentials for the reply of the identity endpoint.
    pub fn get_credentials(&self, reply: IdentityReply) -> (r: Result<Credentials, AppError>)
        ensures
            match r {
                Ok(c) => self@.outcome(reply@) matches Ok(t) && c@ == CredentialsView::BearerToken(
                    t,
                ),
                Err(e) => self@.outcome(reply@) == Err::<Seq<char>, AppErrorView>(e@),
            },
    {
        match self.access_token(reply) {
            Ok(t) => Ok(Credentials::BearerToken(t)),
            Err(e) => Err(e),
        }
    }
}

impl AuthProvider for ManagedIdentityAuth {
    fn method_name(&self) -> (r: &'static str)
        ensures
            r@ == "Managed Identity"@,
    {
        "Managed Identity"
    }
}

/// With the address and the header of App Service both set, the identity is
/// served by App Service; with neither set, by the metadata service of the
/// virtual machine. The older variable changes nothing.
pub proof fn law_endpoint_detection(env: ManagedIdentityEnvView)
    ensures
        env.identity_endpoint is Some && env.identity_header is Some ==> env.endpoint()
            == (ManagedIdentityEndpointView::AppService {
            endpoint: env.identity_endpoint->0,
            header: env.identity_header->0,
        }),
        env.identity_endpoint is None && env.identity_header is None ==> env.endpoint()
            is VirtualMachine,
        env.identity_endpoint is None || env.identity_header is None ==> env.endpoint()
            is VirtualMachine,
{
}

/// Whatever an identity endpoint answers short of a token, the error is
/// "managed identity not available": no reply is reported as a network or
/// an authentication error.
pub proof fn law_identity_failures_are_availability_errors(
    auth: ManagedIdentityAuthView,
    reply: IdentityReplyView,
)
    ensures
        auth.outcome(reply) matches Err(e) ==> e is ManagedIdentityNotAvailable,
        auth.outcome(reply) is Ok <==> reply is Token,
{
}

} // verus!
