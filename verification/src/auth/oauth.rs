//! The calls into the `oauth2` and `url` crates. What these crates compute
//! is not proved here: each function below states what the library relies
//! on.

use crate::auth::{fields_view, Field};
use crate::text::opt_view;
use oauth2::{AuthUrl, ClientId, CsrfToken, PkceCodeChallenge, RedirectUrl, Scope};
use oauth2::basic::BasicClient;
use url::Url;
use vstd::prelude::*;

verus! {

/// The message with which `url::Url::parse` refuses a text, or `None` where
/// it accepts the text as an absolute URL.
pub uninterp spec fn url_parse_error_of(url: Seq<char>) -> Option<Seq<char>>;

/// The names and values that `url::Url::query_pairs` reads from the query of
/// a URL that `url::Url::parse` accepts, decoded and in their order.
pub uninterp spec fn url_query_pairs_of(url: Seq<char>) -> Seq<(Seq<char>, Seq<char>)>;

/// The address that `oauth2::AuthorizationRequest::url` builds for an
/// authorization-code request with the SHA-256 challenge of a code
/// verifier.
pub uninterp spec fn authorization_url_of(
    auth_url: Seq<char>,
    client_id: Seq<char>,
    redirect_uri: Seq<char>,
    scope: Seq<char>,
    extra_param: (Seq<char>, Seq<char>),
    code_verifier: Seq<char>,
    state: Seq<char>,
) -> Seq<char>;

/// What begins an authorization-code request: the address to open, the
/// state that binds the callback to the request, and the verifier that is
/// shown to the token endpoint later. It cannot be shown for debugging: the
/// verifier and the state are not for logs.
pub struct Authorization {
    pub url: String,
    pub csrf_state: String,
    pub code_verifier: String,
}

/// `url::Url::parse`: `None` where the text is an absolute URL, else the
/// text of the parse error. The outcome depends on the text alone.
#[verifier::external_body]
pub(crate) fn url_parse_error(url: &str) -> (r: Option<String>)
    ensures
        opt_view(r) == url_parse_error_of(url@),
{
    Url::parse(url).err().map(|e| e.to_string())
}

/// `url::Url::parse` followed by `url::Url::query_pairs`: the decoded pairs
/// of the query, or the text of the parse error.
#[verifier::external_body]
pub(crate) fn url_query_pairs(url: &str) -> (r: Result<Vec<Field>, String>)
    ensures
        match r {
            Ok(pairs) => url_parse_error_of(url@) is None && fields_view(pairs@)
                == url_query_pairs_of(url@),
            Err(e) => url_parse_error_of(url@) == Some(e@),
        },
{
    match Url::parse(url) {
        Ok(u) => Ok(
            u.query_pairs().map(|(k, v)| Field { name: k.into_owned(), value: v.into_owned() }).collect(),
        ),
        Err(e) => Err(e.to_string()),
    }
}

/// `oauth2::Client::authorize_url` with `CsrfToken::new_random` and the
/// challenge of `PkceCodeChallenge::new_random_sha256`, for one scope and
/// one extra parameter. The state and the verifier are random; the address
/// is the one that `oauth2` builds from the arguments, that verifier and
/// that state. Both URLs must be ones that `url::Url::parse` accepts.
#[verifier::external_body]
pub(crate) fn begin_authorization(
    auth_url: &str,
    client_id: &str,
    redirect_uri: &str,
    scope: &str,
    extra_param: &Field,
) -> (r: Authorization)
    requires
        url_parse_error_of(auth_url@) is None,
        url_parse_error_of(redirect_uri@) is None,
    ensures
        r.url@ == authorization_url_of(
            auth_url@,
            client_id@,
            redirect_uri@,
            scope@,
            extra_param@,
            r.code_verifier@,
            r.csrf_state@,
        ),
{
    let auth = AuthUrl::new(auth_url.to_owned()).unwrap();
    let client = BasicClient::new(ClientId::new(client_id.to_owned()), None, auth, None)
        .set_redirect_uri(RedirectUrl::new(redirect_uri.to_owned()).unwrap());
    let (challenge, verifier) = PkceCodeChallenge::new_random_sha256();
    let (url, state) = client.authorize_url(CsrfToken::new_random)
        .add_scope(Scope::new(scope.to_owned()))
        .add_extra_param(extra_param.name.clone(), extra_param.value.clone())
        .set_pkce_challenge(challenge)
        .url();
    Authorization {
        url: url.to_string(),
        csrf_state: state.secret().clone(),
        code_verifier: verifier.secret().clone(),
    }
}

} // verus!
