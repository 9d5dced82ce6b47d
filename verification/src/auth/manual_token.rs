//! A bearer token that the operator obtained elsewhere and hands in as it
//! is.

use crate::auth::{AuthProvider, Credentials, CredentialsView};
use crate::error::{AppError, AppErrorView};
use vstd::prelude::*;
use vstd::string::*;

verus! {

pub const MSG_TOKEN_EMPTY: &'static str = "Bearer token is empty";

/// Manual token authentication provider.
#[derive(Debug)]
pub struct ManualTokenAuth {
    token: String,
}

impl View for ManualTokenAuth {
    type V = Seq<char>;

    closed spec fn view(&self) -> Seq<char> {
        self.token@
    }
}

impl ManualTokenAuth {
    /// The provider for a token. An empty token is refused.
    pub fn new(token: String) -> (r: Result<ManualTokenAuth, AppError>)
        ensures
            match r {
                Ok(a) => token@.len() > 0 && a@ == token@,
                Err(e) => token@.len() == 0 && e@ == AppErrorView::InvalidBearerToken(
                    MSG_TOKEN_EMPTY@,
                ),
            },
    {
        if token.as_str().is_empty() {
            Err(AppError::InvalidBearerToken(MSG_TOKEN_EMPTY.to_owned()))
        } else {
            Ok(ManualTokenAuth { token })
        }
    }

    /// The token as credentials.
    pub fn get_credentials(&self) -> (r: Credentials)
        ensures
            r@ == CredentialsView::BearerToken(self@),
    {
        Credentials::BearerToken(self.token.clone())
    }
}

impl AuthProvider for ManualTokenAuth {
    fn method_name(&self) -> (r: &'static str)
        ensures
            r@ == "Manual Token"@,
    {
        "Manual Token"
    }
}

} // verus!
