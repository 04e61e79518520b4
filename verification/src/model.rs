//! The data that the flows exchange, each with its mathematical view.

use vstd::prelude::*;

verus! {

/// The identifiers of the application, supplied once by the caller.
#[derive(Clone, Debug, PartialEq, Eq)]
pub struct Credentials {
    pub client_id: String,
    pub tenant_id: String,
    pub client_secret: Option<String>,
}

pub ghost struct CredentialsView {
    pub client_id: Seq<char>,
    pub tenant_id: Seq<char>,
    pub client_secret: Option<Seq<char>>,
}

impl View for Credentials {
    type V = CredentialsView;

    open spec fn view(&self) -> CredentialsView {
        CredentialsView {
            client_id: self.client_id@,
            tenant_id: self.tenant_id@,
            client_secret: match self.client_secret {
                Some(s) => Some(s@),
                None => None,
            },
        }
    }
}

/// A bearer token as the identity provider issued it.
#[derive(Clone, Debug, PartialEq, Eq)]
pub struct AccessToken {
    pub token: String,
    pub token_type: String,
    pub expires_in: u64,
    pub refresh_token: Option<String>,
}

pub ghost struct AccessTokenView {
    pub token: Seq<char>,
    pub token_type: Seq<char>,
    pub expires_in: u64,
    pub refresh_token: Option<Seq<char>>,
}

impl View for AccessToken {
    type V = AccessTokenView;

    open spec fn view(&self) -> AccessTokenView {
        AccessTokenView {
            token: self.token@,
            token_type: self.token_type@,
            expires_in: self.expires_in,
            refresh_token: match self.refresh_token {
                Some(s) => Some(s@),
                None => None,
            },
        }
    }
}

/// Correlation data nested in an error answer.
#[derive(Clone, Debug, PartialEq, Eq)]
pub struct InnerError {
    pub date: String,
    pub request_id: String,
}

/// The error that the provider or the resource API answered with.
#[derive(Clone, Debug, PartialEq, Eq)]
pub struct ApiErrorDetail {
    pub code: String,
    pub message: String,
    pub inner: Option<InnerError>,
}

pub ghost struct ApiErrorView {
    pub code: Seq<char>,
    pub message: Seq<char>,
    pub inner: Option<(Seq<char>, Seq<char>)>,
}

impl View for ApiErrorDetail {
    type V = ApiErrorView;

    open spec fn view(&self) -> ApiErrorView {
        ApiErrorView {
            code: self.code@,
            message: self.message@,
            inner: match self.inner {
                Some(i) => Some((i.date@, i.request_id@)),
                None => None,
            },
        }
    }
}

/// Why a flow ended without a result.
#[derive(Clone, Debug, PartialEq, Eq)]
pub enum AuthError {
    /// A required identifier is missing.
    Configuration,
    /// The request could not be delivered or no answer came.
    Transport,
    /// The answer did not have the expected JSON shape.
    Protocol,
    /// The user or the service refused.
    AuthorizationDenied(ApiErrorDetail),
    /// The device code was not used in time.
    SessionExpired,
    /// Any other error code of the provider or the resource API.
    GenericApi(ApiErrorDetail),
}

pub ghost enum AuthErrorView {
    Configuration,
    Transport,
    Protocol,
    AuthorizationDenied(ApiErrorView),
    SessionExpired,
    GenericApi(ApiErrorView),
}

impl View for AuthError {
    type V = AuthErrorView;

    open spec fn view(&self) -> AuthErrorView {
        match self {
            AuthError::Configuration => AuthErrorView::Configuration,
            AuthError::Transport => AuthErrorView::Transport,
            AuthError::Protocol => AuthErrorView::Protocol,
            AuthError::AuthorizationDenied(d) => AuthErrorView::AuthorizationDenied(d@),
            AuthError::SessionExpired => AuthErrorView::SessionExpired,
            AuthError::GenericApi(d) => AuthErrorView::GenericApi(d@),
        }
    }
}

/// What the device-code endpoint answered with when the flow was opened.
#[derive(Clone, Debug, PartialEq, Eq)]
pub struct DeviceCodeSession {
    pub device_code: String,
    pub user_code: String,
    pub verification_uri: String,
    pub expires_in: u64,
    pub interval: u64,
}

pub ghost struct SessionView {
    pub device_code: Seq<char>,
    pub user_code: Seq<char>,
    pub verification_uri: Seq<char>,
    pub expires_in: u64,
    pub interval: u64,
}

impl View for DeviceCodeSession {
    type V = SessionView;

    open spec fn view(&self) -> SessionView {
        SessionView {
            device_code: self.device_code@,
            user_code: self.user_code@,
            verification_uri: self.verification_uri@,
            expires_in: self.expires_in,
            interval: self.interval,
        }
    }
}

/// One user of the directory, as the resource API listed it.
#[derive(Clone, Debug, PartialEq, Eq)]
pub struct UserSummary {
    pub id: String,
    pub display_name: String,
}

pub ghost struct UserView {
    pub id: Seq<char>,
    pub display_name: Seq<char>,
}

impl View for UserSummary {
    type V = UserView;

    open spec fn view(&self) -> UserView {
        UserView { id: self.id@, display_name: self.display_name@ }
    }
}

/// A POST request with a form body of name and value pairs.
#[derive(Clone, Debug, PartialEq, Eq)]
pub struct FormRequest {
    pub url: String,
    pub fields: Vec<(String, String)>,
}

/// A GET request that carries a bearer credential.
#[derive(Clone, Debug, PartialEq, Eq)]
pub struct GetRequest {
    pub url: String,
    pub authorization: String,
}

/// Checks the identifiers that the caller was configured with. The
/// application's identifier and the tenant's are required; the secret is
/// needed by the client-credentials grant alone and is checked there.
pub fn configure(
    client_id: Option<String>,
    tenant_id: Option<String>,
    client_secret: Option<String>,
) -> (r: Result<Credentials, AuthError>)
    ensures
        match (client_id, tenant_id) {
            (Some(c), Some(t)) => r is Ok && r->Ok_0@ == (CredentialsView {
                client_id: c@,
                tenant_id: t@,
                client_secret: match client_secret {
                    Some(s) => Some(s@),
                    None => None,
                },
            }),
            _ => r is Err && r->Err_0@ == AuthErrorView::Configuration,
        },
{
    match (client_id, tenant_id) {
        (Some(client_id), Some(tenant_id)) => Ok(Credentials { client_id, tenant_id, client_secret }),
        _ => Err(AuthError::Configuration),
    }
}

} // verus!
