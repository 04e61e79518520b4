//! The token endpoint of the identity provider: the client-credentials
//! request, and what an answer of the endpoint means.

use crate::json::{
    json_parse, json_view, opt_text, parse_document, text_at, text_field, unsigned_at,
    unsigned_field, JsonView,
};
use crate::model::{
    AccessToken, AccessTokenView, ApiErrorDetail, ApiErrorView, AuthError, AuthErrorView,
    Credentials, FormRequest,
};
use vstd::prelude::*;
use vstd::string::StringExecFns;

verus! {

/// The status on which the token endpoint hands out a token.
pub const STATUS_OK: u16 = 200;

/// The address of the token endpoint of a tenant.
pub open spec fn token_url_of(tenant: Seq<char>) -> Seq<char> {
    "https://login.microsoftonline.com/"@ + tenant + "/oauth2/v2.0/token"@
}

/// Builds the address of the token endpoint of a tenant.
pub fn token_url(tenant: &str) -> (r: String)
    ensures
        r@ == token_url_of(tenant@),
{
    String::from_str("https://login.microsoftonline.com/").concat(tenant).concat(
        "/oauth2/v2.0/token",
    )
}

/// Whether a text is the given literal.
pub fn same_text(a: &String, b: &str) -> (r: bool)
    ensures
        r == (a@ == b@),
{
    let other = String::from_str(b);
    *a == other
}

/// The form fields of the client-credentials grant, in the order sent.
pub open spec fn client_credentials_fields(client_id: Seq<char>, secret: Seq<char>) -> Seq<
    (Seq<char>, Seq<char>),
> {
    seq![
        ("client_id"@, client_id),
        ("scope"@, "https://graph.microsoft.com/.default"@),
        ("client_secret"@, secret),
        ("grant_type"@, "client_credentials"@),
    ]
}

/// Whether a request's form holds exactly the given pairs, in order.
pub open spec fn form_is(fields: Seq<(String, String)>, pairs: Seq<(Seq<char>, Seq<char>)>) -> bool {
    &&& fields.len() == pairs.len()
    &&& forall|i: int|
        0 <= i < fields.len() ==> (#[trigger] fields[i]).0@ == pairs[i].0 && fields[i].1@
            == pairs[i].1
}

/// The request of the client-credentials grant. It needs the application's
/// secret: without one nothing is sent and the configuration is at fault.
pub fn client_credentials_request(credentials: &Credentials) -> (r: Result<FormRequest, AuthError>)
    ensures
        credentials.client_secret is None ==> r is Err && r->Err_0@
            == AuthErrorView::Configuration,
        credentials.client_secret matches Some(secret) ==> r is Ok && r->Ok_0.url@ == token_url_of(
            credentials.tenant_id@,
        ) && form_is(
            r->Ok_0.fields@,
            client_credentials_fields(credentials.client_id@, secret@),
        ),
{
    match &credentials.client_secret {
        None => Err(AuthError::Configuration),
        Some(secret) => {
            let mut fields: Vec<(String, String)> = Vec::new();
            fields.push((String::from_str("client_id"), credentials.client_id.clone()));
            fields.push(
                (String::from_str("scope"), String::from_str("https://graph.microsoft.com/.default")),
            );
            fields.push((String::from_str("client_secret"), secret.clone()));
            fields.push((String::from_str("grant_type"), String::from_str("client_credentials")));
            Ok(FormRequest { url: token_url(credentials.tenant_id.as_str()), fields })
        },
    }
}

/// The error codes of the identity provider that the flows tell apart.
#[derive(Clone, Copy, Debug, PartialEq, Eq)]
pub enum ProviderCode {
    AuthorizationPending,
    AuthorizationDeclined,
    AccessDenied,
    ExpiredToken,
    Unrecognized,
}

/// The known code that a text of the provider stands for.
pub open spec fn provider_code_of(code: Seq<char>) -> ProviderCode {
    if code == "authorization_pending"@ {
        ProviderCode::AuthorizationPending
    } else if code == "authorization_declined"@ {
        ProviderCode::AuthorizationDeclined
    } else if code == "access_denied"@ {
        ProviderCode::AccessDenied
    } else if code == "expired_token"@ {
        ProviderCode::ExpiredToken
    } else {
        ProviderCode::Unrecognized
    }
}

/// Recognises an error code of the identity provider. A code that is not
/// known is `Unrecognized`.
pub fn provider_code(code: &String) -> (r: ProviderCode)
    ensures
        r == provider_code_of(code@),
{
    if same_text(code, "authorization_pending") {
        ProviderCode::AuthorizationPending
    } else if same_text(code, "authorization_declined") {
        ProviderCode::AuthorizationDeclined
    } else if same_text(code, "access_denied") {
        ProviderCode::AccessDenied
    } else if same_text(code, "expired_token") {
        ProviderCode::ExpiredToken
    } else {
        ProviderCode::Unrecognized
    }
}

/// The members of an answer of the token endpoint that the flows read.
#[derive(Clone, Debug, PartialEq, Eq)]
pub struct TokenFields {
    pub access_token: Option<String>,
    pub token_type: Option<String>,
    pub expires_in: Option<u64>,
    pub refresh_token: Option<String>,
    pub error: Option<String>,
    pub error_description: Option<String>,
}

pub ghost struct TokenFieldsView {
    pub access_token: Option<Seq<char>>,
    pub token_type: Option<Seq<char>>,
    pub expires_in: Option<u64>,
    pub refresh_token: Option<Seq<char>>,
    pub error: Option<Seq<char>>,
    pub error_description: Option<Seq<char>>,
}

impl View for TokenFields {
    type V = TokenFieldsView;

    open spec fn view(&self) -> TokenFieldsView {
        TokenFieldsView {
            access_token: opt_text(self.access_token),
            token_type: opt_text(self.token_type),
            expires_in: self.expires_in,
            refresh_token: opt_text(self.refresh_token),
            error: opt_text(self.error),
            error_description: opt_text(self.error_description),
        }
    }
}

/// The members that a document of the token endpoint holds.
pub open spec fn token_fields_of(doc: JsonView) -> TokenFieldsView {
    TokenFieldsView {
        access_token: text_at(doc, "access_token"@),
        token_type: text_at(doc, "token_type"@),
        expires_in: unsigned_at(doc, "expires_in"@),
        refresh_token: text_at(doc, "refresh_token"@),
        error: text_at(doc, "error"@),
        error_description: text_at(doc, "error_description"@),
    }
}

/// Reads the members of an answer of the token endpoint.
pub fn read_token_fields(doc: &serde_json::Value) -> (r: TokenFields)
    ensures
        r@ == token_fields_of(json_view(*doc)),
{
    TokenFields {
        access_token: text_field(doc, "access_token"),
        token_type: text_field(doc, "token_type"),
        expires_in: unsigned_field(doc, "expires_in"),
        refresh_token: text_field(doc, "refresh_token"),
        error: text_field(doc, "error"),
        error_description: text_field(doc, "error_description"),
    }
}

/// The token that an answer with the member `access_token` carries. An absent
/// `token_type` reads as `Bearer`, an absent `expires_in` as 0.
pub open spec fn issued_token(access_token: Seq<char>, f: TokenFieldsView) -> AccessTokenView {
    AccessTokenView {
        token: access_token,
        token_type: match f.token_type {
            Some(t) => t,
            None => "Bearer"@,
        },
        expires_in: match f.expires_in {
            Some(n) => n,
            None => 0,
        },
        refresh_token: f.refresh_token,
    }
}

/// The detail of an error answer of the identity provider: its code, and its
/// description as the message (empty where the answer gave none).
pub open spec fn provider_detail(code: Seq<char>, description: Option<Seq<char>>) -> ApiErrorView {
    ApiErrorView {
        code,
        message: match description {
            Some(d) => d,
            None => Seq::<char>::empty(),
        },
        inner: None,
    }
}

/// The error that an error answer to a poll ends a device-code flow with: a
/// refusal for the two denial codes, an expiry for an expired device code,
/// and a generic error for every other code.
pub open spec fn provider_error(code: Seq<char>, description: Option<Seq<char>>) -> AuthErrorView {
    match provider_code_of(code) {
        ProviderCode::AuthorizationDeclined | ProviderCode::AccessDenied => {
            AuthErrorView::AuthorizationDenied(provider_detail(code, description))
        },
        ProviderCode::ExpiredToken => AuthErrorView::SessionExpired,
        _ => AuthErrorView::GenericApi(provider_detail(code, description)),
    }
}

/// The error that an error answer ends a request with where no device code
/// is being polled: a refusal for the two denial codes and a generic error
/// for every other code. It always carries the answer's code and description.
pub open spec fn grant_error(code: Seq<char>, description: Option<Seq<char>>) -> AuthErrorView {
    match provider_code_of(code) {
        ProviderCode::AuthorizationDeclined | ProviderCode::AccessDenied => {
            AuthErrorView::AuthorizationDenied(provider_detail(code, description))
        },
        _ => AuthErrorView::GenericApi(provider_detail(code, description)),
    }
}

/// The detail that an error carries, if it carries one.
pub open spec fn detail_of(e: AuthErrorView) -> Option<ApiErrorView> {
    match e {
        AuthErrorView::AuthorizationDenied(d) => Some(d),
        AuthErrorView::GenericApi(d) => Some(d),
        _ => None,
    }
}

/// What an answer of the token endpoint means for the client-credentials
/// grant: a token on status 200 with `access_token`; else the error of the
/// answer's `error` member, with its code and description; else a protocol
/// error.
pub open spec fn token_outcome(status: u16, f: TokenFieldsView) -> Result<
    AccessTokenView,
    AuthErrorView,
> {
    if status == STATUS_OK && f.access_token is Some {
        Ok(issued_token(f.access_token->Some_0, f))
    } else {
        match f.error {
            Some(code) => Err(grant_error(code, f.error_description)),
            None => Err(AuthErrorView::Protocol),
        }
    }
}

/// The view of a flow's result.
pub open spec fn token_result_view(r: Result<AccessToken, AuthError>) -> Result<
    AccessTokenView,
    AuthErrorView,
> {
    match r {
        Ok(t) => Ok(t@),
        Err(e) => Err(e@),
    }
}

/// Builds the token of an answer that holds `access_token`.
pub fn issue_token(
    access_token: String,
    token_type: Option<String>,
    expires_in: Option<u64>,
    refresh_token: Option<String>,
) -> (r: AccessToken)
    ensures
        r@ == issued_token(
            access_token@,
            TokenFieldsView {
                access_token: Some(access_token@),
                token_type: opt_text(token_type),
                expires_in,
                refresh_token: opt_text(refresh_token),
                error: None,
                error_description: None,
            },
        ),
{
    let token_type = match token_type {
        Some(t) => t,
        None => String::from_str("Bearer"),
    };
    let expires_in: u64 = match expires_in {
        Some(n) => n,
        None => 0,
    };
    AccessToken { token: access_token, token_type, expires_in, refresh_token }
}

/// Builds the error of an error answer to a poll.
pub fn provider_failure(code: String, description: Option<String>) -> (r: AuthError)
    ensures
        r@ == provider_error(code@, opt_text(description)),
{
    let known = provider_code(&code);
    let message = match description {
        Some(d) => d,
        None => String::new(),
    };
    match known {
        ProviderCode::AuthorizationDeclined | ProviderCode::AccessDenied => {
            AuthError::AuthorizationDenied(ApiErrorDetail { code, message, inner: None })
        },
        ProviderCode::ExpiredToken => AuthError::SessionExpired,
        _ => AuthError::GenericApi(ApiErrorDetail { code, message, inner: None }),
    }
}

/// Builds the error of an error answer where no device code is being polled.
/// The error is a refusal or a generic error and keeps the answer's code and
/// description.
pub fn grant_failure(code: String, description: Option<String>) -> (r: AuthError)
    ensures
        r@ == grant_error(code@, opt_text(description)),
        r is AuthorizationDenied || r is GenericApi,
        detail_of(r@) == Some(provider_detail(code@, opt_text(description))),
{
    let known = provider_code(&code);
    let message = match description {
        Some(d) => d,
        None => String::new(),
    };
    match known {
        ProviderCode::AuthorizationDeclined | ProviderCode::AccessDenied => {
            AuthError::AuthorizationDenied(ApiErrorDetail { code, message, inner: None })
        },
        _ => AuthError::GenericApi(ApiErrorDetail { code, message, inner: None }),
    }
}

/// Decides the client-credentials grant from the status and the members of
/// the answer.
pub fn token_from_fields(status: u16, fields: TokenFields) -> (r: Result<AccessToken, AuthError>)
    ensures
        token_result_view(r) == token_outcome(status, fields@),
        status != STATUS_OK ==> r is Err,
        status == STATUS_OK && fields.access_token is Some ==> r is Ok && r->Ok_0.token@
            == fields.access_token->Some_0@,
        r is Err ==> !(r->Err_0 is SessionExpired),
        status != STATUS_OK && fields.error is Some ==> r is Err && (r->Err_0 is AuthorizationDenied
            || r->Err_0 is GenericApi) && detail_of(r->Err_0@) == Some(
            provider_detail(fields.error->Some_0@, opt_text(fields.error_description)),
        ),
{
    let TokenFields { access_token, token_type, expires_in, refresh_token, error, error_description } =
        fields;
    match access_token {
        Some(t) if status == STATUS_OK => Ok(issue_token(t, token_type, expires_in, refresh_token)),
        _ => match error {
            Some(code) => Err(grant_failure(code, error_description)),
            None => Err(AuthError::Protocol),
        },
    }
}

/// What the body of an answer of the token endpoint means for the
/// client-credentials grant. A body that is no JSON is a protocol error.
pub open spec fn token_response_outcome(status: u16, body: Seq<char>) -> Result<
    AccessTokenView,
    AuthErrorView,
> {
    match json_parse(body) {
        Some(doc) => token_outcome(status, token_fields_of(doc)),
        None => Err(AuthErrorView::Protocol),
    }
}

/// Interprets the answer to a client-credentials request. A token comes back
/// exactly on status 200 with a JSON body that holds `access_token`, and it
/// is that member's text; any other status gives an error.
pub fn acquire_token(status: u16, body: &str) -> (r: Result<AccessToken, AuthError>)
    ensures
        token_result_view(r) == token_response_outcome(status, body@),
        status != STATUS_OK ==> r is Err,
        r is Ok <==> status == STATUS_OK && json_parse(body@) is Some && text_at(
            json_parse(body@)->Some_0,
            "access_token"@,
        ) is Some,
        r matches Ok(t) ==> Some(t.token@) == text_at(
            json_parse(body@)->Some_0,
            "access_token"@,
        ),
        r is Err ==> !(r->Err_0 is SessionExpired),
        status != STATUS_OK && json_parse(body@) is Some ==> match text_at(
            json_parse(body@)->Some_0,
            "error"@,
        ) {
            Some(code) => r is Err && (r->Err_0 is AuthorizationDenied || r->Err_0 is GenericApi)
                && r->Err_0@ == grant_error(
                code,
                text_at(json_parse(body@)->Some_0, "error_description"@),
            ) && detail_of(r->Err_0@) == Some(
                provider_detail(code, text_at(json_parse(body@)->Some_0, "error_description"@)),
            ),
            None => r is Err && r->Err_0@ == AuthErrorView::Protocol,
        },
{
    match parse_document(body) {
        Some(doc) => token_from_fields(status, read_token_fields(&doc)),
        None => Err(AuthError::Protocol),
    }
}

} // verus!
