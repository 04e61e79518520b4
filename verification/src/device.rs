//! The device-code grant as a state machine.
//!
//! The caller sends the requests, shows the prompt, sleeps and reads its
//! clock; `step` decides from the state and the event what happens next. No
//! poll is ever scheduled at or after the session's deadline, and the delay
//! between polls never falls below the interval that the session declared.

use crate::json::{
    json_parse, json_view, opt_text, parse_document, text_at, text_field, unsigned_at,
    unsigned_field, JsonView,
};
use crate::model::{
    AccessToken, AccessTokenView, AuthError, AuthErrorView, Credentials, DeviceCodeSession,
    FormRequest, SessionView,
};
use crate::token::{
    detail_of, form_is, grant_error, grant_failure, issue_token, issued_token, provider_code,
    provider_code_of, provider_detail, provider_error, provider_failure, read_token_fields,
    token_fields_of, token_url, token_url_of, ProviderCode, TokenFields, TokenFieldsView,
    STATUS_OK,
};
use vstd::prelude::*;
use vstd::string::StringExecFns;

verus! {

/// The least delay, in seconds, before a poll that follows a pending answer.
pub const MIN_REPOLL_SECS: u64 = 5;

/// The address of the device-code endpoint of a tenant.
pub open spec fn device_code_url_of(tenant: Seq<char>) -> Seq<char> {
    "https://login.microsoftonline.com/"@ + tenant + "/oauth2/v2.0/devicecode"@
}

/// Builds the address of the device-code endpoint of a tenant.
pub fn device_code_url(tenant: &str) -> (r: String)
    ensures
        r@ == device_code_url_of(tenant@),
{
    String::from_str("https://login.microsoftonline.com/").concat(tenant).concat(
        "/oauth2/v2.0/devicecode",
    )
}

/// The request that opens a device-code session for a scope.
pub fn device_code_request(credentials: &Credentials, scope: &str) -> (r: FormRequest)
    ensures
        r.url@ == device_code_url_of(credentials.tenant_id@),
        form_is(r.fields@, seq![("client_id"@, credentials.client_id@), ("scope"@, scope@)]),
{
    let mut fields: Vec<(String, String)> = Vec::new();
    fields.push((String::from_str("client_id"), credentials.client_id.clone()));
    fields.push((String::from_str("scope"), String::from_str(scope)));
    FormRequest { url: device_code_url(credentials.tenant_id.as_str()), fields }
}

/// The request of one poll of the token endpoint for a session.
pub fn poll_request(credentials: &Credentials, session: &DeviceCodeSession) -> (r: FormRequest)
    ensures
        r.url@ == token_url_of(credentials.tenant_id@),
        form_is(
            r.fields@,
            seq![
                ("client_id"@, credentials.client_id@),
                ("grant_type"@, "urn:ietf:params:oauth:grant-type:device_code"@),
                ("device_code"@, session.device_code@),
            ],
        ),
{
    let mut fields: Vec<(String, String)> = Vec::new();
    fields.push((String::from_str("client_id"), credentials.client_id.clone()));
    fields.push(
        (
            String::from_str("grant_type"),
            String::from_str("urn:ietf:params:oauth:grant-type:device_code"),
        ),
    );
    fields.push((String::from_str("device_code"), session.device_code.clone()));
    FormRequest { url: token_url(credentials.tenant_id.as_str()), fields }
}

/// The members of an answer of the device-code endpoint.
#[derive(Clone, Debug, PartialEq, Eq)]
pub struct SessionFields {
    pub device_code: Option<String>,
    pub user_code: Option<String>,
    pub verification_uri: Option<String>,
    pub expires_in: Option<u64>,
    pub interval: Option<u64>,
    pub error: Option<String>,
    pub error_description: Option<String>,
}

pub ghost struct SessionFieldsView {
    pub device_code: Option<Seq<char>>,
    pub user_code: Option<Seq<char>>,
    pub verification_uri: Option<Seq<char>>,
    pub expires_in: Option<u64>,
    pub interval: Option<u64>,
    pub error: Option<Seq<char>>,
    pub error_description: Option<Seq<char>>,
}

impl View for SessionFields {
    type V = SessionFieldsView;

    open spec fn view(&self) -> SessionFieldsView {
        SessionFieldsView {
            device_code: opt_text(self.device_code),
            user_code: opt_text(self.user_code),
            verification_uri: opt_text(self.verification_uri),
            expires_in: self.expires_in,
            interval: self.interval,
            error: opt_text(self.error),
            error_description: opt_text(self.error_description),
        }
    }
}

/// The members that a document of the device-code endpoint holds.
pub open spec fn session_fields_of(doc: JsonView) -> SessionFieldsView {
    SessionFieldsView {
        device_code: text_at(doc, "device_code"@),
        user_code: text_at(doc, "user_code"@),
        verification_uri: text_at(doc, "verification_uri"@),
        expires_in: unsigned_at(doc, "expires_in"@),
        interval: unsigned_at(doc, "interval"@),
        error: text_at(doc, "error"@),
        error_description: text_at(doc, "error_description"@),
    }
}

/// Reads the members of an answer of the device-code endpoint.
pub fn read_session_fields(doc: &serde_json::Value) -> (r: SessionFields)
    ensures
        r@ == session_fields_of(json_view(*doc)),
{
    SessionFields {
        device_code: text_field(doc, "device_code"),
        user_code: text_field(doc, "user_code"),
        verification_uri: text_field(doc, "verification_uri"),
        expires_in: unsigned_field(doc, "expires_in"),
        interval: unsigned_field(doc, "interval"),
        error: text_field(doc, "error"),
        error_description: text_field(doc, "error_description"),
    }
}

/// Whether an answer holds all five members of a session.
pub open spec fn session_complete(f: SessionFieldsView) -> bool {
    f.device_code is Some && f.user_code is Some && f.verification_uri is Some && f.expires_in
        is Some && f.interval is Some
}

/// What an answer of the device-code endpoint means: a session on status 200
/// with all five members; else the error of the answer's `error` member, with
/// its code and description; else a protocol error. As no session exists
/// yet, no answer means an expiry.
pub open spec fn session_outcome(status: u16, f: SessionFieldsView) -> Result<
    SessionView,
    AuthErrorView,
> {
    if status == STATUS_OK && session_complete(f) {
        Ok(
            SessionView {
                device_code: f.device_code->Some_0,
                user_code: f.user_code->Some_0,
                verification_uri: f.verification_uri->Some_0,
                expires_in: f.expires_in->Some_0,
                interval: f.interval->Some_0,
            },
        )
    } else {
        match f.error {
            Some(code) => Err(grant_error(code, f.error_description)),
            None => Err(AuthErrorView::Protocol),
        }
    }
}

/// The view of the result of opening a session.
pub open spec fn session_result_view(r: Result<DeviceCodeSession, AuthError>) -> Result<
    SessionView,
    AuthErrorView,
> {
    match r {
        Ok(s) => Ok(s@),
        Err(e) => Err(e@),
    }
}

/// Decides from the status and the members of the answer whether a session
/// was opened.
pub fn session_from_fields(status: u16, fields: SessionFields) -> (r: Result<
    DeviceCodeSession,
    AuthError,
>)
    ensures
        session_result_view(r) == session_outcome(status, fields@),
        r is Err ==> !(r->Err_0 is SessionExpired),
        !(status == STATUS_OK && session_complete(fields@)) && fields.error is Some ==> r is Err
            && (r->Err_0 is AuthorizationDenied || r->Err_0 is GenericApi) && detail_of(r->Err_0@)
            == Some(provider_detail(fields.error->Some_0@, opt_text(fields.error_description))),
{
    let SessionFields {
        device_code,
        user_code,
        verification_uri,
        expires_in,
        interval,
        error,
        error_description,
    } = fields;
    if status == STATUS_OK {
        match (device_code, user_code, verification_uri, expires_in, interval) {
            (Some(device_code), Some(user_code), Some(verification_uri), Some(e), Some(i)) => {
                return Ok(
                    DeviceCodeSession {
                        device_code,
                        user_code,
                        verification_uri,
                        expires_in: e,
                        interval: i,
                    },
                );
            },
            _ => {},
        }
    }
    match error {
        Some(code) => Err(grant_failure(code, error_description)),
        None => Err(AuthError::Protocol),
    }
}

/// What the body of an answer of the device-code endpoint means. A body that
/// is no JSON is a protocol error.
pub open spec fn session_response_outcome(status: u16, body: Seq<char>) -> Result<
    SessionView,
    AuthErrorView,
> {
    match json_parse(body) {
        Some(doc) => session_outcome(status, session_fields_of(doc)),
        None => Err(AuthErrorView::Protocol),
    }
}

/// Interprets the answer to the request that opens a session.
pub fn open_session(status: u16, body: &str) -> (r: Result<DeviceCodeSession, AuthError>)
    ensures
        session_result_view(r) == session_response_outcome(status, body@),
        status != STATUS_OK ==> r is Err,
        r is Err ==> !(r->Err_0 is SessionExpired),
        status != STATUS_OK && json_parse(body@) is Some ==> match text_at(
            json_parse(body@)->Some_0,
            "error"@,
        ) {
            Some(code) => (r->Err_0 is AuthorizationDenied || r->Err_0 is GenericApi) && detail_of(
                r->Err_0@,
            ) == Some(
                provider_detail(code, text_at(json_parse(body@)->Some_0, "error_description"@)),
            ),
            None => r->Err_0@ == AuthErrorView::Protocol,
        },
{
    match parse_document(body) {
        Some(doc) => session_from_fields(status, read_session_fields(&doc)),
        None => Err(AuthError::Protocol),
    }
}

/// What one poll of the token endpoint was answered with.
#[derive(Clone, Debug, PartialEq, Eq)]
pub enum PollReply {
    /// The answer holds a token.
    Token(AccessToken),
    /// The user has not decided yet.
    Pending,
    /// The provider refused, with the error to end the flow with.
    Rejected(AuthError),
    /// The answer holds neither a token nor an error.
    Malformed,
}

pub ghost enum PollReplyView {
    Token(AccessTokenView),
    Pending,
    Rejected(AuthErrorView),
    Malformed,
}

impl View for PollReply {
    type V = PollReplyView;

    open spec fn view(&self) -> PollReplyView {
        match self {
            PollReply::Token(t) => PollReplyView::Token(t@),
            PollReply::Pending => PollReplyView::Pending,
            PollReply::Rejected(e) => PollReplyView::Rejected(e@),
            PollReply::Malformed => PollReplyView::Malformed,
        }
    }
}

/// What the members of a poll's answer mean: a token wherever `access_token`
/// is present; else pending on the provider's pending code and a rejection on
/// any other code; else a malformed answer.
pub open spec fn poll_reply_of(f: TokenFieldsView) -> PollReplyView {
    match f.access_token {
        Some(t) => PollReplyView::Token(issued_token(t, f)),
        None => match f.error {
            Some(code) => if provider_code_of(code) == ProviderCode::AuthorizationPending {
                PollReplyView::Pending
            } else {
                PollReplyView::Rejected(provider_error(code, f.error_description))
            },
            None => PollReplyView::Malformed,
        },
    }
}

/// Classifies the members of a poll's answer.
pub fn poll_reply_from_fields(fields: TokenFields) -> (r: PollReply)
    ensures
        r@ == poll_reply_of(fields@),
{
    let TokenFields { access_token, token_type, expires_in, refresh_token, error, error_description } =
        fields;
    match access_token {
        Some(t) => PollReply::Token(issue_token(t, token_type, expires_in, refresh_token)),
        None => match error {
            Some(code) => {
                match provider_code(&code) {
                    ProviderCode::AuthorizationPending => PollReply::Pending,
                    _ => PollReply::Rejected(provider_failure(code, error_description)),
                }
            },
            None => PollReply::Malformed,
        },
    }
}

/// What the body of a poll's answer means. A body that is no JSON is
/// malformed.
pub open spec fn poll_response_reply(body: Seq<char>) -> PollReplyView {
    match json_parse(body) {
        Some(doc) => poll_reply_of(token_fields_of(doc)),
        None => PollReplyView::Malformed,
    }
}

/// Classifies the body of a poll's answer.
pub fn poll_reply(body: &str) -> (r: PollReply)
    ensures
        r@ == poll_response_reply(body@),
{
    match parse_document(body) {
        Some(doc) => poll_reply_from_fields(read_token_fields(&doc)),
        None => PollReply::Malformed,
    }
}

} // verus!
