//! The user query against the resource API: its request, and what an answer
//! means.

use crate::json::{
    items, items_of, json_parse, json_view, member, member_of, parse_document, text_at, text_field,
    views_of, JsonView,
};
use crate::model::{
    AccessToken, ApiErrorDetail, ApiErrorView, AuthError, AuthErrorView, GetRequest, InnerError,
    UserSummary, UserView,
};
use crate::token::{same_text, STATUS_OK};
use vstd::prelude::*;
use vstd::string::StringExecFns;

verus! {

/// The address of the user query, restricted to the two members read here.
pub open spec fn users_url() -> Seq<char> {
    "https://graph.microsoft.com/v1.0/users?$select=id,displayName"@
}

/// The request of the user query, with the token as its bearer credential.
pub fn users_request(token: &AccessToken) -> (r: GetRequest)
    ensures
        r.url@ == users_url(),
        r.authorization@ == "Bearer "@ + token.token@,
{
    GetRequest {
        url: String::from_str("https://graph.microsoft.com/v1.0/users?$select=id,displayName"),
        authorization: String::from_str("Bearer ").concat(token.token.as_str()),
    }
}

/// The user that a document describes: it must hold the texts `id` and
/// `displayName`.
pub open spec fn user_of(doc: JsonView) -> Option<UserView> {
    match (text_at(doc, "id"@), text_at(doc, "displayName"@)) {
        (Some(id), Some(display_name)) => Some(UserView { id, display_name }),
        _ => None,
    }
}

/// The view of an optional user.
pub open spec fn opt_user(o: Option<UserSummary>) -> Option<UserView> {
    match o {
        Some(u) => Some(u@),
        None => None,
    }
}

/// Reads one user.
pub fn read_user(doc: &serde_json::Value) -> (r: Option<UserSummary>)
    ensures
        opt_user(r) == user_of(json_view(*doc)),
{
    match (text_field(doc, "id"), text_field(doc, "displayName")) {
        (Some(id), Some(display_name)) => Some(UserSummary { id, display_name }),
        _ => None,
    }
}

/// The users that a sequence of documents describes, in the same order; none
/// if one of the documents describes no user.
pub open spec fn users_of(docs: Seq<JsonView>) -> Option<Seq<UserView>> {
    if forall|i: int| 0 <= i < docs.len() ==> (#[trigger] user_of(docs[i])) is Some {
        Some(Seq::new(docs.len(), |i: int| user_of(docs[i])->Some_0))
    } else {
        None
    }
}

/// The views of a list of users.
pub open spec fn user_list_view(users: Seq<UserSummary>) -> Seq<UserView> {
    Seq::new(users.len(), |i: int| users[i]@)
}

/// The view of an optional list of users.
pub open spec fn opt_user_list(o: Option<Vec<UserSummary>>) -> Option<Seq<UserView>> {
    match o {
        Some(v) => Some(user_list_view(v@)),
        None => None,
    }
}

/// Reads every user of a list, keeping the order.
pub fn read_users(docs: &Vec<serde_json::Value>) -> (r: Option<Vec<UserSummary>>)
    ensures
        opt_user_list(r) == users_of(views_of(docs@)),
{
    let mut out: Vec<UserSummary> = Vec::new();
    let mut i: usize = 0;
    while i < docs.len()
        invariant
            i <= docs.len(),
            out@.len() == i,
            forall|j: int|
                0 <= j < i ==> (#[trigger] user_of(views_of(docs@)[j])) == Some(out@[j]@),
        decreases docs.len() - i,
    {
        match read_user(&docs[i]) {
            Some(u) => {
                out.push(u);
            },
            None => {
                assert(user_of(views_of(docs@)[i as int]) is None);
                return None;
            },
        }
        i += 1;
    }
    proof {
        assert(user_list_view(out@) =~= Seq::new(
            views_of(docs@).len(),
            |i: int| user_of(views_of(docs@)[i])->Some_0,
        ));
    }
    Some(out)
}

/// The users in the envelope of a successful answer: the elements of its
/// array `value`.
pub open spec fn users_in(doc: JsonView) -> Option<Seq<UserView>> {
    match member_of(doc, "value"@) {
        Some(m) => match items_of(m) {
            Some(docs) => users_of(docs),
            None => None,
        },
        None => None,
    }
}

/// Reads the users in the envelope of a successful answer.
pub fn read_user_list(doc: &serde_json::Value) -> (r: Option<Vec<UserSummary>>)
    ensures
        opt_user_list(r) == users_in(json_view(*doc)),
{
    match member(doc, "value") {
        Some(m) => match items(m) {
            Some(docs) => read_users(docs),
            None => None,
        },
        None => None,
    }
}

/// The correlation data nested in an error: the texts `date` and
/// `request-id` of its member `innerError`, where all are present.
pub open spec fn inner_in(error: JsonView) -> Option<(Seq<char>, Seq<char>)> {
    match member_of(error, "innerError"@) {
        Some(i) => match (text_at(i, "date"@), text_at(i, "request-id"@)) {
            (Some(date), Some(request_id)) => Some((date, request_id)),
            _ => None,
        },
        None => None,
    }
}

/// The error in the envelope of an error answer: the member `error` with its
/// texts `code` and `message`.
pub open spec fn error_in(doc: JsonView) -> Option<ApiErrorView> {
    match member_of(doc, "error"@) {
        Some(e) => match (text_at(e, "code"@), text_at(e, "message"@)) {
            (Some(code), Some(message)) => Some(ApiErrorView { code, message, inner: inner_in(e) }),
            _ => None,
        },
        None => None,
    }
}

/// The view of an optional error detail.
pub open spec fn opt_error(o: Option<ApiErrorDetail>) -> Option<ApiErrorView> {
    match o {
        Some(d) => Some(d@),
        None => None,
    }
}

/// Reads the correlation data nested in an error.
pub fn read_inner(error: &serde_json::Value) -> (r: Option<InnerError>)
    ensures
        match r {
            Some(i) => inner_in(json_view(*error)) == Some((i.date@, i.request_id@)),
            None => inner_in(json_view(*error)) is None,
        },
{
    match member(error, "innerError") {
        Some(i) => match (text_field(i, "date"), text_field(i, "request-id")) {
            (Some(date), Some(request_id)) => Some(InnerError { date, request_id }),
            _ => None,
        },
        None => None,
    }
}

/// Reads the error in the envelope of an error answer.
pub fn read_error(doc: &serde_json::Value) -> (r: Option<ApiErrorDetail>)
    ensures
        opt_error(r) == error_in(json_view(*doc)),
{
    match member(doc, "error") {
        Some(e) => match (text_field(e, "code"), text_field(e, "message")) {
            (Some(code), Some(message)) => Some(
                ApiErrorDetail { code, message, inner: read_inner(e) },
            ),
            _ => None,
        },
        None => None,
    }
}

/// The error codes of the resource API that the query tells apart.
#[derive(Clone, Copy, Debug, PartialEq, Eq)]
pub enum ResourceCode {
    RequestDenied,
    Unrecognized,
}

/// The known code that a text of the resource API stands for.
pub open spec fn resource_code_of(code: Seq<char>) -> ResourceCode {
    if code == "Authorization_RequestDenied"@ {
        ResourceCode::RequestDenied
    } else {
        ResourceCode::Unrecognized
    }
}

/// Recognises an error code of the resource API. A code that is not known is
/// `Unrecognized`.
pub fn resource_code(code: &String) -> (r: ResourceCode)
    ensures
        r == resource_code_of(code@),
{
    if same_text(code, "Authorization_RequestDenied") {
        ResourceCode::RequestDenied
    } else {
        ResourceCode::Unrecognized
    }
}

/// The outcome that an error of the resource API stands for: a refusal for
/// the access-denied code, a generic error for every other code, each with
/// the whole detail.
pub open spec fn resource_error(detail: ApiErrorView) -> AuthErrorView {
    match resource_code_of(detail.code) {
        ResourceCode::RequestDenied => AuthErrorView::AuthorizationDenied(detail),
        ResourceCode::Unrecognized => AuthErrorView::GenericApi(detail),
    }
}

/// Tells a refusal of the resource API from its other errors.
pub fn classify_error(detail: ApiErrorDetail) -> (r: AuthError)
    ensures
        r@ == resource_error(detail@),
        r matches AuthError::AuthorizationDenied(d) ==> d@ == detail@,
        r matches AuthError::GenericApi(d) ==> d@ == detail@,
        r is AuthorizationDenied || r is GenericApi,
{
    match resource_code(&detail.code) {
        ResourceCode::RequestDenied => AuthError::AuthorizationDenied(detail),
        ResourceCode::Unrecognized => AuthError::GenericApi(detail),
    }
}

/// What an answer to the user query means: on status 200 the users of the
/// envelope, unchanged and in order; on any other status the error of the
/// envelope; a protocol error where the envelope is not as expected.
pub open spec fn users_outcome(
    status: u16,
    users: Option<Seq<UserView>>,
    error: Option<ApiErrorView>,
) -> Result<Seq<UserView>, AuthErrorView> {
    if status == STATUS_OK {
        match users {
            Some(u) => Ok(u),
            None => Err(AuthErrorView::Protocol),
        }
    } else {
        match error {
            Some(d) => Err(resource_error(d)),
            None => Err(AuthErrorView::Protocol),
        }
    }
}

/// The view of the result of the user query.
pub open spec fn users_result_view(r: Result<Vec<UserSummary>, AuthError>) -> Result<
    Seq<UserView>,
    AuthErrorView,
> {
    match r {
        Ok(v) => Ok(user_list_view(v@)),
        Err(e) => Err(e@),
    }
}

/// Decides the user query from the status and what was read from the answer.
pub fn users_from_parts(
    status: u16,
    users: Option<Vec<UserSummary>>,
    error: Option<ApiErrorDetail>,
) -> (r: Result<Vec<UserSummary>, AuthError>)
    ensures
        users_result_view(r) == users_outcome(status, opt_user_list(users), opt_error(error)),
        r matches Ok(v) ==> status == STATUS_OK && users == Some(v),
        status != STATUS_OK ==> r is Err,
{
    if status == STATUS_OK {
        match users {
            Some(u) => Ok(u),
            None => Err(AuthError::Protocol),
        }
    } else {
        match error {
            Some(d) => Err(classify_error(d)),
            None => Err(AuthError::Protocol),
        }
    }
}

/// What the body of an answer to the user query means. A body that is no
/// JSON is a protocol error.
pub open spec fn users_response_outcome(status: u16, body: Seq<char>) -> Result<
    Seq<UserView>,
    AuthErrorView,
> {
    match json_parse(body) {
        Some(doc) => users_outcome(status, users_in(doc), error_in(doc)),
        None => Err(AuthErrorView::Protocol),
    }
}

/// Interprets the answer to the user query.
pub fn fetch_users(status: u16, body: &str) -> (r: Result<Vec<UserSummary>, AuthError>)
    ensures
        users_result_view(r) == users_response_outcome(status, body@),
        status != STATUS_OK ==> r is Err,
{
    match parse_document(body) {
        Some(doc) => {
            if status == STATUS_OK {
                users_from_parts(status, read_user_list(&doc), None)
            } else {
                users_from_parts(status, None, read_error(&doc))
            }
        },
        None => Err(AuthError::Protocol),
    }
}

} // verus!
