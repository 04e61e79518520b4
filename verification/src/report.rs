//! The lines that a caller shows to the person in front of the console.

use crate::model::{AuthError, AuthErrorView, DeviceCodeSession, UserSummary};
use vstd::prelude::*;
use vstd::string::StringExecFns;

verus! {

/// The line that lists one user.
pub open spec fn user_line_of(id: Seq<char>, display_name: Seq<char>) -> Seq<char> {
    "ID: "@ + id + ", Display Name: "@ + display_name
}

/// Writes the line that lists one user.
pub fn user_line(user: &UserSummary) -> (r: String)
    ensures
        r@ == user_line_of(user.id@, user.display_name@),
{
    String::from_str("ID: ").concat(user.id.as_str()).concat(", Display Name: ").concat(
        user.display_name.as_str(),
    )
}

/// The line that tells the user which code to enter.
pub open spec fn code_line_of(user_code: Seq<char>) -> Seq<char> {
    "Please authenticate using the following code: "@ + user_code
}

/// The line that tells the user where to enter the code.
pub open spec fn address_line_of(verification_uri: Seq<char>) -> Seq<char> {
    "Visit this URL to authenticate: "@ + verification_uri
}

/// Writes the two lines of the prompt of a session: the code, then the
/// address.
pub fn prompt_lines(session: &DeviceCodeSession) -> (r: (String, String))
    ensures
        r.0@ == code_line_of(session.user_code@),
        r.1@ == address_line_of(session.verification_uri@),
{
    (
        String::from_str("Please authenticate using the following code: ").concat(
            session.user_code.as_str(),
        ),
        String::from_str("Visit this URL to authenticate: ").concat(
            session.verification_uri.as_str(),
        ),
    )
}

/// The line shown after each pending answer.
pub fn waiting_line() -> (r: String)
    ensures
        r@ == "waiting for token"@,
{
    String::from_str("waiting for token")
}

/// The line that reports why a flow or a query failed. A refusal and a
/// generic error show the message that came with them, a generic error also
/// the request's identifier where the answer gave one.
pub open spec fn error_line_of(e: AuthErrorView) -> Seq<char> {
    match e {
        AuthErrorView::Configuration => "Configuration error: a required identifier is missing"@,
        AuthErrorView::Transport => "Transport error: the request was not answered"@,
        AuthErrorView::Protocol => "Protocol error: the answer was not understood"@,
        AuthErrorView::AuthorizationDenied(d) => "Authorization failed: "@ + d.message,
        AuthErrorView::SessionExpired => "Session expired: the code was not used in time"@,
        AuthErrorView::GenericApi(d) => match d.inner {
            Some(i) => "Error: "@ + d.message + " (request-id: "@ + i.1 + ")"@,
            None => "Error: "@ + d.message,
        },
    }
}

/// Writes the line that reports why a flow or a query failed.
pub fn error_line(e: &AuthError) -> (r: String)
    ensures
        r@ == error_line_of(e@),
{
    match e {
        AuthError::Configuration => String::from_str(
            "Configuration error: a required identifier is missing",
        ),
        AuthError::Transport => String::from_str("Transport error: the request was not answered"),
        AuthError::Protocol => String::from_str("Protocol error: the answer was not understood"),
        AuthError::AuthorizationDenied(d) => String::from_str("Authorization failed: ").concat(
            d.message.as_str(),
        ),
        AuthError::SessionExpired => String::from_str(
            "Session expired: the code was not used in time",
        ),
        AuthError::GenericApi(d) => {
            let line = String::from_str("Error: ").concat(d.message.as_str());
            match &d.inner {
                Some(i) => line.concat(" (request-id: ").concat(i.request_id.as_str()).concat(")"),
                None => line,
            }
        },
    }
}

} // verus!
