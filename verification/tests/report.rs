use ms_graph_api_demo::model::{ApiErrorDetail, AuthError, DeviceCodeSession, InnerError, UserSummary};
use ms_graph_api_demo::report::{error_line, prompt_lines, user_line, waiting_line};

#[test]
fn user_line_shows_id_and_name() {
    let u = UserSummary { id: "1".to_string(), display_name: "Alice".to_string() };
    assert_eq!(user_line(&u), "ID: 1, Display Name: Alice");
}

#[test]
fn prompt_lines_show_code_and_address() {
    let s = DeviceCodeSession {
        device_code: "secret-device-code".to_string(),
        user_code: "F7K2XQ".to_string(),
        verification_uri: "https://microsoft.com/devicelogin".to_string(),
        expires_in: 900,
        interval: 5,
    };
    let (code, address) = prompt_lines(&s);
    assert_eq!(code, "Please authenticate using the following code: F7K2XQ");
    assert_eq!(address, "Visit this URL to authenticate: https://microsoft.com/devicelogin");
}

#[test]
fn waiting_line_is_fixed() {
    assert_eq!(waiting_line(), "waiting for token");
}

#[test]
fn error_line_for_each_error() {
    let detail = |inner: Option<InnerError>| ApiErrorDetail {
        code: "Foo".to_string(),
        message: "nope".to_string(),
        inner,
    };
    let inner = InnerError { date: "2023-04-01".to_string(), request_id: "r-17".to_string() };
    assert_eq!(
        error_line(&AuthError::Configuration),
        "Configuration error: a required identifier is missing"
    );
    assert_eq!(error_line(&AuthError::Transport), "Transport error: the request was not answered");
    assert_eq!(error_line(&AuthError::Protocol), "Protocol error: the answer was not understood");
    assert_eq!(
        error_line(&AuthError::SessionExpired),
        "Session expired: the code was not used in time"
    );
    assert_eq!(
        error_line(&AuthError::AuthorizationDenied(detail(Some(inner.clone())))),
        "Authorization failed: nope"
    );
    assert_eq!(error_line(&AuthError::GenericApi(detail(None))), "Error: nope");
    assert_eq!(
        error_line(&AuthError::GenericApi(detail(Some(inner)))),
        "Error: nope (request-id: r-17)"
    );
}
