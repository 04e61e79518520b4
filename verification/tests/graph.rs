use ms_graph_api_demo::graph::{
    classify_error, fetch_users, resource_code, users_from_parts, users_request, ResourceCode,
};
use ms_graph_api_demo::model::{AccessToken, ApiErrorDetail, AuthError, InnerError, UserSummary};

fn user(id: &str, name: &str) -> UserSummary {
    UserSummary { id: id.to_string(), display_name: name.to_string() }
}

fn detail(code: &str, message: &str) -> ApiErrorDetail {
    ApiErrorDetail { code: code.to_string(), message: message.to_string(), inner: None }
}

#[test]
fn users_request_carries_the_bearer_token() {
    let token = AccessToken {
        token: "abc.def".to_string(),
        token_type: "Bearer".to_string(),
        expires_in: 3599,
        refresh_token: None,
    };
    let r = users_request(&token);
    assert_eq!(r.url, "https://graph.microsoft.com/v1.0/users?$select=id,displayName");
    assert_eq!(r.authorization, "Bearer abc.def");
}

#[test]
fn fetch_users_reads_one_user() {
    let r = fetch_users(200, r#"{"value":[{"id":"1","displayName":"Alice"}]}"#);
    assert_eq!(r, Ok(vec![user("1", "Alice")]));
}

#[test]
fn fetch_users_keeps_the_order() {
    let body = r#"{"@odata.context":"x","value":[{"id":"9","displayName":"Zoe"},{"id":"1","displayName":"Alice"},{"id":"5","displayName":"Zoe"}]}"#;
    assert_eq!(
        fetch_users(200, body),
        Ok(vec![user("9", "Zoe"), user("1", "Alice"), user("5", "Zoe")])
    );
}

#[test]
fn fetch_users_reads_an_empty_list() {
    assert_eq!(fetch_users(200, r#"{"value":[]}"#), Ok(Vec::new()));
}

#[test]
fn fetch_users_denied() {
    let body = r#"{"error":{"code":"Authorization_RequestDenied","message":"nope"}}"#;
    assert_eq!(
        fetch_users(403, body),
        Err(AuthError::AuthorizationDenied(detail("Authorization_RequestDenied", "nope")))
    );
}

#[test]
fn fetch_users_other_code_is_generic() {
    let body = r#"{"error":{"code":"Foo","message":"nope"}}"#;
    assert_eq!(fetch_users(403, body), Err(AuthError::GenericApi(detail("Foo", "nope"))));
}

#[test]
fn fetch_users_reads_the_correlation_data() {
    let body = r#"{"error":{"code":"Request_BadRequest","message":"bad","innerError":{"date":"2023-04-01T10:00:00","request-id":"r-17","client-request-id":"c"}}}"#;
    assert_eq!(
        fetch_users(400, body),
        Err(AuthError::GenericApi(ApiErrorDetail {
            code: "Request_BadRequest".to_string(),
            message: "bad".to_string(),
            inner: Some(InnerError {
                date: "2023-04-01T10:00:00".to_string(),
                request_id: "r-17".to_string(),
            }),
        }))
    );
}

#[test]
fn fetch_users_malformed_envelopes_are_protocol_errors() {
    assert_eq!(fetch_users(200, r#"{"value":{"id":"1"}}"#), Err(AuthError::Protocol));
    assert_eq!(fetch_users(200, r#"{"value":[{"id":"1"}]}"#), Err(AuthError::Protocol));
    assert_eq!(fetch_users(200, r#"{"value":[{"id":1,"displayName":"A"}]}"#), Err(AuthError::Protocol));
    assert_eq!(fetch_users(200, r#"{"users":[]}"#), Err(AuthError::Protocol));
    assert_eq!(fetch_users(200, "<html>"), Err(AuthError::Protocol));
    assert_eq!(fetch_users(500, r#"{"error":"boom"}"#), Err(AuthError::Protocol));
    assert_eq!(fetch_users(500, r#"{"error":{"code":"X"}}"#), Err(AuthError::Protocol));
    assert_eq!(fetch_users(500, "gateway timeout"), Err(AuthError::Protocol));
}

#[test]
fn fetch_users_error_status_never_lists_users() {
    let body = r#"{"value":[{"id":"1","displayName":"Alice"}]}"#;
    assert_eq!(fetch_users(404, body), Err(AuthError::Protocol));
    assert_eq!(fetch_users(204, body), Err(AuthError::Protocol));
}

#[test]
fn classify_error_tells_refusal_apart() {
    assert_eq!(
        classify_error(detail("Authorization_RequestDenied", "m")),
        AuthError::AuthorizationDenied(detail("Authorization_RequestDenied", "m"))
    );
    assert_eq!(
        classify_error(detail("authorization_requestdenied", "m")),
        AuthError::GenericApi(detail("authorization_requestdenied", "m"))
    );
}

#[test]
fn users_from_parts_goes_by_the_status() {
    let users = vec![user("1", "Alice")];
    assert_eq!(users_from_parts(200, Some(users.clone()), Some(detail("Foo", "m"))), Ok(users.clone()));
    assert_eq!(users_from_parts(200, None, Some(detail("Foo", "m"))), Err(AuthError::Protocol));
    assert_eq!(
        users_from_parts(403, Some(users), Some(detail("Foo", "m"))),
        Err(AuthError::GenericApi(detail("Foo", "m")))
    );
    assert_eq!(users_from_parts(403, None, None), Err(AuthError::Protocol));
}

#[test]
fn resource_code_knows_the_denial() {
    assert_eq!(resource_code(&"Authorization_RequestDenied".to_string()), ResourceCode::RequestDenied);
    assert_eq!(resource_code(&"Request_ResourceNotFound".to_string()), ResourceCode::Unrecognized);
    assert_eq!(resource_code(&"".to_string()), ResourceCode::Unrecognized);
}
