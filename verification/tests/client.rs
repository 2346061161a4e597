use llmpulse_cli::client::{api_result, authorization_header, interpret_response, project_id, request_url, ResponseBody};
use llmpulse_cli::config::ResolvedConfig;
use llmpulse_cli::error::{format_error, CliError};
use llmpulse_cli::json::{Json, JsonNumber};

fn text(s: &str) -> Json {
    Json::String(s.to_string())
}

fn object(members: Vec<(&str, Json)>) -> Json {
    Json::Object(members.into_iter().map(|(k, v)| (k.to_string(), v)).collect())
}

fn resolved(key: &str) -> ResolvedConfig {
    ResolvedConfig { api_key: key.to_string(), base_url: "https://api.example.com".to_string(), project_id: None, verbose: false }
}

fn api_error(result: Result<llmpulse_cli::client::ApiResponse, CliError>) -> (String, String, u16, Option<String>, Option<Json>) {
    match result {
        Err(CliError::Api { code, message, status, request_id, meta }) => (code, message, status, request_id, meta),
        other => panic!("expected an API error, got {other:?}"),
    }
}

#[test]
fn bearer_authentication_is_built_from_the_key() {
    assert_eq!(authorization_header(&resolved("test_key")).unwrap(), "Bearer test_key");
    let (code, message, status, _, _) = match authorization_header(&resolved("")) {
        Err(CliError::Api { code, message, status, request_id, meta }) => (code, message, status, request_id, meta),
        other => panic!("unexpected {other:?}"),
    };
    assert_eq!((code.as_str(), message.as_str(), status), ("ERR_MISSING_AUTH", "No API key configured", 401));
    match authorization_header(&resolved("bad\nkey")) {
        Err(CliError::Config(text)) => assert_eq!(text, "The API key contains invalid header characters"),
        other => panic!("unexpected {other:?}"),
    }
    assert!(authorization_header(&resolved("clé")).is_ok());
}

#[test]
fn urls_join_base_and_path() {
    assert_eq!(request_url("https://api.example.com/api/v1//", "/ping"), "https://api.example.com/api/v1/ping");
    assert_eq!(request_url("http://localhost", "/x"), "http://localhost/x");
}

#[test]
fn successful_responses_give_their_data() {
    let response = interpret_response(200, ResponseBody::Parsed(object(vec![("status", text("ok"))]))).unwrap();
    assert_eq!(response.status, 200);
    assert_eq!(response.data, object(vec![("status", text("ok"))]));
    let response = interpret_response(204, ResponseBody::Empty).unwrap();
    assert_eq!(response.data, Json::Object(vec![]));
}

#[test]
fn failed_responses_become_api_errors() {
    let body = object(vec![
        ("error", object(vec![("code", text("ERR_RATE_LIMITED")), ("message", text("Slow down")), ("meta", Json::Number(JsonNumber::PosInt(5)))])),
        ("request_id", text("req-1")),
    ]);
    let (code, message, status, request_id, meta) = api_error(interpret_response(429, ResponseBody::Parsed(body)));
    assert_eq!(code, "ERR_RATE_LIMITED");
    assert_eq!(message, "Slow down");
    assert_eq!(status, 429);
    assert_eq!(request_id.as_deref(), Some("req-1"));
    assert_eq!(meta, Some(Json::Number(JsonNumber::PosInt(5))));

    let (code, message, _, request_id, meta) = api_error(interpret_response(404, ResponseBody::Empty));
    assert_eq!(code, "HTTP_404");
    assert_eq!(message, "Not Found");
    assert_eq!(request_id, None);
    assert_eq!(meta, None);

    let (_, message, _, _, _) = api_error(interpret_response(599, ResponseBody::Empty));
    assert_eq!(message, "Unknown status");

    let (code, message, status, _, _) = api_error(interpret_response(200, ResponseBody::Invalid("expected value".to_string())));
    assert_eq!(code, "HTTP_200");
    assert_eq!(message, "The API returned a non-JSON response: expected value");
    assert_eq!(status, 200);

    let (_, message, _, _, _) = api_error(api_result(500, "Oops", ResponseBody::Parsed(object(vec![("error", text("x"))]))));
    assert_eq!(message, "Oops");
}

#[test]
fn errors_are_reported_with_hints() {
    let error = CliError::Api {
        code: "ERR_INVALID_API_KEY".to_string(),
        message: "Invalid key".to_string(),
        status: 401,
        request_id: Some("r-9".to_string()),
        meta: None,
    };
    assert_eq!(
        format_error(&error),
        "Error: Invalid key [ERR_INVALID_API_KEY]\nRequest ID: r-9\nHint: Run: llmpulse config set api_key <your-api-key>"
    );
    let error = CliError::Api { code: "X".to_string(), message: "m".to_string(), status: 500, request_id: None, meta: None };
    assert_eq!(format_error(&error), "Error: m [X]");
    assert_eq!(format_error(&CliError::Usage("Delete cancelled".to_string())), "Error: Delete cancelled");
    match project_id(None) {
        Err(CliError::Usage(text)) => assert_eq!(
            text,
            "--project-id is required. Set a default with: llmpulse config set default_project_id <id>"
        ),
        other => panic!("unexpected {other:?}"),
    }
    assert_eq!(project_id(Some(3)).unwrap(), 3);
}
