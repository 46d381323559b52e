use flexprice::client::classify_error_body;
use flexprice::client::classify_response;
use flexprice::client::classify_text_response;
use flexprice::client::compose_url;
use flexprice::client::fallback_error_message;
use flexprice::client::health_result;
use flexprice::client::normalize_base_url;
use flexprice::client::request_headers;
use flexprice::client::status_is_success;
use flexprice::client::ClientError;
use flexprice::credentials::Credentials;

#[test]
fn normalize_empty_url_takes_default() {
    assert_eq!(normalize_base_url(""), "http://localhost:8080");
}

#[test]
fn normalize_trims_trailing_slashes() {
    assert_eq!(normalize_base_url("https://api.example/"), "https://api.example");
    assert_eq!(normalize_base_url("https://api.example///"), "https://api.example");
    assert_eq!(normalize_base_url("https://api.example"), "https://api.example");
}

#[test]
fn compose_appends_path() {
    assert_eq!(compose_url("https://api.example", "/v1/customers"), "https://api.example/v1/customers");
}

#[test]
fn headers_carry_key_and_environment() {
    let mut c = Credentials::empty();
    c.api_key = Some("k-1".to_string());
    c.environment_id = Some("env-2".to_string());
    let h = request_headers(&c);
    assert_eq!(h.len(), 2);
    assert_eq!(h[0], ("x-api-key".to_string(), "k-1".to_string()));
    assert_eq!(h[1], ("x-environment-id".to_string(), "env-2".to_string()));
}

#[test]
fn headers_empty_without_credentials_or_environment() {
    assert!(request_headers(&Credentials::empty()).is_empty());
}

#[test]
fn success_statuses_are_the_two_hundreds() {
    assert!(status_is_success(200));
    assert!(status_is_success(204));
    assert!(status_is_success(299));
    assert!(!status_is_success(199));
    assert!(!status_is_success(300));
    assert!(!status_is_success(404));
}

#[test]
fn structured_error_carries_reason_and_hint() {
    let msg = classify_error_body(400, "{\"error\":\"invalid_request\",\"hint\":\"check the id\"}");
    assert_eq!(msg, "400 (Bad Request): invalid_request — check the id");
    assert!(msg.contains("Bad Request"));
    assert!(msg.contains("check the id"));
}

#[test]
fn structured_error_without_hint() {
    let msg = classify_error_body(400, "{\"error\":\"invalid_request\"}");
    assert_eq!(msg, "400 (Bad Request): invalid_request");
}

#[test]
fn structured_error_falls_back_to_message_member() {
    let msg = classify_error_body(422, "{\"message\":\"bad shape\"}");
    assert_eq!(msg, "422 (Unprocessable Entity): bad shape");
}

#[test]
fn structured_error_with_no_members() {
    let msg = classify_error_body(400, "{}");
    assert_eq!(msg, "400 (Bad Request): Unknown error");
}

#[test]
fn non_string_error_member_falls_back() {
    // a structured parse with a non-string member fails, so the
    // status-based fallback takes over
    let msg = classify_error_body(500, "{\"error\":5}");
    assert_eq!(msg, "500 Internal Server Error: {\"error\":5}");
}

#[test]
fn unparseable_unauthorized_body_gives_auth_guidance() {
    let msg = classify_error_body(401, "<html>nope</html>");
    assert_eq!(
        msg,
        "Authentication failed. Run `flexprice auth login` or check your API key."
    );
}

#[test]
fn unparseable_forbidden_body_gives_permission_guidance() {
    let msg = classify_error_body(403, "nope");
    assert_eq!(
        msg,
        "Permission denied. Your credentials may not have access to this resource."
    );
}

#[test]
fn unparseable_not_found_body_gives_lookup_guidance() {
    let msg = classify_error_body(404, "nope");
    assert_eq!(msg, "Resource not found. Verify the ID is correct.");
}

#[test]
fn unparseable_other_status_shows_status_and_body() {
    let msg = classify_error_body(500, "boom");
    assert_eq!(msg, "500 Internal Server Error: boom");
}

#[test]
fn fallback_message_for_unregistered_status() {
    let msg = fallback_error_message(599, "odd");
    assert_eq!(msg, "599 <unknown status code>: odd");
}

#[test]
fn classify_response_ok_on_success() {
    assert!(classify_response(200, "ignored").is_ok());
}

#[test]
fn classify_response_is_an_api_error_on_failure() {
    match classify_response(400, "{\"error\":\"invalid_request\",\"hint\":\"check the id\"}") {
        Err(ClientError::Api(status, msg)) => {
            assert_eq!(status, 400);
            assert_eq!(msg, "400 (Bad Request): invalid_request — check the id");
        }
        _ => panic!("expected an api error"),
    }
}

#[test]
fn text_response_passes_body_through_on_success() {
    let r = classify_text_response(200, "raw bytes".to_string()).expect("success");
    assert_eq!(r, "raw bytes");
}

#[test]
fn text_response_reports_status_and_body_on_failure() {
    match classify_text_response(404, "gone".to_string()) {
        Err(ClientError::Api(status, msg)) => {
            assert_eq!(status, 404);
            assert_eq!(msg, "404 Not Found: gone");
        }
        _ => panic!("expected an api error"),
    }
}

#[test]
fn health_succeeds_only_on_success_status() {
    assert!(health_result(200).is_ok());
    match health_result(503) {
        Err(ClientError::Connection(msg)) => {
            assert_eq!(msg, "API returned status 503 Service Unavailable");
        }
        _ => panic!("expected a connection error"),
    }
}

#[test]
fn error_messages_are_readable() {
    let e = ClientError::Network("connection refused".to_string());
    assert_eq!(e.message(), "connection refused");
    let e = ClientError::Decode("bad body".to_string());
    assert_eq!(e.message(), "bad body");
}
