use flexprice::credentials::Credentials;

fn stored() -> Credentials {
    Credentials {
        api_url: "https://stored.example".to_string(),
        api_key: Some("stored-key".to_string()),
        auth_token: Some("stored-token".to_string()),
        tenant_id: Some("tenant-1".to_string()),
        user_id: Some("user-1".to_string()),
        environment_id: Some("env-1".to_string()),
    }
}

#[test]
fn resolve_keeps_stored_values_without_overrides() {
    let r = stored().resolve(None, None, None, None, None);
    assert_eq!(r.api_url, "https://stored.example");
    assert_eq!(r.api_key.as_deref(), Some("stored-key"));
    assert_eq!(r.auth_token.as_deref(), Some("stored-token"));
    assert_eq!(r.tenant_id.as_deref(), Some("tenant-1"));
    assert_eq!(r.user_id.as_deref(), Some("user-1"));
    assert_eq!(r.environment_id.as_deref(), Some("env-1"));
}

#[test]
fn resolve_env_overrides_stored() {
    let r = stored().resolve(
        Some("https://env.example".to_string()),
        Some("env-key".to_string()),
        Some("env-env".to_string()),
        None,
        None,
    );
    assert_eq!(r.api_url, "https://env.example");
    assert_eq!(r.api_key.as_deref(), Some("env-key"));
    assert_eq!(r.environment_id.as_deref(), Some("env-env"));
    assert_eq!(r.auth_token.as_deref(), Some("stored-token"));
}

#[test]
fn resolve_ignores_empty_env_values() {
    let r = stored().resolve(
        Some(String::new()),
        Some(String::new()),
        Some(String::new()),
        None,
        None,
    );
    assert_eq!(r.api_url, "https://stored.example");
    assert_eq!(r.api_key.as_deref(), Some("stored-key"));
    assert_eq!(r.environment_id.as_deref(), Some("env-1"));
}

#[test]
fn resolve_cli_flags_win_over_env_and_stored() {
    let r = stored().resolve(
        Some("https://env.example".to_string()),
        Some("env-key".to_string()),
        None,
        Some("https://cli.example"),
        Some("cli-key"),
    );
    assert_eq!(r.api_url, "https://cli.example");
    assert_eq!(r.api_key.as_deref(), Some("cli-key"));
}

#[test]
fn resolve_on_empty_record_takes_overrides() {
    let r = Credentials::empty().resolve(None, Some("env-key".to_string()), None, None, None);
    assert_eq!(r.api_url, "");
    assert_eq!(r.api_key.as_deref(), Some("env-key"));
    assert_eq!(r.auth_token, None);
}

#[test]
fn fresh_record_is_not_authenticated() {
    assert!(!Credentials::empty().is_authenticated());
}

#[test]
fn api_key_alone_authenticates() {
    let mut c = Credentials::empty();
    c.api_key = Some("k".to_string());
    assert!(c.is_authenticated());
}

#[test]
fn auth_token_alone_authenticates() {
    let mut c = Credentials::empty();
    c.auth_token = Some("t".to_string());
    assert!(c.is_authenticated());
}

#[test]
fn auth_header_prefers_api_key() {
    let mut c = Credentials::empty();
    c.api_key = Some("k-123".to_string());
    c.auth_token = Some("t-456".to_string());
    let (name, value) = c.get_auth_header().expect("a header");
    assert_eq!(name, "x-api-key");
    assert_eq!(value, "k-123");
}

#[test]
fn auth_header_uses_bearer_token_without_key() {
    let mut c = Credentials::empty();
    c.auth_token = Some("t-456".to_string());
    let (name, value) = c.get_auth_header().expect("a header");
    assert_eq!(name, "Authorization");
    assert_eq!(value, "Bearer t-456");
}

#[test]
fn auth_header_absent_without_credentials() {
    assert!(Credentials::empty().get_auth_header().is_none());
}

#[test]
fn masked_key_long() {
    let mut c = Credentials::empty();
    c.api_key = Some("abcd1234efgh".to_string());
    assert_eq!(c.masked_api_key(), "abcd...efgh");
}

#[test]
fn masked_key_short() {
    let mut c = Credentials::empty();
    c.api_key = Some("short".to_string());
    assert_eq!(c.masked_api_key(), "*****");
}

#[test]
fn masked_key_absent() {
    assert_eq!(Credentials::empty().masked_api_key(), "(not set)");
}

#[test]
fn masked_key_boundary_eight_chars() {
    let mut c = Credentials::empty();
    c.api_key = Some("12345678".to_string());
    assert_eq!(c.masked_api_key(), "********");
}

#[test]
fn login_sets_token_and_clears_key() {
    let c = stored().with_login(
        "https://login.example".to_string(),
        "new-token".to_string(),
        "tenant-9".to_string(),
        "user-9".to_string(),
    );
    assert_eq!(c.api_url, "https://login.example");
    assert_eq!(c.api_key, None);
    assert_eq!(c.auth_token.as_deref(), Some("new-token"));
    assert_eq!(c.tenant_id.as_deref(), Some("tenant-9"));
    assert_eq!(c.user_id.as_deref(), Some("user-9"));
    assert_eq!(c.environment_id.as_deref(), Some("env-1"));
}

#[test]
fn set_api_key_keeps_other_fields() {
    let c = stored().with_api_key("https://keys.example".to_string(), "fresh-key".to_string());
    assert_eq!(c.api_url, "https://keys.example");
    assert_eq!(c.api_key.as_deref(), Some("fresh-key"));
    assert_eq!(c.auth_token.as_deref(), Some("stored-token"));
    assert_eq!(c.tenant_id.as_deref(), Some("tenant-1"));
}
