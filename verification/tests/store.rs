use flexprice::credentials::Credentials;
use flexprice::store::decode_credentials;
use flexprice::store::encode_credentials;
use flexprice::store::parse_persisted;
use flexprice::store::StoreError;

fn full_record() -> Credentials {
    Credentials {
        api_url: "https://api.example".to_string(),
        api_key: Some("key-123".to_string()),
        auth_token: Some("token-456".to_string()),
        tenant_id: Some("tenant-7".to_string()),
        user_id: Some("user-8".to_string()),
        environment_id: Some("env-9".to_string()),
    }
}

fn assert_equal_records(a: &Credentials, b: &Credentials) {
    assert_eq!(a.api_url, b.api_url);
    assert_eq!(a.api_key, b.api_key);
    assert_eq!(a.auth_token, b.auth_token);
    assert_eq!(a.tenant_id, b.tenant_id);
    assert_eq!(a.user_id, b.user_id);
    assert_eq!(a.environment_id, b.environment_id);
}

#[test]
fn round_trip_full_record() {
    let c = full_record();
    let text = encode_credentials(&c);
    let back = decode_credentials(&text).expect("decodes");
    assert_equal_records(&c, &back);
}

#[test]
fn round_trip_empty_record() {
    let c = Credentials::empty();
    let text = encode_credentials(&c);
    let back = decode_credentials(&text).expect("decodes");
    assert_equal_records(&c, &back);
}

#[test]
fn round_trip_with_quotes_and_backslashes() {
    let mut c = Credentials::empty();
    c.api_url = "https://api.example/\"quoted\"\\path".to_string();
    c.api_key = Some("k\\\"ey".to_string());
    let text = encode_credentials(&c);
    let back = decode_credentials(&text).expect("decodes");
    assert_equal_records(&c, &back);
}

#[test]
fn encoded_form_is_the_documented_object() {
    let mut c = Credentials::empty();
    c.api_url = "https://api.example".to_string();
    c.api_key = Some("k".to_string());
    let text = encode_credentials(&c);
    assert_eq!(
        text,
        "{\"api_url\":\"https://api.example\",\"api_key\":\"k\",\"auth_token\":null,\
         \"tenant_id\":null,\"user_id\":null,\"environment_id\":null}"
    );
}

#[test]
fn encoded_form_is_valid_json() {
    let c = full_record();
    let text = encode_credentials(&c);
    let v: serde_json::Value = serde_json::from_str(&text).expect("valid JSON");
    assert_eq!(v["api_url"], "https://api.example");
    assert_eq!(v["api_key"], "key-123");
    assert_eq!(v["auth_token"], "token-456");
}

#[test]
fn decode_rejects_garbage() {
    assert!(decode_credentials("not json at all").is_none());
    assert!(decode_credentials("").is_none());
    assert!(decode_credentials("{\"api_url\":42}").is_none());
}

#[test]
fn decode_rejects_trailing_text_but_not_trailing_whitespace() {
    let text = encode_credentials(&Credentials::empty());
    assert!(decode_credentials(&format!("{}x", text)).is_none());
    assert!(decode_credentials(&format!("{} \n", text)).is_some());
}

#[test]
fn parse_persisted_marks_unreadable_text_corrupt() {
    match parse_persisted("{broken") {
        Err(StoreError::Corrupt) => {}
        _ => panic!("expected the corrupt marker"),
    }
}

#[test]
fn parse_persisted_reads_a_record_back() {
    let c = full_record();
    let text = encode_credentials(&c);
    let back = parse_persisted(&text).expect("parses");
    assert_equal_records(&c, &back);
}

#[test]
fn decode_handles_simple_escapes() {
    let text = "{\"api_url\":\"a\\nb\",\"api_key\":null,\"auth_token\":null,\
                \"tenant_id\":null,\"user_id\":null,\"environment_id\":null}";
    let c = decode_credentials(text).expect("decodes");
    assert_eq!(c.api_url, "a\nb");
}

#[test]
fn round_trip_with_control_characters() {
    let mut c = Credentials::empty();
    c.api_url = "line1\nline2\ttab\u{1}".to_string();
    let text = encode_credentials(&c);
    // the encoded form escapes the control characters, so standard JSON
    // parsers accept it
    let v: serde_json::Value = serde_json::from_str(&text).expect("valid JSON");
    assert_eq!(v["api_url"], "line1\nline2\ttab\u{1}");
    let back = decode_credentials(&text).expect("decodes");
    assert_eq!(back.api_url, "line1\nline2\ttab\u{1}");
}

#[test]
fn decode_accepts_whitespace_between_tokens() {
    let text = "{ \"api_url\" : \"https://api.example\" ,\n  \"api_key\": null,\n  \
                \"auth_token\" :null, \"tenant_id\": null,\n\t\"user_id\": null,\n  \
                \"environment_id\": null\n}\n";
    let c = decode_credentials(text).expect("decodes");
    assert_eq!(c.api_url, "https://api.example");
    assert_eq!(c.api_key, None);
}

#[test]
fn decode_reads_a_pretty_printed_record() {
    // the shape a serializer writes for the record struct itself:
    // pretty whitespace around the members, in declaration order
    let pretty = "{\n  \"api_url\": \"https://api.example\",\n  \"api_key\": \"key-123\",\n  \
                  \"auth_token\": \"token-456\",\n  \"tenant_id\": \"tenant-7\",\n  \
                  \"user_id\": \"user-8\",\n  \"environment_id\": \"env-9\"\n}";
    let back = decode_credentials(pretty).expect("decodes");
    assert_equal_records(&full_record(), &back);
}

#[test]
fn decode_handles_unicode_escapes() {
    let text = "{\"api_url\":\"\\u0041\\u00e9\\u20ac\",\"api_key\":\"\\ud83d\\ude00\",\
                \"auth_token\":null,\"tenant_id\":null,\"user_id\":null,\
                \"environment_id\":null}";
    let c = decode_credentials(text).expect("decodes");
    assert_eq!(c.api_url, "Aé€");
    assert_eq!(c.api_key.as_deref(), Some("😀"));
}

#[test]
fn decode_rejects_broken_unicode_escapes() {
    let prefix = "{\"api_url\":";
    let suffix = ",\"api_key\":null,\"auth_token\":null,\"tenant_id\":null,\
                  \"user_id\":null,\"environment_id\":null}";
    // too few digits
    assert!(decode_credentials(&format!("{}\"\\u00\"{}", prefix, suffix)).is_none());
    // a lone high surrogate
    assert!(decode_credentials(&format!("{}\"\\ud83d\"{}", prefix, suffix)).is_none());
    // a lone low surrogate
    assert!(decode_credentials(&format!("{}\"\\ude00\"{}", prefix, suffix)).is_none());
}
