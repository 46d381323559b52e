use flexprice::payload::item_line;
use flexprice::payload::parse_payload;
use flexprice::payload::ItemFields;
use flexprice::payload::ParsedPayload;

#[test]
fn line_with_name_and_status() {
    let mut f = ItemFields::absent();
    f.id = Some("cus_1".to_string());
    f.name = Some("Acme".to_string());
    f.status = Some("active".to_string());
    assert_eq!(item_line(&f), "cus_1  Acme  [active]");
}

#[test]
fn line_with_id_alone() {
    let mut f = ItemFields::absent();
    f.id = Some("cus_2".to_string());
    assert_eq!(item_line(&f), "cus_2  -");
}

#[test]
fn line_without_id_shows_question_mark() {
    let mut f = ItemFields::absent();
    f.name = Some("Anon".to_string());
    assert_eq!(item_line(&f), "?  Anon");
}

#[test]
fn line_name_falls_back_to_email_then_event_name() {
    let mut f = ItemFields::absent();
    f.id = Some("x".to_string());
    f.email = Some("a@b.example".to_string());
    assert_eq!(item_line(&f), "x  a@b.example");
    f.email = None;
    f.event_name = Some("api_call".to_string());
    assert_eq!(item_line(&f), "x  api_call");
}

#[test]
fn line_status_falls_back_through_the_status_members() {
    let mut f = ItemFields::absent();
    f.id = Some("sub_1".to_string());
    f.subscription_status = Some("trialing".to_string());
    assert_eq!(item_line(&f), "sub_1  -  [trialing]");
    f.subscription_status = None;
    f.wallet_status = Some("frozen".to_string());
    assert_eq!(item_line(&f), "sub_1  -  [frozen]");
}

#[test]
fn payload_with_items_is_probed_field_by_field() {
    let p = parse_payload(
        "{\"items\":[{\"id\":\"cus_1\",\"name\":\"Acme\",\"status\":\"active\"},{\"id\":\"cus_2\"}]}",
    );
    match p {
        ParsedPayload::ItemList { fields, pretty } => {
            assert_eq!(fields.len(), 2);
            assert_eq!(fields[0].id.as_deref(), Some("cus_1"));
            assert_eq!(fields[0].name.as_deref(), Some("Acme"));
            assert_eq!(fields[0].status.as_deref(), Some("active"));
            assert_eq!(fields[1].id.as_deref(), Some("cus_2"));
            assert_eq!(fields[1].name, None);
            assert!(pretty.contains("cus_1"));
        }
        _ => panic!("expected an item list"),
    }
}

#[test]
fn payload_without_items_member() {
    match parse_payload("{\"total_count\":3}") {
        ParsedPayload::Object { pretty } => assert!(pretty.contains("total_count")),
        _ => panic!("expected a plain object"),
    }
}

#[test]
fn payload_with_non_array_items_member() {
    match parse_payload("{\"items\":5}") {
        ParsedPayload::Object { .. } => {}
        _ => panic!("expected a plain object"),
    }
}

#[test]
fn payload_that_is_no_json() {
    assert!(matches!(parse_payload("%PDF-1.4"), ParsedPayload::NotJson));
}

#[test]
fn non_string_id_shows_the_question_mark() {
    match parse_payload("{\"items\":[{\"id\":7,\"name\":\"N\"}]}") {
        ParsedPayload::ItemList { fields, .. } => {
            assert_eq!(fields[0].id.as_deref(), Some("?"));
            assert_eq!(fields[0].name.as_deref(), Some("N"));
            assert_eq!(item_line(&fields[0]), "?  N");
        }
        _ => panic!("expected an item list"),
    }
}

#[test]
fn non_string_member_ends_a_fallback_chain() {
    // a present non-string name stops the name chain: the email is not
    // consulted, the dash placeholder is shown
    match parse_payload("{\"items\":[{\"name\":5,\"email\":\"x@y.example\"}]}") {
        ParsedPayload::ItemList { fields, .. } => {
            assert_eq!(fields[0].name.as_deref(), Some("-"));
            assert_eq!(item_line(&fields[0]), "?  -");
        }
        _ => panic!("expected an item list"),
    }
    // a present non-string status stops the status chain: no suffix
    match parse_payload("{\"items\":[{\"id\":\"a\",\"status\":3,\"wallet_status\":\"ok\"}]}") {
        ParsedPayload::ItemList { fields, .. } => {
            assert_eq!(fields[0].status.as_deref(), Some(""));
            assert_eq!(item_line(&fields[0]), "a  -");
        }
        _ => panic!("expected an item list"),
    }
}
