use flexprice::models::AuthResponse;
use flexprice::models::Customer;
use flexprice::models::Feature;
use flexprice::models::ListResponse;
use flexprice::models::LoginRequest;
use flexprice::models::Meter;
use flexprice::models::Plan;
use flexprice::models::Subscription;

#[test]
fn login_request_carries_the_credentials() {
    let r = LoginRequest { email: "a@b.example".to_string(), password: "pw".to_string() };
    assert_eq!(r.email, "a@b.example");
    assert_eq!(r.password, "pw");
}

#[test]
fn auth_response_identifies_tenant_and_user() {
    let r = AuthResponse {
        token: "tok".to_string(),
        user_id: "user-1".to_string(),
        tenant_id: "tenant-1".to_string(),
    };
    assert_eq!(r.clone(), r);
}

#[test]
fn list_response_wraps_any_resource() {
    let list = ListResponse {
        items: vec![
            Customer {
                id: "cus_1".to_string(),
                name: Some("Acme".to_string()),
                email: None,
                external_id: None,
                status: Some("active".to_string()),
                created_at: None,
            },
        ],
        total_count: Some(1),
    };
    assert_eq!(list.items.len(), 1);
    assert_eq!(list.items[0].id, "cus_1");
    assert_eq!(list.total_count, Some(1));
}

#[test]
fn resources_compare_by_fields() {
    let p = Plan {
        id: "plan_1".to_string(),
        name: Some("Pro".to_string()),
        description: None,
        status: None,
        created_at: None,
    };
    assert_eq!(p.clone(), p);

    let s = Subscription {
        id: "sub_1".to_string(),
        customer_id: Some("cus_1".to_string()),
        plan_id: Some("plan_1".to_string()),
        subscription_status: Some("trialing".to_string()),
        current_period_start: None,
        current_period_end: None,
        created_at: None,
    };
    assert_eq!(s.clone(), s);

    let m = Meter {
        id: "mtr_1".to_string(),
        name: None,
        event_name: Some("api_call".to_string()),
        aggregation: Some("count".to_string()),
        status: None,
        created_at: None,
    };
    let f = Feature {
        id: "feat_1".to_string(),
        name: Some("Seats".to_string()),
        lookup_key: None,
        feature_type: Some("metered".to_string()),
        status: None,
        created_at: None,
    };
    assert_ne!(m.id, f.id);
}
