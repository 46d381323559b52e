use flexprice::dashboard::tab_endpoint;
use flexprice::dashboard::tab_title;
use flexprice::dashboard::DashboardAction;
use flexprice::dashboard::DashboardKey;
use flexprice::dashboard::DashboardState;
use flexprice::dashboard::RenderMode;
use flexprice::dashboard::TAB_COUNT;

#[test]
fn fresh_session_starts_on_first_tab() {
    let s = DashboardState::new();
    assert_eq!(s.active_tab, 0);
    assert!(s.items.is_empty());
    assert_eq!(s.selected, 0);
    assert!(!s.loading);
    assert!(s.error.is_none());
    assert!(!s.should_quit);
}

#[test]
fn tab_titles_and_endpoints_line_up() {
    assert_eq!(TAB_COUNT, 7);
    assert_eq!(tab_title(0), "Customers");
    assert_eq!(tab_endpoint(0), "/v1/customers");
    assert_eq!(tab_title(3), "Invoices");
    assert_eq!(tab_endpoint(3), "/v1/invoices");
    assert_eq!(tab_title(6), "Features");
    assert_eq!(tab_endpoint(6), "/v1/features");
}

#[test]
fn next_tab_applied_tab_count_times_returns_to_start() {
    let mut s = DashboardState::new();
    s.next_tab();
    s.next_tab();
    assert_eq!(s.active_tab, 2);
    for _ in 0..TAB_COUNT {
        s.next_tab();
    }
    assert_eq!(s.active_tab, 2);
}

#[test]
fn prev_tab_inverts_next_tab() {
    let mut s = DashboardState::new();
    for start in 0..TAB_COUNT {
        s.active_tab = start;
        s.next_tab();
        s.prev_tab();
        assert_eq!(s.active_tab, start);
        s.prev_tab();
        s.next_tab();
        assert_eq!(s.active_tab, start);
    }
}

#[test]
fn prev_tab_wraps_from_zero() {
    let mut s = DashboardState::new();
    s.prev_tab();
    assert_eq!(s.active_tab, TAB_COUNT - 1);
}

#[test]
fn tab_switch_clears_fetched_data() {
    let mut s = DashboardState::new();
    s.finish_fetch(Err("boom".to_string()));
    assert!(s.error.is_some());
    s.next_tab();
    assert!(s.error.is_none());
    assert!(s.items.is_empty());
    assert_eq!(s.detail, "");
    assert_eq!(s.selected, 0);
}

#[test]
fn item_steps_cycle_and_ignore_empty_lists() {
    let mut s = DashboardState::new();
    s.next_item();
    assert_eq!(s.selected, 0);
    s.finish_fetch(Ok(
        "{\"items\":[{\"id\":\"a\"},{\"id\":\"b\"},{\"id\":\"c\"}]}".to_string()
    ));
    assert_eq!(s.items.len(), 3);
    s.next_item();
    assert_eq!(s.selected, 1);
    s.next_item();
    s.next_item();
    assert_eq!(s.selected, 0);
    s.prev_item();
    assert_eq!(s.selected, 2);
}

#[test]
fn fetch_failure_shows_the_error() {
    let mut s = DashboardState::new();
    s.begin_fetch();
    assert!(s.loading);
    s.finish_fetch(Err("connection refused".to_string()));
    assert!(!s.loading);
    assert_eq!(s.error.as_deref(), Some("connection refused"));
    assert!(s.items.is_empty());
    assert_eq!(s.detail, "");
}

#[test]
fn fetch_of_item_list_derives_display_lines() {
    let mut s = DashboardState::new();
    s.finish_fetch(Ok(
        "{\"items\":[{\"id\":\"cus_1\",\"name\":\"Acme\",\"status\":\"active\"}]}".to_string(),
    ));
    assert_eq!(s.items, vec!["cus_1  Acme  [active]".to_string()]);
    assert_eq!(s.selected, 0);
    assert!(s.error.is_none());
}

#[test]
fn fetch_line_without_status_has_no_suffix() {
    let mut s = DashboardState::new();
    s.finish_fetch(Ok("{\"items\":[{\"id\":\"cus_2\"}]}".to_string()));
    assert_eq!(s.items, vec!["cus_2  -".to_string()]);
}

#[test]
fn fetch_detail_shows_first_element_of_a_list() {
    let mut s = DashboardState::new();
    s.finish_fetch(Ok(
        "{\"items\":[{\"id\":\"a\"},{\"id\":\"b\"}]}".to_string()
    ));
    let expected: serde_json::Value = serde_json::from_str("{\"id\":\"a\"}").unwrap();
    assert_eq!(s.detail, serde_json::to_string_pretty(&expected).unwrap());
}

#[test]
fn selection_change_recomputes_detail_from_the_payload() {
    let mut s = DashboardState::new();
    s.finish_fetch(Ok(
        "{\"items\":[{\"id\":\"a\"},{\"id\":\"b\"}]}".to_string()
    ));
    // the pane holds one element; repopulate it with the whole payload
    // the way the fetch left it before recomputation, then move
    s.detail = "{\"items\":[{\"id\":\"a\"},{\"id\":\"b\"}]}".to_string();
    s.next_item();
    s.update_detail();
    let expected: serde_json::Value = serde_json::from_str("{\"id\":\"b\"}").unwrap();
    assert_eq!(s.detail, serde_json::to_string_pretty(&expected).unwrap());
}

#[test]
fn update_detail_leaves_non_json_text_alone() {
    let mut s = DashboardState::new();
    s.detail = "plain text".to_string();
    s.update_detail();
    assert_eq!(s.detail, "plain text");
}

#[test]
fn fetch_of_object_without_items_shows_placeholder() {
    let mut s = DashboardState::new();
    s.finish_fetch(Ok("{\"total_count\":0}".to_string()));
    assert_eq!(s.items, vec!["(no items)".to_string()]);
    let expected: serde_json::Value = serde_json::from_str("{\"total_count\":0}").unwrap();
    assert_eq!(s.detail, serde_json::to_string_pretty(&expected).unwrap());
}

#[test]
fn fetch_of_raw_text_shows_placeholder_and_body() {
    let mut s = DashboardState::new();
    s.finish_fetch(Ok("%PDF-1.4 not json".to_string()));
    assert_eq!(s.items, vec!["(raw response)".to_string()]);
    assert_eq!(s.detail, "%PDF-1.4 not json");
}

#[test]
fn keys_map_to_transitions_and_actions() {
    let mut s = DashboardState::new();
    assert!(matches!(s.handle_key(DashboardKey::TabNext), DashboardAction::Refetch));
    assert_eq!(s.active_tab, 1);
    assert!(matches!(s.handle_key(DashboardKey::TabPrev), DashboardAction::Refetch));
    assert_eq!(s.active_tab, 0);
    assert!(matches!(s.handle_key(DashboardKey::Refresh), DashboardAction::Refetch));
    assert!(matches!(s.handle_key(DashboardKey::ItemNext), DashboardAction::RecomputeDetail));
    assert!(matches!(s.handle_key(DashboardKey::Other), DashboardAction::Idle));
    assert!(!s.should_quit);
    assert!(matches!(s.handle_key(DashboardKey::Quit), DashboardAction::Idle));
    assert!(s.should_quit);
}

#[test]
fn render_mode_prefers_loading_then_error() {
    let mut s = DashboardState::new();
    assert!(matches!(s.render_mode(), RenderMode::Ready));
    s.error = Some("x".to_string());
    assert!(matches!(s.render_mode(), RenderMode::Failed));
    s.loading = true;
    assert!(matches!(s.render_mode(), RenderMode::Loading));
}
