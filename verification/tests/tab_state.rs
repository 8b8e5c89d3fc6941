use api_view::api_tab::{ActivePanel, BodyType, FormDataValueType, HistoryItem, ResponsePanel, ResponseStatus};
use api_view::models::{ApiCollection, HttpMethod, RequestBody};
use api_view::tab_state::ApiTabState;

fn tab() -> ApiTabState<u32> {
    ApiTabState::new(Vec::new(), Vec::new(), (1, 2), (3, 4), (5, 6), (7, 8))
}

fn texts(pairs: &[(&str, &str)]) -> Vec<(String, String)> {
    pairs.iter().map(|(k, v)| (k.to_string(), v.to_string())).collect()
}

fn response(status: u16) -> ResponseStatus {
    ResponseStatus {
        status,
        status_text: "OK".to_string(),
        time_ms: 12,
        body: String::new(),
        headers: Vec::new(),
        cookies: Vec::new(),
    }
}

#[test]
fn fresh_tab() {
    let t = tab();
    assert_eq!(t.project_id, "default");
    assert_eq!(t.current_request.name, "New Request");
    assert_eq!(t.params.len(), 1);
    assert_eq!(t.headers.len(), 2);
    assert_eq!(t.headers[0].default_key.as_deref(), Some("User-Agent"));
    assert_eq!(t.headers[0].default_value.as_deref(), Some("OneHub/1.0"));
    assert_eq!(t.headers[0].key_input, 3);
    assert_eq!(t.body_type, BodyType::Json);
    assert_eq!(t.active_panel, ActivePanel::Params);
    assert_eq!(t.active_response_tab, ResponsePanel::Body);
    assert_eq!(t.body_form_fields.len(), 1);
    assert!(!t.is_loading);
    let p = ApiTabState::with_project_id("p".to_string(), Vec::new(), Vec::new(), (1u32, 2), (3, 4), (5, 6), (7, 8));
    assert_eq!(p.project_id, "p");
}

#[test]
fn rows_are_added_and_removed() {
    let mut t = tab();
    t.add_param(10, 11);
    assert_eq!(t.params.len(), 2);
    assert!(t.delete_param(0));
    assert_eq!(t.params[0].key_input, 10);
    assert!(!t.delete_param(5));
    t.add_header(12, 13);
    assert!(t.delete_header(2));
    assert!(!t.delete_header(2));
    t.add_form_field(14, 15);
    assert!(t.toggle_form_field_type(1));
    assert_eq!(t.body_form_fields[1].value_type, FormDataValueType::File);
    assert!(t.set_form_field_file(1, "/a/b".to_string()));
    assert!(t.toggle_form_field_enabled(1));
    assert!(!t.body_form_fields[1].enabled);
    assert!(t.toggle_form_field_type(1));
    assert!(t.body_form_fields[1].file_path.is_none());
    assert!(t.delete_form_field(1));
    assert!(!t.has_form_field(1));
    assert!(!t.set_form_field_file(1, "x".to_string()));
}

#[test]
fn toggles_undo_themselves() {
    let mut t = tab();
    t.toggle_collections();
    assert!(t.collections_collapsed);
    t.toggle_collections();
    assert!(!t.collections_collapsed);
    t.toggle_history();
    t.toggle_history();
    assert!(!t.history_collapsed);
    t.select_panel(ActivePanel::Auth);
    assert_eq!(t.active_panel, ActivePanel::Auth);
    t.select_response_tab(ResponsePanel::Cookies);
    assert_eq!(t.active_response_tab, ResponsePanel::Cookies);
}

#[test]
fn send_composes_request_and_records_history() {
    let mut t = tab();
    t.set_url("http://h".to_string());
    t.select_method("PUT");
    let sent = t.begin_send(
        &texts(&[("q", "1")]),
        &texts(&[("", ""), ("X", "y")]),
        "  {\"a\":1} ".to_string(),
        &texts(&[]),
    );
    assert_eq!(sent, Some(("PUT".to_string(), "http://h".to_string())));
    assert!(t.is_loading);
    assert_eq!(t.current_request.method, HttpMethod::PUT);
    assert_eq!(t.current_request.params.len(), 1);
    assert_eq!(t.current_request.headers.len(), 1);
    assert_eq!(t.current_request.headers[0].key, "X");
    match &t.current_request.body {
        RequestBody::Raw { content_type, content } => {
            assert_eq!(content_type, "application/json");
            assert_eq!(content, "  {\"a\":1} ");
        }
        _ => panic!("raw body expected"),
    }
    assert_eq!(t.begin_send(&vec![], &vec![], String::new(), &vec![]), None);
    assert!(t.record_response(Some(response(201)), "PUT".to_string(), "http://h".to_string(), "id".to_string(), 7));
    assert!(!t.is_loading);
    assert_eq!(t.history.len(), 1);
    assert_eq!(t.history[0].status, 201);
    assert_eq!(t.history[0].timestamp, 7);
    assert_eq!(t.history[0].response_time_ms, 12);
    assert!(!t.finish_send(None, "GET".to_string(), "u".to_string()));
    assert!(t.response_status.is_none());
    assert!(t.finish_send(Some(response(500)), "GET".to_string(), "u".to_string()));
    assert_eq!(t.history.len(), 2);
    assert_eq!(t.history[0].id.len(), 36);
}

#[test]
fn blank_json_and_empty_form_send_no_body() {
    let mut t = tab();
    t.begin_send(&vec![], &vec![], " \n".to_string(), &vec![]);
    assert!(matches!(t.current_request.body, RequestBody::Empty));
    let mut f = tab();
    f.select_body_type(BodyType::FormData);
    assert!(f.take_pending_content_type_update());
    assert!(!f.take_pending_content_type_update());
    f.begin_send(&vec![], &vec![], String::new(), &texts(&[("", "v")]));
    assert!(matches!(f.current_request.body, RequestBody::Empty));
    let mut g = tab();
    g.select_body_type(BodyType::FormData);
    g.toggle_form_field_type(0);
    g.set_form_field_file(0, "/p".to_string());
    g.begin_send(&vec![], &vec![], String::new(), &texts(&[("k", "ignored")]));
    match &g.current_request.body {
        RequestBody::FormData { fields } => {
            assert_eq!(fields.len(), 1);
            assert_eq!(fields[0].value, "/p");
            assert!(fields[0].is_file && fields[0].enabled);
        }
        _ => panic!("form body expected"),
    }
}

#[test]
fn tab_history_keeps_fifty() {
    let items: Vec<HistoryItem> = (0..50)
        .map(|i| HistoryItem {
            id: i.to_string(),
            method: "GET".to_string(),
            url: "u".to_string(),
            status: 200,
            timestamp: 0,
            response_time_ms: 0,
        })
        .collect();
    let mut t: ApiTabState<u32> = ApiTabState::new(items, Vec::new(), (1, 2), (3, 4), (5, 6), (7, 8));
    t.record_response(Some(response(200)), "GET".to_string(), "v".to_string(), "new".to_string(), 1);
    assert_eq!(t.history.len(), 50);
    assert_eq!(t.history[0].id, "new");
    assert_eq!(t.history[49].id, "48");
}

#[test]
fn saving_to_collections() {
    let mut t = tab();
    t.save_to_collection("http://a".to_string(), Some(0));
    assert_eq!(t.collections.len(), 1);
    assert_eq!(t.collections[0].name, "My Collection");
    assert_eq!(t.collections[0].requests[0].name, "GET - http://a");
    t.save_to_collection("http://b".to_string(), Some(5));
    assert_eq!(t.collections[0].requests[1].name, "HEAD - http://b");
    assert_eq!(t.collections[0].requests[1].method, HttpMethod::GET);
    t.save_to_collection("http://c".to_string(), Some(1));
    assert_eq!(t.collections[0].requests[2].method, HttpMethod::POST);
    t.new_collection();
    assert_eq!(t.collections.len(), 2);
    assert_eq!(t.collections[1].name, "New Collection");
    let mut with: ApiTabState<u32> = ApiTabState::new(
        Vec::new(),
        vec![ApiCollection::new("Mine".to_string())],
        (1, 2),
        (3, 4),
        (5, 6),
        (7, 8),
    );
    with.save_to_collection("u".to_string(), None);
    assert_eq!(with.collections.len(), 1);
    assert_eq!(with.collections[0].requests[0].name, "GET - u");
}

#[test]
fn reset_request_restores_rows() {
    let mut t = tab();
    t.add_param(9, 9);
    t.set_url("x".to_string());
    t.select_panel(ActivePanel::Body);
    t.reset_request((20, 21), (22, 23), (24, 25));
    assert_eq!(t.params.len(), 1);
    assert_eq!(t.params[0].key_input, 20);
    assert_eq!(t.headers.len(), 2);
    assert!(t.current_request.url.is_empty());
    assert_eq!(t.active_panel, ActivePanel::Params);
}

#[test]
fn content_type_header_follows_body_type() {
    // Fresh tab: User-Agent row, blank row. A Content-Type row goes after User-Agent.
    let mut t = tab();
    t.update_content_type_header(&vec![String::new(), String::new()], (30, 31), (32, 33));
    assert_eq!(t.headers.len(), 3);
    assert_eq!(t.headers[1].default_key.as_deref(), Some("Content-Type"));
    assert_eq!(t.headers[1].default_value.as_deref(), Some("application/json"));
    assert_eq!(t.headers[1].key_input, 30);
    // Switching to form data updates that row in place.
    t.select_body_type(BodyType::FormData);
    t.update_content_type_header(&vec![String::new(), String::new(), String::new()], (40, 41), (42, 43));
    assert_eq!(t.headers.len(), 3);
    assert_eq!(t.headers[1].default_value.as_deref(), Some("multipart/form-data"));
    // Without a User-Agent row, one is put before the typed content-type row.
    let mut u = tab();
    assert!(u.delete_header(0));
    u.update_content_type_header(&vec!["CONTENT-TYPE".to_string()], (50, 51), (52, 53));
    assert_eq!(u.headers.len(), 2);
    assert_eq!(u.headers[0].default_key.as_deref(), Some("User-Agent"));
    assert_eq!(u.headers[1].default_value.as_deref(), Some("application/json"));
    // With neither, User-Agent then Content-Type go first.
    let mut v = tab();
    v.delete_header(0);
    v.update_content_type_header(&vec!["x".to_string()], (60, 61), (62, 63));
    assert_eq!(v.headers.len(), 3);
    assert_eq!(v.headers[0].key_input, 62);
    assert_eq!(v.headers[1].key_input, 60);
    assert_eq!(v.headers[2].key_input, 7 - 2);
}

#[test]
fn row_enabled_flags_flip() {
    let mut t = tab();
    assert!(t.toggle_param_enabled(0));
    assert!(!t.params[0].enabled);
    assert!(!t.toggle_param_enabled(3));
    assert!(t.toggle_header_enabled(1));
    assert!(!t.headers[1].enabled);
    assert!(t.headers[0].enabled);
    assert!(!t.toggle_header_enabled(2));
    let sent = t.begin_send(&texts(&[("p", "1")]), &texts(&[("", ""), ("h", "2")]), String::new(), &vec![]);
    assert!(sent.is_some());
    assert!(!t.current_request.params[0].enabled);
    assert!(!t.current_request.headers[0].enabled);
}

fn row_parts(t: &ApiTabState<u32>) -> Vec<(u32, u32, bool, Option<String>, Option<String>)> {
    t.headers
        .iter()
        .map(|r| (r.key_input, r.value_input, r.enabled, r.default_key.clone(), r.default_value.clone()))
        .collect()
}

#[test]
fn content_type_update_twice_changes_nothing() {
    // Both rows present.
    let mut a = tab();
    a.update_content_type_header(&vec![String::new(), String::new()], (30, 31), (32, 33));
    let once = row_parts(&a);
    a.update_content_type_header(&vec![String::new(); 3], (34, 35), (36, 37));
    assert_eq!(row_parts(&a), once);
    a.update_content_type_header(&vec![String::new(); 3], (38, 39), (40, 41));
    assert_eq!(row_parts(&a), once);
    // A typed content-type row without a User-Agent row.
    let mut b = tab();
    b.delete_header(0);
    b.update_content_type_header(&vec!["content-type".to_string()], (50, 51), (52, 53));
    let once = row_parts(&b);
    b.update_content_type_header(&vec![String::new(), "content-type".to_string()], (54, 55), (56, 57));
    assert_eq!(row_parts(&b), once);
    // A typed User-Agent row without a content-type row.
    let mut c = tab();
    c.delete_header(0);
    c.update_content_type_header(&vec!["User-Agent".to_string()], (60, 61), (62, 63));
    let once = row_parts(&c);
    assert_eq!(once.len(), 2);
    c.update_content_type_header(&vec!["User-Agent".to_string(), String::new()], (64, 65), (66, 67));
    assert_eq!(row_parts(&c), once);
    // Neither row.
    let mut d = tab();
    d.delete_header(0);
    d.update_content_type_header(&vec!["x".to_string()], (70, 71), (72, 73));
    let once = row_parts(&d);
    d.update_content_type_header(&vec![String::new(), String::new(), "x".to_string()], (74, 75), (76, 77));
    assert_eq!(row_parts(&d), once);
}
