use api_view::models::{
    ApiCollection, ApiEnvironment, ApiProject, ApiRequest, AuthConfig, HttpMethod, KeyValue,
    RequestBody,
};

#[test]
fn http_method_all_lists_seven_in_order() {
    let all = HttpMethod::all();
    assert_eq!(
        all,
        vec![
            HttpMethod::GET,
            HttpMethod::POST,
            HttpMethod::PUT,
            HttpMethod::DELETE,
            HttpMethod::PATCH,
            HttpMethod::HEAD,
            HttpMethod::OPTIONS
        ]
    );
}

#[test]
fn defaults() {
    assert_eq!(HttpMethod::default(), HttpMethod::GET);
    assert!(matches!(RequestBody::default(), RequestBody::Empty));
    let p = ApiProject::default();
    assert!(p.collections.is_empty() && p.environments.is_empty() && p.history.is_empty());
    assert!(p.active_env_id.is_none());
}

#[test]
fn key_value_new_is_enabled_without_description() {
    let kv = KeyValue::new("a".to_string(), "b".to_string());
    assert_eq!(kv.key, "a");
    assert_eq!(kv.value, "b");
    assert!(kv.enabled);
    assert!(kv.description.is_none());
}

#[test]
fn api_request_new() {
    let r = ApiRequest::new("N".to_string());
    assert_eq!(r.name, "N");
    assert_eq!(r.method, HttpMethod::GET);
    assert!(r.url.is_empty() && r.params.is_empty() && r.headers.is_empty());
    assert!(matches!(r.body, RequestBody::Empty));
    assert!(matches!(r.auth, AuthConfig::NoAuth));
    assert!(r.enabled);
    assert_eq!((r.id >> 76) & 15, 4);
    assert_eq!((r.id >> 62) & 3, 2);
    let r2 = ApiRequest::new("N".to_string());
    assert_ne!(r.id, r2.id);
}

#[test]
fn environment_and_collection_new() {
    let e = ApiEnvironment::new("dev".to_string());
    assert_eq!(e.name, "dev");
    assert!(e.variables.is_empty());
    let c = ApiCollection::new("c".to_string());
    assert_eq!(c.name, "c");
    assert!(c.requests.is_empty() && c.folders.is_empty());
}
