use api_view::global_state::GlobalApiState;
use api_view::models::{
    ApiCollection, ApiEnvironment, ApiProject, ApiRequest, EnvironmentVariable, HistoryEntry, KeyValue,
    RequestBody, ResponseSummary,
};

fn sample_project() -> ApiProject {
    let mut req = ApiRequest::new("r".to_string());
    req.params.push(KeyValue::new("k".to_string(), "v".to_string()));
    req.body = RequestBody::Raw { content_type: "text/plain".to_string(), content: "hi".to_string() };
    let mut inner = ApiCollection::new("inner".to_string());
    inner.requests.push(req.clone());
    let mut outer = ApiCollection::new("outer".to_string());
    outer.folders.push(inner);
    outer.requests.push(req.clone());
    let mut env = ApiEnvironment::new("dev".to_string());
    env.variables.push(EnvironmentVariable { key: "a".to_string(), value: "b".to_string(), enabled: true });
    ApiProject {
        collections: vec![outer],
        environments: vec![env],
        active_env_id: Some(7),
        history: vec![HistoryEntry {
            id: 9,
            request: req,
            response: Some(ResponseSummary { status: 200, status_text: "OK".to_string(), time_ms: 3, size_bytes: 10 }),
            timestamp_secs: 100,
            timestamp_nanos: 5,
        }],
    }
}

#[test]
fn project_copies_hold_the_same_data() {
    let p = sample_project();
    let c = p.duplicate();
    assert_eq!(format!("{:?}", p), format!("{:?}", c));
    assert_eq!(c.collections[0].folders[0].name, "inner");
    assert_eq!(c.collections[0].folders[0].requests[0].params[0].value, "v");
}

#[test]
fn global_state_hands_out_copies() {
    let mut g = GlobalApiState::new();
    assert!(g.get_project().collections.is_empty());
    g.set_project(sample_project());
    let shared = g.get_project();
    assert_eq!(format!("{:?}", *shared), format!("{:?}", g.project));
    assert!(g.environments.is_empty());
    let d = GlobalApiState::default();
    assert!(d.project.history.is_empty());
}
