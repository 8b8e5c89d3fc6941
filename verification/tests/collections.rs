use api_view::collections_storage::CollectionsStorage;
use api_view::models::ApiCollection;

fn coll(id: u128, name: &str) -> ApiCollection {
    ApiCollection { id, name: name.to_string(), requests: Vec::new(), folders: Vec::new() }
}

fn names(cs: &[ApiCollection]) -> Vec<String> {
    cs.iter().map(|c| c.name.clone()).collect()
}

#[test]
fn add_then_delete_restores() {
    let mut cs = vec![coll(1, "a"), coll(2, "b")];
    CollectionsStorage::add_collection(&mut cs, coll(3, "c"));
    assert_eq!(names(&cs), vec!["a", "b", "c"]);
    CollectionsStorage::delete_collection(&mut cs, 3);
    assert_eq!(names(&cs), vec!["a", "b"]);
}

#[test]
fn delete_removes_every_match() {
    let mut cs = vec![coll(1, "a"), coll(2, "b"), coll(1, "c")];
    CollectionsStorage::delete_collection(&mut cs, 1);
    assert_eq!(names(&cs), vec!["b"]);
    CollectionsStorage::delete_collection(&mut cs, 1);
    assert_eq!(names(&cs), vec!["b"]);
}

#[test]
fn update_replaces_first_match_only() {
    let mut cs = vec![coll(1, "a"), coll(2, "b"), coll(2, "c")];
    assert!(CollectionsStorage::update_collection(&mut cs, coll(2, "B")));
    assert_eq!(names(&cs), vec!["a", "B", "c"]);
    assert!(!CollectionsStorage::update_collection(&mut cs, coll(9, "z")));
    assert_eq!(names(&cs), vec!["a", "B", "c"]);
}
