use api_view::api_tab::HistoryItem;
use api_view::history_storage::HistoryStorage;

fn item(id: &str, method: &str, url: &str) -> HistoryItem {
    HistoryItem {
        id: id.to_string(),
        method: method.to_string(),
        url: url.to_string(),
        status: 200,
        timestamp: 0,
        response_time_ms: 1,
    }
}

fn ids(h: &[HistoryItem]) -> Vec<String> {
    h.iter().map(|i| i.id.clone()).collect()
}

#[test]
fn add_item_puts_newest_first_and_drops_same_request() {
    let mut h = vec![item("1", "GET", "a"), item("2", "POST", "a"), item("3", "GET", "b")];
    HistoryStorage::add_item(&mut h, item("4", "GET", "a"));
    assert_eq!(ids(&h), vec!["4", "2", "3"]);
}

#[test]
fn add_item_twice_is_like_once() {
    let mut once = vec![item("1", "GET", "a"), item("2", "GET", "b")];
    HistoryStorage::add_item(&mut once, item("x", "GET", "b"));
    let mut twice = once.clone();
    HistoryStorage::add_item(&mut twice, item("x", "GET", "b"));
    assert_eq!(ids(&once), ids(&twice));
    assert_eq!(ids(&once), vec!["x", "1"]);
}

#[test]
fn add_item_keeps_a_hundred() {
    let mut h: Vec<HistoryItem> = (0..100).map(|i| item(&i.to_string(), "GET", &i.to_string())).collect();
    HistoryStorage::add_item(&mut h, item("new", "GET", "new"));
    assert_eq!(h.len(), 100);
    assert_eq!(h[0].id, "new");
    assert_eq!(h[99].id, "98");
}

#[test]
fn items_to_save_cuts_to_a_hundred() {
    let mut h: Vec<HistoryItem> = (0..130).map(|i| item(&i.to_string(), "GET", "u")).collect();
    HistoryStorage::items_to_save(&mut h);
    assert_eq!(h.len(), 100);
    assert_eq!(h[99].id, "99");
    let mut short = vec![item("a", "GET", "u")];
    HistoryStorage::items_to_save(&mut short);
    assert_eq!(short.len(), 1);
}

#[test]
fn add_item_keeps_url_and_method_pairs_distinct() {
    let mut h = vec![item("1", "GET", "a"), item("2", "POST", "a"), item("3", "GET", "b")];
    for (n, (m, u)) in [("GET", "b"), ("PUT", "c"), ("GET", "a"), ("PUT", "c"), ("POST", "b")].iter().enumerate() {
        HistoryStorage::add_item(&mut h, item(&format!("n{}", n), m, u));
        for i in 0..h.len() {
            for j in (i + 1)..h.len() {
                assert!(!(h[i].url == h[j].url && h[i].method == h[j].method));
            }
        }
    }
    assert_eq!(ids(&h), vec!["n4", "n3", "n2", "n0", "2"]);
}
