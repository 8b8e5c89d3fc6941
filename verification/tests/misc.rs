use api_view::cloud_api::CloudApiError;
use api_view::ids::new_uuid_string;
use api_view::json::format_json;
use api_view::user_state::{GlobalUserState, TeamOption, UserInfo};

#[test]
fn uuid_text_is_hyphenated_lower_hex() {
    let s = new_uuid_string();
    assert_eq!(s.len(), 36);
    for (i, c) in s.chars().enumerate() {
        if i == 8 || i == 13 || i == 18 || i == 23 {
            assert_eq!(c, '-');
        } else {
            assert!(c.is_ascii_hexdigit() && !c.is_ascii_uppercase());
        }
    }
    assert_eq!(&s[14..15], "4");
    assert!(matches!(&s[19..20], "8" | "9" | "a" | "b"));
}

#[test]
fn only_not_authenticated_is_an_auth_error() {
    assert!(CloudApiError::NotAuthenticated.is_auth_error());
    assert!(!CloudApiError::RateLimited.is_auth_error());
    assert!(!CloudApiError::ServerError("x".to_string()).is_auth_error());
    assert_eq!(CloudApiError::NetworkError("down".to_string()).message(), "网络错误: down");
    assert_eq!(CloudApiError::NotAuthenticated.message(), "未认证");
}

#[test]
fn json_bodies_are_reformatted() {
    assert_eq!(format_json("  \n"), None);
    assert_eq!(format_json("{oops"), None);
    assert_eq!(format_json("{\"a\":1}"), Some("{\n  \"a\": 1\n}".to_string()));
}

#[test]
fn user_state_round_trip() {
    let mut s = GlobalUserState::new();
    assert!(!s.is_logged_in());
    assert!(s.get_user().is_none());
    let u = UserInfo {
        id: "1".to_string(),
        email: "e@x".to_string(),
        username: Some("n".to_string()),
        avatar_url: None,
        created_at: 5,
    };
    s.set_user(Some(u));
    assert!(s.is_logged_in());
    assert_eq!(s.get_user().unwrap().email, "e@x");
    s.set_user(None);
    assert!(!s.is_logged_in());
    let t = TeamOption { id: "t".to_string(), name: "T".to_string() };
    assert_eq!(t.name, "T");
}
