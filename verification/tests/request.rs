use api_view::models::{ApiRequest, AuthConfig, FormField, HttpMethod, KeyValue, RequestBody};
use api_view::request::{auth_header, prepare_request, prepare_request_with_boundary, query_string, request_url};

fn kv(k: &str, v: &str, enabled: bool) -> KeyValue {
    KeyValue { key: k.to_string(), value: v.to_string(), enabled, description: None }
}

fn field(k: &str, v: &str, is_file: bool, enabled: bool) -> FormField {
    FormField { key: k.to_string(), value: v.to_string(), is_file, enabled }
}

#[test]
fn parameters_are_percent_encoded() {
    assert_eq!(query_string(&vec![kv("a b&c", "=ü~", true)]), "a%20b%26c=%3D%C3%BC~");
}

#[test]
fn basic_credentials_are_base64() {
    let short = AuthConfig::Basic { username: "a".to_string(), password: String::new() };
    assert_eq!(auth_header(&short).unwrap().1, "Basic YTo=");
    let longer = AuthConfig::Basic { username: "Aladdin".to_string(), password: "open sesame".to_string() };
    assert_eq!(auth_header(&longer).unwrap().1, "Basic QWxhZGRpbjpvcGVuIHNlc2FtZQ==");
}

#[test]
fn query_takes_enabled_pairs_with_keys() {
    let params = vec![kv("q", "a b", true), kv("", "x", true), kv("off", "1", false), kv("n", "", true)];
    assert_eq!(query_string(&params), "q=a%20b&n=");
    assert_eq!(request_url("http://h/p", &params), "http://h/p?q=a%20b&n=");
    assert_eq!(request_url("http://h/p?x=1", &params), "http://h/p?x=1&q=a%20b&n=");
    assert_eq!(request_url("http://h/p", &vec![kv("off", "1", false)]), "http://h/p");
}

#[test]
fn auth_headers() {
    let basic = AuthConfig::Basic { username: "user".to_string(), password: "pass".to_string() };
    assert_eq!(auth_header(&basic), Some(("Authorization".to_string(), "Basic dXNlcjpwYXNz".to_string())));
    let bearer = AuthConfig::Bearer { token: "t0k".to_string() };
    assert_eq!(auth_header(&bearer), Some(("Authorization".to_string(), "Bearer t0k".to_string())));
    assert_eq!(auth_header(&AuthConfig::NoAuth), None);
}

fn request(url: &str, body: RequestBody) -> ApiRequest {
    let mut r = ApiRequest::new("r".to_string());
    r.url = url.to_string();
    r.method = HttpMethod::POST;
    r.body = body;
    r
}

#[test]
fn empty_url_gives_nothing() {
    let r = request("", RequestBody::Empty);
    assert!(prepare_request(&r, &vec![], None).is_none());
}

#[test]
fn raw_body_with_headers_and_auth() {
    let mut r = request(
        "http://h",
        RequestBody::Raw { content_type: "application/json".to_string(), content: "{}".to_string() },
    );
    r.headers = vec![kv("X-A", "1", true), kv("X-B", "2", false)];
    r.auth = AuthConfig::Bearer { token: "t".to_string() };
    let p = prepare_request(&r, &vec![], None).unwrap();
    assert_eq!(p.url, "http://h");
    assert_eq!(p.method, HttpMethod::POST);
    assert_eq!(
        p.headers,
        vec![
            ("X-A".to_string(), "1".to_string()),
            ("Authorization".to_string(), "Bearer t".to_string()),
            ("Content-Type".to_string(), "application/json".to_string()),
        ]
    );
    assert_eq!(p.body, b"{}".to_vec());
}

#[test]
fn multipart_body() {
    let fields = vec![
        field("a", "1", false, true),
        field("f", "/tmp/x/data.bin", true, true),
        field("off", "z", false, false),
    ];
    let r = request("http://h", RequestBody::FormData { fields });
    let files = vec![None, Some(vec![0u8, 1, 2]), None];
    let p = prepare_request_with_boundary(&r, "B", &files, None).unwrap();
    let mut expected = Vec::new();
    expected.extend_from_slice(b"--B\r\nContent-Disposition: form-data; name=\"a\"\r\n\r\n1\r\n");
    expected.extend_from_slice(
        b"--B\r\nContent-Disposition: form-data; name=\"f\"; filename=\"data.bin\"\r\nContent-Type: application/octet-stream\r\n\r\n",
    );
    expected.extend_from_slice(&[0u8, 1, 2]);
    expected.extend_from_slice(b"\r\n--B--\r\n");
    assert_eq!(p.body, expected);
    assert_eq!(
        p.headers,
        vec![("Content-Type".to_string(), "multipart/form-data; boundary=B".to_string())]
    );
    let q = prepare_request(&r, &files, None).unwrap();
    let ct = &q.headers[0].1;
    assert_eq!(ct.len(), "multipart/form-data; boundary=".len() + 36);
}

#[test]
fn urlencoded_and_binary_bodies() {
    let fields = vec![field("a b", "1", false, true), field("", "x", false, true), field("c", "&", false, true)];
    let r = request("http://h", RequestBody::Urlencoded { fields });
    let p = prepare_request(&r, &vec![], None).unwrap();
    assert_eq!(p.body, b"a%20b=1&c=%26".to_vec());
    assert_eq!(p.headers[0].1, "application/x-www-form-urlencoded");
    let b = request("http://h", RequestBody::Binary { file_path: "/nope".to_string() });
    let read = prepare_request(&b, &vec![], Some(vec![9u8])).unwrap();
    assert_eq!(read.body, vec![9u8]);
    assert_eq!(read.headers[0].1, "application/octet-stream");
    let unread = prepare_request(&b, &vec![], None).unwrap();
    assert!(unread.body.is_empty() && unread.headers.is_empty());
}
