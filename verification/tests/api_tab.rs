use api_view::api_tab::{
    file_display_name, format_header_key, method_color, method_index, method_selector_index,
    method_to_string, parse_method, size_badge, status_badge, status_color, time_badge, BodyType, BodyTypeItem, FormDataRow,
    FormDataValueType, FormDataValueTypeItem, HttpMethodItem, KeyValueRow, MethodColor,
    StatusColor,
};
use api_view::models::HttpMethod;

#[test]
fn parse_method_reads_names_and_defaults_to_get() {
    assert_eq!(parse_method("POST"), HttpMethod::POST);
    assert_eq!(parse_method("OPTIONS"), HttpMethod::OPTIONS);
    assert_eq!(parse_method("post"), HttpMethod::GET);
    assert_eq!(parse_method(""), HttpMethod::GET);
}

#[test]
fn method_names_round_trip() {
    for (i, m) in HttpMethod::all().into_iter().enumerate() {
        let name = method_to_string(m);
        assert_eq!(parse_method(&name), m);
        assert_eq!(method_index(&name), Some(i));
        assert_eq!(method_selector_index(m), Some(i));
    }
    assert_eq!(method_to_string(HttpMethod::DELETE), "DELETE");
    assert_eq!(method_index("TRACE"), None);
}

#[test]
fn method_colors() {
    assert_eq!(method_color("GET"), MethodColor::Green);
    assert_eq!(method_color("POST"), MethodColor::Blue);
    assert_eq!(method_color("PUT"), MethodColor::Orange);
    assert_eq!(method_color("DELETE"), MethodColor::Red);
    assert_eq!(method_color("PATCH"), MethodColor::Purple);
    assert_eq!(method_color("HEAD"), MethodColor::Gray);
    assert_eq!(method_color("OPTIONS"), MethodColor::Cyan);
    assert_eq!(method_color("x"), MethodColor::Gray);
    let item = HttpMethodItem::new("PATCH");
    assert_eq!(item.method, "PATCH");
    assert_eq!(item.color, MethodColor::Purple);
}

#[test]
fn status_colors() {
    assert_eq!(status_color(503), StatusColor::Red);
    assert_eq!(status_color(404), StatusColor::Orange);
    assert_eq!(status_color(301), StatusColor::Blue);
    assert_eq!(status_color(200), StatusColor::Green);
    assert_eq!(status_color(101), StatusColor::Gray);
}

#[test]
fn header_keys_are_title_cased() {
    assert_eq!(format_header_key("content-type"), "Content Type");
    assert_eq!(format_header_key("x_request-id"), "X Request Id");
    assert_eq!(format_header_key("ETag"), "ETag");
    assert_eq!(format_header_key(""), "");
    assert_eq!(format_header_key("-a"), " A");
    assert_eq!(format_header_key("ßx"), "SSx");
}

#[test]
fn rows_show_defaults_while_empty() {
    let row = KeyValueRow::with_defaults("User-Agent", "OneHub/1.0", 1u32, 2u32);
    assert_eq!(row.get_display_key(String::new()), "User-Agent");
    assert_eq!(row.get_display_value(String::new()), "OneHub/1.0");
    assert_eq!(row.get_display_key("k".to_string()), "k");
    let plain = KeyValueRow::new(3u32, 4u32);
    assert_eq!(plain.get_display_key(String::new()), "");
    assert!(plain.enabled);
    let f = FormDataRow::new(5u32, 6u32);
    assert_eq!(f.value_type, FormDataValueType::Text);
    assert!(f.file_path.is_none() && f.enabled);
}

#[test]
fn file_display_names() {
    assert_eq!(file_display_name(&None), "Select file...");
    assert_eq!(file_display_name(&Some("/tmp/a/b.txt".to_string())), "b.txt");
    assert_eq!(file_display_name(&Some("/".to_string())), "/");
}

#[test]
fn selector_items() {
    let b = BodyTypeItem::new(BodyType::FormData, "Form Data");
    assert_eq!(b.body_type, BodyType::FormData);
    assert_eq!(b.label, "Form Data");
    let f = FormDataValueTypeItem::new(FormDataValueType::File, "File");
    assert_eq!(f.value_type, FormDataValueType::File);
    assert_eq!(f.label, "File");
}

#[test]
fn response_badges() {
    assert_eq!(status_badge(404, "Not Found"), "404 Not Found");
    assert_eq!(status_badge(200, "OK"), "200 OK");
    assert_eq!(status_badge(0, ""), "0 ");
    assert_eq!(time_badge(0), "0ms");
    assert_eq!(time_badge(12), "12ms");
    assert_eq!(time_badge(u64::MAX), "18446744073709551615ms");
    assert_eq!(size_badge(""), "0 bytes");
    assert_eq!(size_badge("h\u{e9}llo"), "6 bytes");
}
