//! The pieces of the API tab that are not drawing: its enums and records,
//! the editor rows, and the text and method helpers the tab relies on.

use vstd::prelude::*;
use crate::models::{all_methods, HttpMethod};
use crate::text::{
    char_to_uppercase, decimal, file_name, path_file_name, push_char, str_eq, u64_to_text,
    uppercase_char,
};

verus! {

broadcast use vstd::string::group_string_axioms;

/// The request editor panel that is shown.
#[derive(Debug, Clone, Copy, PartialEq, Eq, Structural)]
pub enum ActivePanel {
    Params,
    Body,
    Headers,
    Auth,
}

/// How the body editor composes the body.
#[derive(Debug, Clone, Copy, PartialEq, Eq, Structural)]
pub enum BodyType {
    Json,
    FormData,
}

/// Whether a form field carries text or a file.
#[derive(Debug, Clone, Copy, PartialEq, Eq, Structural)]
pub enum FormDataValueType {
    Text,
    File,
}

/// The response panel that is shown.
#[derive(Debug, Clone, Copy, PartialEq, Eq, Structural)]
pub enum ResponsePanel {
    Body,
    Headers,
    Cookies,
}

/// A received response.
#[derive(Debug, Clone)]
pub struct ResponseStatus {
    pub status: u16,
    pub status_text: String,
    pub time_ms: u64,
    pub body: String,
    pub headers: Vec<(String, String)>,
    pub cookies: Vec<(String, String)>,
}

/// One line of the request history.
#[derive(Debug, Clone)]
pub struct HistoryItem {
    pub id: String,
    pub method: String,
    pub url: String,
    pub status: u16,
    pub timestamp: i64,
    pub response_time_ms: u64,
}

/// An entry of the form field type selector.
#[derive(Debug, Clone)]
pub struct FormDataValueTypeItem {
    pub value_type: FormDataValueType,
    pub label: String,
}

impl FormDataValueTypeItem {
    pub fn new(value_type: FormDataValueType, label: &str) -> (r: Self)
        ensures
            r.value_type == value_type,
            r.label@ == label@,
    {
        FormDataValueTypeItem { value_type, label: label.to_string() }
    }
}

/// An entry of the body type selector.
#[derive(Debug, Clone)]
pub struct BodyTypeItem {
    pub body_type: BodyType,
    pub label: String,
}

impl BodyTypeItem {
    pub fn new(body_type: BodyType, label: &str) -> (r: Self)
        ensures
            r.body_type == body_type,
            r.label@ == label@,
    {
        BodyTypeItem { body_type, label: label.to_string() }
    }
}

/// The colour in which a method name is drawn.
#[derive(Debug, Clone, Copy, PartialEq, Eq, Structural)]
pub enum MethodColor {
    Green,
    Blue,
    Orange,
    Red,
    Purple,
    Gray,
    Cyan,
}

/// The colour of a method name: GET green, POST blue, PUT orange, DELETE red,
/// PATCH purple, OPTIONS cyan, HEAD and anything else gray.
pub open spec fn method_color_of(method: Seq<char>) -> MethodColor {
    if method == "GET"@ {
        MethodColor::Green
    } else if method == "POST"@ {
        MethodColor::Blue
    } else if method == "PUT"@ {
        MethodColor::Orange
    } else if method == "DELETE"@ {
        MethodColor::Red
    } else if method == "PATCH"@ {
        MethodColor::Purple
    } else if method == "HEAD"@ {
        MethodColor::Gray
    } else if method == "OPTIONS"@ {
        MethodColor::Cyan
    } else {
        MethodColor::Gray
    }
}

pub fn method_color(method: &str) -> (r: MethodColor)
    ensures
        r == method_color_of(method@),
{
    if str_eq(method, "GET") {
        MethodColor::Green
    } else if str_eq(method, "POST") {
        MethodColor::Blue
    } else if str_eq(method, "PUT") {
        MethodColor::Orange
    } else if str_eq(method, "DELETE") {
        MethodColor::Red
    } else if str_eq(method, "PATCH") {
        MethodColor::Purple
    } else if str_eq(method, "HEAD") {
        MethodColor::Gray
    } else if str_eq(method, "OPTIONS") {
        MethodColor::Cyan
    } else {
        MethodColor::Gray
    }
}

/// An entry of the method selector: the method's name and its colour.
#[derive(Debug, Clone)]
pub struct HttpMethodItem {
    pub method: String,
    pub color: MethodColor,
}

impl HttpMethodItem {
    pub fn new(method: &str) -> (r: Self)
        ensures
            r.method@ == method@,
            r.color == method_color_of(method@),
    {
        let color = method_color(method);
        HttpMethodItem { method: method.to_string(), color }
    }
}

/// The colour of a response status badge.
#[derive(Debug, Clone, Copy, PartialEq, Eq, Structural)]
pub enum StatusColor {
    Red,
    Orange,
    Blue,
    Green,
    Gray,
}

/// The badge colour of a status: 5xx and above red, 4xx orange, 3xx blue,
/// 2xx green, below 200 gray.
pub open spec fn status_color_of(status: u16) -> StatusColor {
    if status >= 500 {
        StatusColor::Red
    } else if status >= 400 {
        StatusColor::Orange
    } else if status >= 300 {
        StatusColor::Blue
    } else if status >= 200 {
        StatusColor::Green
    } else {
        StatusColor::Gray
    }
}

pub fn status_color(status: u16) -> (r: StatusColor)
    ensures
        r == status_color_of(status),
{
    if status >= 500 {
        StatusColor::Red
    } else if status >= 400 {
        StatusColor::Orange
    } else if status >= 300 {
        StatusColor::Blue
    } else if status >= 200 {
        StatusColor::Green
    } else {
        StatusColor::Gray
    }
}

/// The text of the status badge: the status code, a space, the status text.
pub fn status_badge(status: u16, status_text: &str) -> (r: String)
    ensures
        r@ == decimal(status as nat) + seq![' '] + status_text@,
{
    proof {
        reveal_strlit(" ");
    }
    u64_to_text(status as u64).concat(" ").concat(status_text)
}

/// The text of the timing badge: the milliseconds the request took, then `ms`.
pub fn time_badge(time_ms: u64) -> (r: String)
    ensures
        r@ == decimal(time_ms as nat) + seq!['m', 's'],
{
    proof {
        reveal_strlit("ms");
    }
    u64_to_text(time_ms).concat("ms")
}

/// The text of the size badge: the length of the body in bytes (`str::len`),
/// then ` bytes`.
pub fn size_badge(body: &str) -> (r: String)
    ensures
        r@ == decimal(body.len() as nat) + seq![' ', 'b', 'y', 't', 'e', 's'],
{
    proof {
        reveal_strlit(" bytes");
    }
    u64_to_text(body.len() as u64).concat(" bytes")
}

/// The name of a method, in capitals.
pub open spec fn method_name(m: HttpMethod) -> Seq<char> {
    match m {
        HttpMethod::GET => "GET"@,
        HttpMethod::POST => "POST"@,
        HttpMethod::PUT => "PUT"@,
        HttpMethod::DELETE => "DELETE"@,
        HttpMethod::PATCH => "PATCH"@,
        HttpMethod::HEAD => "HEAD"@,
        HttpMethod::OPTIONS => "OPTIONS"@,
    }
}

/// The method a name stands for; an unknown name stands for GET.
pub open spec fn method_from_name(s: Seq<char>) -> HttpMethod {
    if s == "GET"@ {
        HttpMethod::GET
    } else if s == "POST"@ {
        HttpMethod::POST
    } else if s == "PUT"@ {
        HttpMethod::PUT
    } else if s == "DELETE"@ {
        HttpMethod::DELETE
    } else if s == "PATCH"@ {
        HttpMethod::PATCH
    } else if s == "HEAD"@ {
        HttpMethod::HEAD
    } else if s == "OPTIONS"@ {
        HttpMethod::OPTIONS
    } else {
        HttpMethod::GET
    }
}

/// The position of a method name in the method selector, if it is one.
pub open spec fn method_position(s: Seq<char>) -> Option<usize> {
    if s == "GET"@ {
        Some(0)
    } else if s == "POST"@ {
        Some(1)
    } else if s == "PUT"@ {
        Some(2)
    } else if s == "DELETE"@ {
        Some(3)
    } else if s == "PATCH"@ {
        Some(4)
    } else if s == "HEAD"@ {
        Some(5)
    } else if s == "OPTIONS"@ {
        Some(6)
    } else {
        None
    }
}

/// The method named by `method_str`; GET for any other text.
pub fn parse_method(method_str: &str) -> (r: HttpMethod)
    ensures
        r == method_from_name(method_str@),
{
    if str_eq(method_str, "GET") {
        HttpMethod::GET
    } else if str_eq(method_str, "POST") {
        HttpMethod::POST
    } else if str_eq(method_str, "PUT") {
        HttpMethod::PUT
    } else if str_eq(method_str, "DELETE") {
        HttpMethod::DELETE
    } else if str_eq(method_str, "PATCH") {
        HttpMethod::PATCH
    } else if str_eq(method_str, "HEAD") {
        HttpMethod::HEAD
    } else if str_eq(method_str, "OPTIONS") {
        HttpMethod::OPTIONS
    } else {
        HttpMethod::GET
    }
}

/// The name of `method`.
pub fn method_to_string(method: HttpMethod) -> (r: String)
    ensures
        r@ == method_name(method),
{
    match method {
        HttpMethod::GET => "GET".to_string(),
        HttpMethod::POST => "POST".to_string(),
        HttpMethod::PUT => "PUT".to_string(),
        HttpMethod::DELETE => "DELETE".to_string(),
        HttpMethod::PATCH => "PATCH".to_string(),
        HttpMethod::HEAD => "HEAD".to_string(),
        HttpMethod::OPTIONS => "OPTIONS".to_string(),
    }
}

/// The position of `method` among GET, POST, PUT, DELETE, PATCH, HEAD,
/// OPTIONS, if it is one of them.
pub fn method_index(method: &str) -> (r: Option<usize>)
    ensures
        r == method_position(method@),
{
    if str_eq(method, "GET") {
        Some(0)
    } else if str_eq(method, "POST") {
        Some(1)
    } else if str_eq(method, "PUT") {
        Some(2)
    } else if str_eq(method, "DELETE") {
        Some(3)
    } else if str_eq(method, "PATCH") {
        Some(4)
    } else if str_eq(method, "HEAD") {
        Some(5)
    } else if str_eq(method, "OPTIONS") {
        Some(6)
    } else {
        None
    }
}

/// The name of a method reads back as that method, and stands at the
/// method's own position in the method selector.
pub proof fn lemma_method_name_round_trip(m: HttpMethod)
    ensures
        method_from_name(method_name(m)) == m,
        method_position(method_name(m)) matches Some(i) && i < 7 && all_methods()[i as int] == m,
{
    reveal_strlit("GET");
    reveal_strlit("POST");
    reveal_strlit("PUT");
    reveal_strlit("DELETE");
    reveal_strlit("PATCH");
    reveal_strlit("HEAD");
    reveal_strlit("OPTIONS");
    let g = "GET"@;
    let po = "POST"@;
    let pu = "PUT"@;
    let d = "DELETE"@;
    let pa = "PATCH"@;
    let h = "HEAD"@;
    let o = "OPTIONS"@;
    assert(g.len() == 3 && pu.len() == 3 && g[0] != pu[0]);
    assert(po.len() == 4 && h.len() == 4 && po[0] != h[0]);
    assert(pa.len() == 5 && d.len() == 6 && o.len() == 7);
    assert(g != po && g != pu && g != d && g != pa && g != h && g != o);
    assert(po != pu && po != d && po != pa && po != h && po != o);
    assert(pu != d && pu != pa && pu != h && pu != o);
    assert(d != pa && d != h && d != o);
    assert(pa != h && pa != o);
    assert(h != o);
}

/// Distinct methods have distinct names.
pub proof fn lemma_method_names_distinct(m1: HttpMethod, m2: HttpMethod)
    ensures
        method_name(m1) == method_name(m2) ==> m1 == m2,
{
    lemma_method_name_round_trip(m1);
    lemma_method_name_round_trip(m2);
}

/// The position of `method` in the method selector, which shows GET, POST,
/// PUT, DELETE, PATCH, HEAD and OPTIONS in that order.
pub fn method_selector_index(method: HttpMethod) -> (r: Option<usize>)
    ensures
        r matches Some(i) && i < 7 && all_methods()[i as int] == method,
{
    proof {
        lemma_method_name_round_trip(method);
    }
    let name = method_to_string(method);
    method_index(name.as_str())
}

/// `-` and `_` separate the words of a header name.
pub open spec fn is_key_separator(c: char) -> bool {
    c == '-' || c == '_'
}

/// What character `i` of a header name becomes: a separator a space, the
/// first character of a word its upper-case form, any other itself.
pub open spec fn header_key_piece(s: Seq<char>, i: int) -> Seq<char> {
    if is_key_separator(s[i]) {
        seq![' ']
    } else if i == 0 || is_key_separator(s[i - 1]) {
        uppercase_char(s[i])
    } else {
        seq![s[i]]
    }
}

/// The display form of the first `n` characters of a header name.
pub open spec fn header_key_prefix(s: Seq<char>, n: int) -> Seq<char>
    decreases n,
{
    if n <= 0 {
        seq![]
    } else {
        header_key_prefix(s, n - 1) + header_key_piece(s, n - 1)
    }
}

/// The display form of a header name: separators become spaces and each
/// word starts in upper case.
pub open spec fn header_key_display(s: Seq<char>) -> Seq<char> {
    header_key_prefix(s, s.len() as int)
}

/// The display form of a header name (`content-type` becomes `Content Type`).
pub fn format_header_key(key: &str) -> (r: String)
    ensures
        r@ == header_key_display(key@),
{
    let mut result = String::new();
    let mut capitalize_next = true;
    let ghost mut n: int = 0;
    for c in it: key.chars()
        invariant
            it.seq() == key@,
            n == it.index(),
            0 <= n <= key@.len(),
            result@ == header_key_prefix(key@, n),
            capitalize_next == (n == 0 || is_key_separator(key@[n - 1])),
    {
        assert(key@[n] == c);
        if c == '-' || c == '_' {
            push_char(&mut result, ' ');
            capitalize_next = true;
        } else if capitalize_next {
            let upper = char_to_uppercase(c);
            result.append(upper.as_str());
            capitalize_next = false;
        } else {
            push_char(&mut result, c);
        }
        proof {
            n = n + 1;
        }
    }
    result
}

/// What a row shows: its own text, or when that is empty, its default.
pub open spec fn display_text(text: Seq<char>, default: Option<String>) -> Seq<char> {
    if text.len() == 0 {
        match default {
            Some(d) => d@,
            None => seq![],
        }
    } else {
        text
    }
}

/// The default text of a row, or the empty string.
fn default_or_empty(default: &Option<String>) -> (r: String)
    ensures
        r@ == display_text(seq![], *default),
{
    match default {
        Some(d) => d.clone(),
        None => String::new(),
    }
}

/// A row of the parameter or header editor. `H` is the handle of a text
/// input; the row's current key and value text live in those inputs.
pub struct KeyValueRow<H> {
    pub key_input: H,
    pub value_input: H,
    pub enabled: bool,
    pub default_key: Option<String>,
    pub default_value: Option<String>,
}

impl<H> KeyValueRow<H> {
    /// An enabled row without defaults.
    pub fn new(key_input: H, value_input: H) -> (r: Self)
        ensures
            r.key_input == key_input,
            r.value_input == value_input,
            r.enabled,
            r.default_key is None,
            r.default_value is None,
    {
        KeyValueRow { key_input, value_input, enabled: true, default_key: None, default_value: None }
    }

    /// An enabled row that shows `key` and `value` while its inputs are empty.
    pub fn with_defaults(key: &str, value: &str, key_input: H, value_input: H) -> (r: Self)
        ensures
            r.key_input == key_input,
            r.value_input == value_input,
            r.enabled,
            r.default_key matches Some(k) && k@ == key@,
            r.default_value matches Some(v) && v@ == value@,
    {
        KeyValueRow {
            key_input,
            value_input,
            enabled: true,
            default_key: Some(key.to_string()),
            default_value: Some(value.to_string()),
        }
    }

    /// The key the row shows, given the text of its key input.
    pub fn get_display_key(&self, key_text: String) -> (r: String)
        ensures
            r@ == display_text(key_text@, self.default_key),
    {
        if key_text.as_str().is_empty() {
            default_or_empty(&self.default_key)
        } else {
            key_text
        }
    }

    /// The value the row shows, given the text of its value input.
    pub fn get_display_value(&self, value_text: String) -> (r: String)
        ensures
            r@ == display_text(value_text@, self.default_value),
    {
        if value_text.as_str().is_empty() {
            default_or_empty(&self.default_value)
        } else {
            value_text
        }
    }
}

/// A row of the form body editor. `H` is the handle of a text input.
pub struct FormDataRow<H> {
    pub key_input: H,
    pub value_input: H,
    pub value_type: FormDataValueType,
    pub file_path: Option<String>,
    pub enabled: bool,
}

impl<H> FormDataRow<H> {
    /// An enabled text row without a file.
    pub fn new(key_input: H, value_input: H) -> (r: Self)
        ensures
            r.key_input == key_input,
            r.value_input == value_input,
            r.value_type == FormDataValueType::Text,
            r.file_path is None,
            r.enabled,
    {
        FormDataRow {
            key_input,
            value_input,
            value_type: FormDataValueType::Text,
            file_path: None,
            enabled: true,
        }
    }
}

/// What a file field shows: the file's name, the whole path when it has no
/// final component, or a prompt when no file is chosen.
pub open spec fn file_display_text(file_path: Option<String>) -> Seq<char> {
    match file_path {
        Some(p) => match path_file_name(p@) {
            Some(n) => n,
            None => p@,
        },
        None => "Select file..."@,
    }
}

pub fn file_display_name(file_path: &Option<String>) -> (r: String)
    ensures
        r@ == file_display_text(*file_path),
{
    match file_path {
        Some(p) => match file_name(p.as_str()) {
            Some(n) => n,
            None => p.clone(),
        },
        None => "Select file...".to_string(),
    }
}

} // verus!
