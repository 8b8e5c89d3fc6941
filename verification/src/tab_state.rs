//! The state of an API tab and every decision the tab makes on it: editing
//! the parameter, header and form rows, composing the request to send,
//! recording the response in the history, and saving to collections.
//!
//! `H` is the handle of a text input; the texts the user typed are read from
//! those inputs by the caller and handed in, row by row.

use vstd::prelude::*;
use crate::api_tab::{
    method_name, method_to_string, parse_method, method_from_name, ActivePanel, BodyType,
    FormDataRow, FormDataValueType, HistoryItem, KeyValueRow, ResponsePanel, ResponseStatus,
};
use crate::ids::{is_v4_uuid, new_uuid_string, now_timestamp, uuid_text};
use crate::models::{
    all_methods, ApiCollection, ApiRequest, FormField, HttpMethod, KeyValue, RequestBody,
};
use crate::text::{all_ascii, ascii_lower, is_blank, is_white_space, lowercase, str_eq, to_lowercase};

verus! {

broadcast use vstd::string::group_string_axioms;

/// The most entries the tab's own history list keeps after a response.
pub const TAB_HISTORY_LIMIT: usize = 50;

/// Everything an API tab holds apart from its widgets.
pub struct ApiTabState<H> {
    pub current_request: ApiRequest,
    pub response_status: Option<ResponseStatus>,
    pub is_loading: bool,
    pub active_panel: ActivePanel,
    pub active_response_tab: ResponsePanel,
    pub project_id: String,
    pub params: Vec<KeyValueRow<H>>,
    pub headers: Vec<KeyValueRow<H>>,
    pub body_type: BodyType,
    pub body_form_fields: Vec<FormDataRow<H>>,
    pub history: Vec<HistoryItem>,
    pub collections: Vec<ApiCollection>,
    pub pending_content_type_update: bool,
    pub collections_collapsed: bool,
    pub history_collapsed: bool,
}

/// A row without defaults on the given inputs, enabled.
pub open spec fn is_blank_row<H>(r: KeyValueRow<H>, inputs: (H, H)) -> bool {
    &&& r.key_input == inputs.0
    &&& r.value_input == inputs.1
    &&& r.enabled
    &&& r.default_key is None
    &&& r.default_value is None
}

/// A row on the given inputs, enabled, showing `key` and `value` by default.
pub open spec fn is_default_row<H>(
    r: KeyValueRow<H>,
    key: Seq<char>,
    value: Seq<char>,
    inputs: (H, H),
) -> bool {
    &&& r.key_input == inputs.0
    &&& r.value_input == inputs.1
    &&& r.enabled
    &&& r.default_key matches Some(k) && k@ == key
    &&& r.default_value matches Some(v) && v@ == value
}

/// A form row on the given inputs: enabled text field without a file.
pub open spec fn is_blank_form_row<H>(r: FormDataRow<H>, inputs: (H, H)) -> bool {
    &&& r.key_input == inputs.0
    &&& r.value_input == inputs.1
    &&& r.value_type == FormDataValueType::Text
    &&& r.file_path is None
    &&& r.enabled
}

/// The request a fresh tab edits: an enabled GET named "New Request", with
/// no URL, parameters, headers, body or authentication.
pub open spec fn is_new_request(r: ApiRequest) -> bool {
    &&& r.name@ == "New Request"@
    &&& r.method == HttpMethod::GET
    &&& r.url@.len() == 0
    &&& r.params@.len() == 0
    &&& r.headers@.len() == 0
    &&& r.body is Empty
    &&& r.auth is NoAuth
    &&& r.enabled
}

/// The parameter rows of a fresh tab: one blank row.
pub open spec fn initial_params<H>(params: Seq<KeyValueRow<H>>, inputs: (H, H)) -> bool {
    params.len() == 1 && is_blank_row(params[0], inputs)
}

/// The header rows of a fresh tab: `User-Agent: OneHub/1.0` by default,
/// then a blank row.
pub open spec fn initial_headers<H>(
    headers: Seq<KeyValueRow<H>>,
    ua_inputs: (H, H),
    blank_inputs: (H, H),
) -> bool {
    &&& headers.len() == 2
    &&& is_default_row(headers[0], "User-Agent"@, "OneHub/1.0"@, ua_inputs)
    &&& is_blank_row(headers[1], blank_inputs)
}

fn initial_header_rows<H>(ua_inputs: (H, H), header_inputs: (H, H)) -> (r: Vec<KeyValueRow<H>>)
    ensures
        initial_headers(r@, ua_inputs, header_inputs),
{
    let mut headers: Vec<KeyValueRow<H>> = Vec::new();
    headers.push(KeyValueRow::with_defaults("User-Agent", "OneHub/1.0", ua_inputs.0, ua_inputs.1));
    headers.push(KeyValueRow::new(header_inputs.0, header_inputs.1));
    headers
}

/// The texts read for row `i`, or two empty texts when none were read.
pub open spec fn text_at(texts: Seq<(String, String)>, i: int) -> (Seq<char>, Seq<char>) {
    if 0 <= i < texts.len() {
        (texts[i].0@, texts[i].1@)
    } else {
        (seq![], seq![])
    }
}

/// The texts of a list of key-value pairs, with their enabled flags.
pub open spec fn key_values_view(s: Seq<KeyValue>) -> Seq<(Seq<char>, Seq<char>, bool)> {
    s.map_values(|p: KeyValue| (p.key@, p.value@, p.enabled))
}

/// The pairs the first `n` rows give: each row whose key text is not empty,
/// with its texts and enabled flag.
pub open spec fn collected_pairs<H>(
    rows: Seq<KeyValueRow<H>>,
    texts: Seq<(String, String)>,
    n: int,
) -> Seq<(Seq<char>, Seq<char>, bool)>
    decreases n,
{
    if n <= 0 {
        seq![]
    } else {
        let r = collected_pairs(rows, texts, n - 1);
        let t = text_at(texts, n - 1);
        if t.0.len() > 0 {
            r.push((t.0, t.1, rows[n - 1].enabled))
        } else {
            r
        }
    }
}

/// The texts of a list of form fields, with their file flags.
pub open spec fn form_fields_view(s: Seq<FormField>) -> Seq<(Seq<char>, Seq<char>, bool)> {
    s.map_values(|f: FormField| (f.key@, f.value@, f.is_file))
}

/// The fields the first `n` form rows give: each enabled row whose key text
/// is not empty, with its chosen file path (or nothing) for a file row and
/// its value text for a text row.
pub open spec fn collected_fields<H>(
    rows: Seq<FormDataRow<H>>,
    texts: Seq<(String, String)>,
    n: int,
) -> Seq<(Seq<char>, Seq<char>, bool)>
    decreases n,
{
    if n <= 0 {
        seq![]
    } else {
        let r = collected_fields(rows, texts, n - 1);
        let row = rows[n - 1];
        let t = text_at(texts, n - 1);
        if !row.enabled || t.0.len() == 0 {
            r
        } else if row.value_type == FormDataValueType::File {
            let path = match row.file_path {
                Some(p) => p@,
                None => seq![],
            };
            r.push((t.0, path, true))
        } else {
            r.push((t.0, t.1, false))
        }
    }
}

/// The body a send composes. A JSON body is empty when its text is all white
/// space, else raw `application/json` text. A form body is empty when no row
/// gives a field, else those fields, all enabled.
pub open spec fn composed_body<H>(
    body: RequestBody,
    body_type: BodyType,
    body_text: Seq<char>,
    rows: Seq<FormDataRow<H>>,
    texts: Seq<(String, String)>,
) -> bool {
    match body_type {
        BodyType::Json => if forall|i: int| 0 <= i < body_text.len() ==> is_white_space(
            #[trigger] body_text[i],
        ) {
            body is Empty
        } else {
            body matches RequestBody::Raw { content_type, content } && content_type@
                == "application/json"@ && content@ == body_text
        },
        BodyType::FormData => {
            let expected = collected_fields(rows, texts, rows.len() as int);
            if expected.len() == 0 {
                body is Empty
            } else {
                body matches RequestBody::FormData { fields } && form_fields_view(fields@)
                    == expected && forall|i: int|
                    0 <= i < fields@.len() ==> (#[trigger] fields@[i]).enabled
            }
        },
    }
}

/// The method a saved request gets for a selected section: the first five
/// positions name GET, POST, PUT, DELETE and PATCH; anything else is GET.
pub open spec fn saved_method(section: Option<usize>) -> HttpMethod {
    match section {
        Some(1) => HttpMethod::POST,
        Some(2) => HttpMethod::PUT,
        Some(3) => HttpMethod::DELETE,
        Some(4) => HttpMethod::PATCH,
        _ => HttpMethod::GET,
    }
}

/// The method name a saved request's title starts with: the name at the
/// selected section's position, GET when there is none or it is past the
/// seventh.
pub open spec fn saved_method_name(section: Option<usize>) -> Seq<char> {
    match section {
        Some(1) => "POST"@,
        Some(2) => "PUT"@,
        Some(3) => "DELETE"@,
        Some(4) => "PATCH"@,
        Some(5) => "HEAD"@,
        Some(6) => "OPTIONS"@,
        _ => "GET"@,
    }
}

/// A request saved from the editor: titled `METHOD - url`, with the saved
/// method and the URL, and otherwise as new.
pub open spec fn is_saved_request(r: ApiRequest, section: Option<usize>, url: Seq<char>) -> bool {
    &&& r.name@ == saved_method_name(section) + " - "@ + url
    &&& r.method == saved_method(section)
    &&& r.url@ == url
    &&& r.params@.len() == 0
    &&& r.headers@.len() == 0
    &&& r.body is Empty
    &&& r.auth is NoAuth
    &&& r.enabled
}

/// The history line recorded for a response.
pub open spec fn history_line(
    id: String,
    method: String,
    url: String,
    status: u16,
    timestamp: i64,
    time_ms: u64,
) -> HistoryItem {
    HistoryItem { id, method, url, status, timestamp, response_time_ms: time_ms }
}

/// The tab's history after a response: the new line first, and the oldest
/// line dropped when that makes more than fifty.
pub open spec fn history_after_response(history: Seq<HistoryItem>, item: HistoryItem) -> Seq<
    HistoryItem,
> {
    let h = seq![item] + history;
    if h.len() > TAB_HISTORY_LIMIT {
        h.drop_last()
    } else {
        h
    }
}

/// A response recorded in a tab whose history holds at most fifty lines
/// leaves at most fifty, the new line first.
pub proof fn lemma_tab_history_bounded(history: Seq<HistoryItem>, item: HistoryItem)
    requires
        history.len() <= TAB_HISTORY_LIMIT,
    ensures
        history_after_response(history, item).len() <= TAB_HISTORY_LIMIT,
        history_after_response(history, item)[0] == item,
        history_after_response(history, item).len() >= 1,
{
}

/// `field` (key, value, whether a file) comes from one of the first `n` form
/// rows, and that row is enabled: its key is the row's non-empty key text,
/// and its value is the row's chosen file path (or nothing) for a file row,
/// the row's value text for a text row.
pub open spec fn from_enabled_row<H>(
    rows: Seq<FormDataRow<H>>,
    texts: Seq<(String, String)>,
    n: int,
    field: (Seq<char>, Seq<char>, bool),
) -> bool {
    exists|i: int|
        {
            &&& 0 <= i < n
            &&& rows[i].enabled
            &&& #[trigger] text_at(texts, i).0 == field.0
            &&& field.0.len() > 0
            &&& field.2 == (rows[i].value_type == FormDataValueType::File)
            &&& field.2 ==> field.1 == match rows[i].file_path {
                Some(p) => p@,
                None => seq![],
            }
            &&& !field.2 ==> field.1 == text_at(texts, i).1
        }
}

proof fn lemma_collected_fields_from_enabled<H>(
    rows: Seq<FormDataRow<H>>,
    texts: Seq<(String, String)>,
    n: int,
)
    requires
        0 <= n <= rows.len(),
    ensures
        collected_fields(rows, texts, n).len() <= rows.take(n).filter(
            |r: FormDataRow<H>| r.enabled,
        ).len(),
        forall|k: int|
            0 <= k < collected_fields(rows, texts, n).len() ==> from_enabled_row(
                rows,
                texts,
                n,
                #[trigger] collected_fields(rows, texts, n)[k],
            ),
    decreases n,
{
    let pred = |r: FormDataRow<H>| r.enabled;
    if n > 0 {
        lemma_collected_fields_from_enabled(rows, texts, n - 1);
        assert(rows.take(n) =~= rows.take(n - 1).push(rows[n - 1]));
        rows.take(n - 1).lemma_filter_push(rows[n - 1], pred);
        let prev = collected_fields(rows, texts, n - 1);
        let cur = collected_fields(rows, texts, n);
        assert forall|k: int| 0 <= k < cur.len() implies from_enabled_row(
            rows,
            texts,
            n,
            #[trigger] cur[k],
        ) by {
            if k < prev.len() {
                assert(cur[k] == prev[k]);
                assert(from_enabled_row(rows, texts, n - 1, prev[k]));
            } else {
                assert(text_at(texts, n - 1).0 == cur[k].0);
            }
        }
    }
}

/// A composed form-data body holds no more fields than there are enabled
/// form rows, and each field comes from an enabled row: its key is the row's
/// non-empty key text, its value the row's file path or value text. A
/// disabled row gives no field.
pub proof fn lemma_form_body_from_enabled_rows<H>(
    body: RequestBody,
    body_text: Seq<char>,
    rows: Seq<FormDataRow<H>>,
    texts: Seq<(String, String)>,
)
    requires
        composed_body(body, BodyType::FormData, body_text, rows, texts),
    ensures
        body matches RequestBody::FormData { fields } ==> ({
            &&& fields@.len() <= rows.filter(|r: FormDataRow<H>| r.enabled).len()
            &&& forall|k: int|
                0 <= k < fields@.len() ==> from_enabled_row(
                    rows,
                    texts,
                    rows.len() as int,
                    (#[trigger] fields@[k].key@, fields@[k].value@, fields@[k].is_file),
                )
        }),
{
    let n = rows.len() as int;
    lemma_collected_fields_from_enabled(rows, texts, n);
    assert(rows.take(n) =~= rows);
    if let RequestBody::FormData { fields } = body {
        let expected = collected_fields(rows, texts, n);
        assert forall|k: int| 0 <= k < fields@.len() implies from_enabled_row(
            rows,
            texts,
            n,
            (#[trigger] fields@[k].key@, fields@[k].value@, fields@[k].is_file),
        ) by {
            assert(form_fields_view(fields@)[k] == expected[k]);
            assert((fields@[k].key@, fields@[k].value@, fields@[k].is_file) == expected[k]);
        }
    }
}

/// A request saved with one of the first five method positions selected
/// carries the method listed at that position, and its title starts with
/// that method's name.
pub proof fn lemma_saved_request_method(r: ApiRequest, section: usize, url: Seq<char>)
    requires
        section < 5,
        is_saved_request(r, Some(section), url),
    ensures
        r.method == all_methods()[section as int],
        r.name@ == method_name(r.method) + " - "@ + url,
{
}

/// After a response, the tab's history starts with a line holding the given
/// id, method text, URL text, the response's status and time and the
/// timestamp, followed by the older lines, newest first, at most fifty in all.
pub proof fn lemma_response_line_first(
    history: Seq<HistoryItem>,
    id: String,
    method: String,
    url: String,
    status: u16,
    timestamp: i64,
    time_ms: u64,
)
    ensures
        ({
            let h = history_after_response(
                history,
                history_line(id, method, url, status, timestamp, time_ms),
            );
            &&& h[0].id@ == id@
            &&& h[0].method@ == method@
            &&& h[0].url@ == url@
            &&& h[0].status == status
            &&& h[0].timestamp == timestamp
            &&& h[0].response_time_ms == time_ms
            &&& history.len() < TAB_HISTORY_LIMIT ==> h.len() == history.len() + 1
            &&& history.len() == TAB_HISTORY_LIMIT ==> h.len() == TAB_HISTORY_LIMIT
            &&& forall|i: int| 1 <= i < h.len() ==> h[i] == history[i - 1]
        }),
{
}

/// The key a header row stands for, in lower case: its key text, or when
/// that is empty its default key, or none.
pub open spec fn effective_key(text: Seq<char>, default_key: Option<String>) -> Option<Seq<char>> {
    if lowercase(text).len() == 0 {
        match default_key {
            Some(d) => Some(lowercase(d@)),
            None => None,
        }
    } else {
        Some(lowercase(text))
    }
}

/// The key text read for row `i`, or the empty text.
pub open spec fn key_text_at(texts: Seq<String>, i: int) -> Seq<char> {
    if 0 <= i < texts.len() {
        texts[i]@
    } else {
        seq![]
    }
}

/// The last of the first `n` header rows whose key is `target`.
pub open spec fn last_header_with_key<H>(
    rows: Seq<KeyValueRow<H>>,
    texts: Seq<String>,
    target: Seq<char>,
    n: int,
) -> Option<int>
    decreases n,
{
    if n <= 0 {
        None
    } else if effective_key(key_text_at(texts, n - 1), rows[n - 1].default_key) == Some(target) {
        Some(n - 1)
    } else {
        last_header_with_key(rows, texts, target, n - 1)
    }
}

/// The `Content-Type` a body type implies.
pub open spec fn content_type_for(body_type: BodyType) -> Seq<char> {
    match body_type {
        BodyType::Json => "application/json"@,
        BodyType::FormData => "multipart/form-data"@,
    }
}

/// Row `n` is row `o` with its default value set to `value`.
pub open spec fn with_default_value<H>(n: KeyValueRow<H>, o: KeyValueRow<H>, value: Seq<char>) -> bool {
    &&& n.key_input == o.key_input
    &&& n.value_input == o.value_input
    &&& n.enabled == o.enabled
    &&& n.default_key == o.default_key
    &&& n.default_value matches Some(v) && v@ == value
}

/// How the header rows change when the body type changes. With both a
/// `content-type` row and a `user-agent` row, the last `content-type` row
/// gets the body's content type as default value. Without a `content-type`
/// row, a `Content-Type` row is inserted after the last `user-agent` row, or
/// first. Without a `user-agent` row, a `User-Agent: OneHub/1.0` row is
/// inserted before the `content-type` row, or first.
pub open spec fn content_type_updated<H>(
    old: Seq<KeyValueRow<H>>,
    new: Seq<KeyValueRow<H>>,
    texts: Seq<String>,
    body_type: BodyType,
    ct_inputs: (H, H),
    ua_inputs: (H, H),
) -> bool {
    let ct = last_header_with_key(old, texts, "content-type"@, old.len() as int);
    let ua = last_header_with_key(old, texts, "user-agent"@, old.len() as int);
    let value = content_type_for(body_type);
    match (ct, ua) {
        (Some(c), Some(_)) => {
            &&& new.len() == old.len()
            &&& with_default_value(new[c], old[c], value)
            &&& forall|i: int| 0 <= i < old.len() && i != c ==> new[i] == old[i]
        },
        (Some(c), None) => {
            &&& new.len() == old.len() + 1
            &&& forall|i: int| 0 <= i < c ==> new[i] == old[i]
            &&& is_default_row(new[c], "User-Agent"@, "OneHub/1.0"@, ua_inputs)
            &&& with_default_value(new[c + 1], old[c], value)
            &&& forall|i: int| c < i < old.len() ==> new[i + 1] == old[i]
        },
        (None, Some(u)) => {
            &&& new.len() == old.len() + 1
            &&& forall|i: int| 0 <= i <= u ==> new[i] == old[i]
            &&& is_default_row(new[u + 1], "Content-Type"@, value, ct_inputs)
            &&& forall|i: int| u < i < old.len() ==> new[i + 1] == old[i]
        },
        (None, None) => {
            &&& new.len() == old.len() + 2
            &&& is_default_row(new[0], "User-Agent"@, "OneHub/1.0"@, ua_inputs)
            &&& is_default_row(new[1], "Content-Type"@, value, ct_inputs)
            &&& forall|i: int| 0 <= i < old.len() ==> new[i + 2] == old[i]
        },
    }
}

/// The lower-case key of header row `i`.
spec fn header_key<H>(rows: Seq<KeyValueRow<H>>, texts: Seq<String>, i: int) -> Option<Seq<char>> {
    effective_key(key_text_at(texts, i), rows[i].default_key)
}

proof fn lemma_last_header_with_key<H>(
    rows: Seq<KeyValueRow<H>>,
    texts: Seq<String>,
    target: Seq<char>,
    n: int,
)
    requires
        0 <= n <= rows.len(),
    ensures
        match last_header_with_key(rows, texts, target, n) {
            Some(k) => {
                &&& 0 <= k < n
                &&& header_key(rows, texts, k) == Some(target)
                &&& forall|j: int| k < j < n ==> header_key(rows, texts, j) != Some(target)
            },
            None => forall|j: int| 0 <= j < n ==> header_key(rows, texts, j) != Some(target),
        },
    decreases n,
{
    if n > 0 {
        lemma_last_header_with_key(rows, texts, target, n - 1);
    }
}

proof fn lemma_last_header_is<H>(
    rows: Seq<KeyValueRow<H>>,
    texts: Seq<String>,
    target: Seq<char>,
    n: int,
    k: int,
)
    requires
        0 <= k < n <= rows.len(),
        header_key(rows, texts, k) == Some(target),
        forall|j: int| k < j < n ==> header_key(rows, texts, j) != Some(target),
    ensures
        last_header_with_key(rows, texts, target, n) == Some(k),
{
    lemma_last_header_with_key(rows, texts, target, n);
}

proof fn lemma_header_key_names()
    ensures
        lowercase(seq![]) == Seq::<char>::empty(),
        lowercase("Content-Type"@) == "content-type"@,
        lowercase("User-Agent"@) == "user-agent"@,
        "content-type"@ != "user-agent"@,
{
    reveal_strlit("Content-Type");
    reveal_strlit("content-type");
    reveal_strlit("User-Agent");
    reveal_strlit("user-agent");
    assert(Seq::<char>::empty().map_values(|c: char| ascii_lower(c)) =~= Seq::<char>::empty());
    assert(all_ascii("Content-Type"@));
    assert("Content-Type"@.map_values(|c: char| ascii_lower(c)) =~= "content-type"@);
    assert(all_ascii("User-Agent"@));
    assert("User-Agent"@.map_values(|c: char| ascii_lower(c)) =~= "user-agent"@);
    assert("content-type"@[0] != "user-agent"@[0]);
}

/// The key texts of the first `n` header rows, the empty text where none
/// was read.
pub open spec fn key_texts_view(texts: Seq<String>, n: int) -> Seq<Seq<char>> {
    Seq::new(n as nat, |i: int| key_text_at(texts, i))
}

/// The key texts of the header rows after [`content_type_updated`] on `old`
/// with key texts `texts`: each old row keeps its text, and the rows put in
/// have empty key inputs.
pub open spec fn key_texts_after_update<H>(old: Seq<KeyValueRow<H>>, texts: Seq<String>) -> Seq<
    Seq<char>,
> {
    let t = key_texts_view(texts, old.len() as int);
    let ct = last_header_with_key(old, texts, "content-type"@, old.len() as int);
    let ua = last_header_with_key(old, texts, "user-agent"@, old.len() as int);
    match (ct, ua) {
        (Some(_), Some(_)) => t,
        (Some(c), None) => t.insert(c, seq![]),
        (None, Some(u)) => t.insert(u + 1, seq![]),
        (None, None) => seq![seq![], seq![]] + t,
    }
}

/// Two header rows on the same inputs, equally enabled, with the same
/// default key and the same default value text.
pub open spec fn same_row<H>(a: KeyValueRow<H>, b: KeyValueRow<H>) -> bool {
    &&& a.key_input == b.key_input
    &&& a.value_input == b.value_input
    &&& a.enabled == b.enabled
    &&& a.default_key == b.default_key
    &&& match (a.default_value, b.default_value) {
        (Some(x), Some(y)) => x@ == y@,
        (None, None) => true,
        _ => false,
    }
}

/// Where the last `content-type` and `user-agent` rows stand after an update
/// of `old`, and that the `content-type` row already shows the body's
/// content type.
proof fn lemma_updated_header_keys<H>(
    old: Seq<KeyValueRow<H>>,
    mid: Seq<KeyValueRow<H>>,
    texts: Seq<String>,
    mid_texts: Seq<String>,
    body_type: BodyType,
    ct_inputs: (H, H),
    ua_inputs: (H, H),
) -> (r: (int, int))
    requires
        content_type_updated(old, mid, texts, body_type, ct_inputs, ua_inputs),
        forall|i: int|
            0 <= i < mid.len() ==> key_text_at(mid_texts, i) == #[trigger] key_texts_after_update(
                old,
                texts,
            )[i],
    ensures
        0 <= r.0 < mid.len(),
        0 <= r.1 < mid.len(),
        last_header_with_key(mid, mid_texts, "content-type"@, mid.len() as int) == Some(r.0),
        last_header_with_key(mid, mid_texts, "user-agent"@, mid.len() as int) == Some(r.1),
        mid[r.0].default_value matches Some(v) && v@ == content_type_for(body_type),
{
    lemma_header_key_names();
    let ctk = "content-type"@;
    let uak = "user-agent"@;
    let n = old.len() as int;
    let m = mid.len() as int;
    let t = key_texts_view(texts, n);
    let after = key_texts_after_update(old, texts);
    let ct = last_header_with_key(old, texts, ctk, n);
    let ua = last_header_with_key(old, texts, uak, n);
    lemma_last_header_with_key(old, texts, ctk, n);
    lemma_last_header_with_key(old, texts, uak, n);
    match (ct, ua) {
        (Some(c), Some(u)) => {
            assert forall|j: int| 0 <= j < m implies #[trigger] header_key(mid, mid_texts, j)
                == header_key(old, texts, j) by {
                assert(after[j] == t[j]);
            }
            lemma_last_header_is(mid, mid_texts, ctk, m, c);
            lemma_last_header_is(mid, mid_texts, uak, m, u);
            (c, u)
        },
        (Some(c), None) => {
            assert forall|j: int| 0 <= j < m && j != c implies #[trigger] header_key(
                mid,
                mid_texts,
                j,
            ) == if j < c {
                header_key(old, texts, j)
            } else {
                header_key(old, texts, j - 1)
            } by {
                if j < c {
                    assert(after[j] == t[j]);
                } else {
                    assert(after[j] == t[j - 1]);
                }
            }
            assert(header_key(mid, mid_texts, c) == Some(uak)) by {
                assert(after[c] == Seq::<char>::empty());
            }
            lemma_last_header_is(mid, mid_texts, ctk, m, c + 1);
            lemma_last_header_is(mid, mid_texts, uak, m, c);
            (c + 1, c)
        },
        (None, Some(u)) => {
            assert forall|j: int| 0 <= j < m && j != u + 1 implies #[trigger] header_key(
                mid,
                mid_texts,
                j,
            ) == if j <= u {
                header_key(old, texts, j)
            } else {
                header_key(old, texts, j - 1)
            } by {
                if j <= u {
                    assert(after[j] == t[j]);
                } else {
                    assert(after[j] == t[j - 1]);
                }
            }
            assert(header_key(mid, mid_texts, u + 1) == Some(ctk)) by {
                assert(after[u + 1] == Seq::<char>::empty());
            }
            lemma_last_header_is(mid, mid_texts, ctk, m, u + 1);
            lemma_last_header_is(mid, mid_texts, uak, m, u);
            (u + 1, u)
        },
        (None, None) => {
            assert forall|j: int| 2 <= j < m implies #[trigger] header_key(mid, mid_texts, j)
                == header_key(old, texts, j - 2) by {
                assert(after[j] == t[j - 2]);
            }
            assert(header_key(mid, mid_texts, 0) == Some(uak)) by {
                assert(after[0] == Seq::<char>::empty());
            }
            assert(header_key(mid, mid_texts, 1) == Some(ctk)) by {
                assert(after[1] == Seq::<char>::empty());
            }
            lemma_last_header_is(mid, mid_texts, ctk, m, 1);
            lemma_last_header_is(mid, mid_texts, uak, m, 0);
            (1, 0)
        },
    }
}

/// Updating the header rows a second time, with the same body type and the
/// same key texts (the rows the first update put in having empty key
/// inputs), leaves the rows as the first update left them.
pub proof fn lemma_content_type_update_settles<H>(
    old: Seq<KeyValueRow<H>>,
    mid: Seq<KeyValueRow<H>>,
    new: Seq<KeyValueRow<H>>,
    texts: Seq<String>,
    mid_texts: Seq<String>,
    body_type: BodyType,
    ct_inputs: (H, H),
    ua_inputs: (H, H),
    second_ct_inputs: (H, H),
    second_ua_inputs: (H, H),
)
    requires
        content_type_updated(old, mid, texts, body_type, ct_inputs, ua_inputs),
        key_texts_view(mid_texts, mid.len() as int) == key_texts_after_update(old, texts),
        content_type_updated(mid, new, mid_texts, body_type, second_ct_inputs, second_ua_inputs),
    ensures
        new.len() == mid.len(),
        forall|i: int| 0 <= i < mid.len() ==> same_row(#[trigger] new[i], mid[i]),
{
    let m = mid.len() as int;
    assert forall|i: int| 0 <= i < m implies key_text_at(mid_texts, i)
        == #[trigger] key_texts_after_update(old, texts)[i] by {
        assert(key_texts_view(mid_texts, m)[i] == key_text_at(mid_texts, i));
    }
    let (c, u) = lemma_updated_header_keys(
        old,
        mid,
        texts,
        mid_texts,
        body_type,
        ct_inputs,
        ua_inputs,
    );
    assert(same_row(new[c], mid[c]));
}

fn text_pair(texts: &Vec<(String, String)>, i: usize) -> (r: (String, String))
    ensures
        (r.0@, r.1@) == text_at(texts@, i as int),
{
    if i < texts.len() {
        (texts[i].0.clone(), texts[i].1.clone())
    } else {
        (String::new(), String::new())
    }
}

fn collect_pairs<H>(rows: &Vec<KeyValueRow<H>>, texts: &Vec<(String, String)>) -> (r: Vec<
    KeyValue,
>)
    ensures
        key_values_view(r@) == collected_pairs(rows@, texts@, rows@.len() as int),
        forall|i: int| 0 <= i < r@.len() ==> (#[trigger] r@[i]).description is None,
{
    let mut out: Vec<KeyValue> = Vec::new();
    let n = rows.len();
    let mut i: usize = 0;
    while i < n
        invariant
            n == rows@.len(),
            i <= n,
            key_values_view(out@) == collected_pairs(rows@, texts@, i as int),
            forall|j: int| 0 <= j < out@.len() ==> (#[trigger] out@[j]).description is None,
        decreases n - i,
    {
        let (key, value) = text_pair(texts, i);
        if !key.as_str().is_empty() {
            let ghost before = out@;
            out.push(KeyValue { key, value, enabled: rows[i].enabled, description: None });
            assert(key_values_view(out@) =~= key_values_view(before).push(
                (out@.last().key@, out@.last().value@, out@.last().enabled),
            ));
        }
        i = i + 1;
    }
    out
}

fn collect_fields<H>(rows: &Vec<FormDataRow<H>>, texts: &Vec<(String, String)>) -> (r: Vec<
    FormField,
>)
    ensures
        form_fields_view(r@) == collected_fields(rows@, texts@, rows@.len() as int),
        forall|i: int| 0 <= i < r@.len() ==> (#[trigger] r@[i]).enabled,
{
    let mut out: Vec<FormField> = Vec::new();
    let n = rows.len();
    let mut i: usize = 0;
    while i < n
        invariant
            n == rows@.len(),
            i <= n,
            form_fields_view(out@) == collected_fields(rows@, texts@, i as int),
            forall|j: int| 0 <= j < out@.len() ==> (#[trigger] out@[j]).enabled,
        decreases n - i,
    {
        let row = &rows[i];
        if row.enabled {
            let (key, value) = text_pair(texts, i);
            if !key.as_str().is_empty() {
                let ghost before = out@;
                let field = if row.value_type == FormDataValueType::File {
                    let path = match &row.file_path {
                        Some(p) => p.clone(),
                        None => String::new(),
                    };
                    FormField { key, value: path, is_file: true, enabled: true }
                } else {
                    FormField { key, value, is_file: false, enabled: true }
                };
                out.push(field);
                assert(form_fields_view(out@) =~= form_fields_view(before).push(
                    (field.key@, field.value@, field.is_file),
                ));
            }
        }
        i = i + 1;
    }
    out
}

impl<H> ApiTabState<H> {
    /// A fresh tab of the given project over the loaded history and
    /// collections: a new request, no response, the Params panel and the
    /// response body shown, one blank parameter row, the `User-Agent` header
    /// row and a blank one, a JSON body and one blank form row.
    pub fn with_project_id(
        project_id: String,
        history: Vec<HistoryItem>,
        collections: Vec<ApiCollection>,
        param_inputs: (H, H),
        ua_inputs: (H, H),
        header_inputs: (H, H),
        form_inputs: (H, H),
    ) -> (r: Self)
        ensures
            is_new_request(r.current_request),
            r.response_status is None,
            !r.is_loading,
            r.active_panel == ActivePanel::Params,
            r.active_response_tab == ResponsePanel::Body,
            r.project_id == project_id,
            initial_params(r.params@, param_inputs),
            initial_headers(r.headers@, ua_inputs, header_inputs),
            r.body_type == BodyType::Json,
            r.body_form_fields@.len() == 1,
            is_blank_form_row(r.body_form_fields@[0], form_inputs),
            r.history == history,
            r.collections == collections,
            !r.pending_content_type_update,
            !r.collections_collapsed,
            !r.history_collapsed,
    {
        let mut params: Vec<KeyValueRow<H>> = Vec::new();
        params.push(KeyValueRow::new(param_inputs.0, param_inputs.1));
        let headers = initial_header_rows(ua_inputs, header_inputs);
        let mut body_form_fields: Vec<FormDataRow<H>> = Vec::new();
        body_form_fields.push(FormDataRow::new(form_inputs.0, form_inputs.1));
        ApiTabState {
            current_request: ApiRequest::new("New Request".to_string()),
            response_status: None,
            is_loading: false,
            active_panel: ActivePanel::Params,
            active_response_tab: ResponsePanel::Body,
            project_id,
            params,
            headers,
            body_type: BodyType::Json,
            body_form_fields,
            history,
            collections,
            pending_content_type_update: false,
            collections_collapsed: false,
            history_collapsed: false,
        }
    }

    /// A fresh tab of the project "default".
    pub fn new(
        history: Vec<HistoryItem>,
        collections: Vec<ApiCollection>,
        param_inputs: (H, H),
        ua_inputs: (H, H),
        header_inputs: (H, H),
        form_inputs: (H, H),
    ) -> (r: Self)
        ensures
            is_new_request(r.current_request),
            r.response_status is None,
            !r.is_loading,
            r.active_panel == ActivePanel::Params,
            r.active_response_tab == ResponsePanel::Body,
            r.project_id@ == "default"@,
            initial_params(r.params@, param_inputs),
            initial_headers(r.headers@, ua_inputs, header_inputs),
            r.body_type == BodyType::Json,
            r.body_form_fields@.len() == 1,
            is_blank_form_row(r.body_form_fields@[0], form_inputs),
            r.history == history,
            r.collections == collections,
            !r.pending_content_type_update,
            !r.collections_collapsed,
            !r.history_collapsed,
    {
        Self::with_project_id(
            "default".to_string(),
            history,
            collections,
            param_inputs,
            ua_inputs,
            header_inputs,
            form_inputs,
        )
    }

    /// Adds a blank parameter row at the end.
    pub fn add_param(&mut self, key_input: H, value_input: H)
        ensures
            final(self).params@.len() == old(self).params@.len() + 1,
            final(self).params@.drop_last() == old(self).params@,
            is_blank_row(final(self).params@.last(), (key_input, value_input)),
            *final(self) == (ApiTabState { params: final(self).params, ..*old(self) }),
    {
        self.params.push(KeyValueRow::new(key_input, value_input));
        assert(self.params@.drop_last() =~= old(self).params@);
    }

    /// Adds a blank header row at the end.
    pub fn add_header(&mut self, key_input: H, value_input: H)
        ensures
            final(self).headers@.len() == old(self).headers@.len() + 1,
            final(self).headers@.drop_last() == old(self).headers@,
            is_blank_row(final(self).headers@.last(), (key_input, value_input)),
            *final(self) == (ApiTabState { headers: final(self).headers, ..*old(self) }),
    {
        self.headers.push(KeyValueRow::new(key_input, value_input));
        assert(self.headers@.drop_last() =~= old(self).headers@);
    }

    /// Adds a blank form row at the end.
    pub fn add_form_field(&mut self, key_input: H, value_input: H)
        ensures
            final(self).body_form_fields@.len() == old(self).body_form_fields@.len() + 1,
            final(self).body_form_fields@.drop_last() == old(self).body_form_fields@,
            is_blank_form_row(final(self).body_form_fields@.last(), (key_input, value_input)),
            *final(self) == (ApiTabState {
                body_form_fields: final(self).body_form_fields,
                ..*old(self)
            }),
    {
        self.body_form_fields.push(FormDataRow::new(key_input, value_input));
        assert(self.body_form_fields@.drop_last() =~= old(self).body_form_fields@);
    }

    /// Removes parameter row `index` if there is one; returns whether it did.
    pub fn delete_param(&mut self, index: usize) -> (r: bool)
        ensures
            r == (index < old(self).params@.len()),
            r ==> final(self).params@ == old(self).params@.remove(index as int),
            !r ==> final(self).params@ == old(self).params@,
            *final(self) == (ApiTabState { params: final(self).params, ..*old(self) }),
    {
        if index < self.params.len() {
            self.params.remove(index);
            true
        } else {
            false
        }
    }

    /// Removes header row `index` if there is one; returns whether it did.
    pub fn delete_header(&mut self, index: usize) -> (r: bool)
        ensures
            r == (index < old(self).headers@.len()),
            r ==> final(self).headers@ == old(self).headers@.remove(index as int),
            !r ==> final(self).headers@ == old(self).headers@,
            *final(self) == (ApiTabState { headers: final(self).headers, ..*old(self) }),
    {
        if index < self.headers.len() {
            self.headers.remove(index);
            true
        } else {
            false
        }
    }

    /// Removes form row `index` if there is one; returns whether it did.
    pub fn delete_form_field(&mut self, index: usize) -> (r: bool)
        ensures
            r == (index < old(self).body_form_fields@.len()),
            r ==> final(self).body_form_fields@ == old(self).body_form_fields@.remove(
                index as int,
            ),
            !r ==> final(self).body_form_fields@ == old(self).body_form_fields@,
            *final(self) == (ApiTabState {
                body_form_fields: final(self).body_form_fields,
                ..*old(self)
            }),
    {
        if index < self.body_form_fields.len() {
            self.body_form_fields.remove(index);
            true
        } else {
            false
        }
    }

    /// Whether form row `index` exists (a file may be chosen for it).
    pub fn has_form_field(&self, index: usize) -> (r: bool)
        ensures
            r == (index < self.body_form_fields@.len()),
    {
        index < self.body_form_fields.len()
    }

    /// Flips whether parameter row `index` is enabled, if there is one;
    /// returns whether there was.
    pub fn toggle_param_enabled(&mut self, index: usize) -> (r: bool)
        ensures
            r == (index < old(self).params@.len()),
            r ==> final(self).params@ == old(self).params@.update(
                index as int,
                (KeyValueRow { enabled: !old(self).params@[index as int].enabled, ..old(self).params@[index as int] }),
            ),
            !r ==> final(self).params@ == old(self).params@,
            *final(self) == (ApiTabState { params: final(self).params, ..*old(self) }),
    {
        if index < self.params.len() {
            let mut row = self.params.remove(index);
            row.enabled = !row.enabled;
            self.params.insert(index, row);
            assert(self.params@ =~= old(self).params@.update(index as int, row));
            true
        } else {
            false
        }
    }

    /// Flips whether header row `index` is enabled, if there is one; returns
    /// whether there was.
    pub fn toggle_header_enabled(&mut self, index: usize) -> (r: bool)
        ensures
            r == (index < old(self).headers@.len()),
            r ==> final(self).headers@ == old(self).headers@.update(
                index as int,
                (KeyValueRow { enabled: !old(self).headers@[index as int].enabled, ..old(self).headers@[index as int] }),
            ),
            !r ==> final(self).headers@ == old(self).headers@,
            *final(self) == (ApiTabState { headers: final(self).headers, ..*old(self) }),
    {
        if index < self.headers.len() {
            let mut row = self.headers.remove(index);
            row.enabled = !row.enabled;
            self.headers.insert(index, row);
            assert(self.headers@ =~= old(self).headers@.update(index as int, row));
            true
        } else {
            false
        }
    }

    /// Flips whether form row `index` is enabled, if there is one; returns
    /// whether there was.
    pub fn toggle_form_field_enabled(&mut self, index: usize) -> (r: bool)
        ensures
            r == (index < old(self).body_form_fields@.len()),
            r ==> final(self).body_form_fields@ == old(self).body_form_fields@.update(
                index as int,
                (FormDataRow {
                    enabled: !old(self).body_form_fields@[index as int].enabled,
                    ..old(self).body_form_fields@[index as int]
                }),
            ),
            !r ==> final(self).body_form_fields@ == old(self).body_form_fields@,
            *final(self) == (ApiTabState {
                body_form_fields: final(self).body_form_fields,
                ..*old(self)
            }),
    {
        if index < self.body_form_fields.len() {
            let mut row = self.body_form_fields.remove(index);
            row.enabled = !row.enabled;
            self.body_form_fields.insert(index, row);
            assert(self.body_form_fields@ =~= old(self).body_form_fields@.update(index as int, row));
            true
        } else {
            false
        }
    }

    /// Switches form row `index` between text and file, forgetting its file,
    /// if there is one; returns whether there was.
    pub fn toggle_form_field_type(&mut self, index: usize) -> (r: bool)
        ensures
            r == (index < old(self).body_form_fields@.len()),
            r ==> final(self).body_form_fields@ == old(self).body_form_fields@.update(
                index as int,
                (FormDataRow {
                    value_type: match old(self).body_form_fields@[index as int].value_type {
                        FormDataValueType::Text => FormDataValueType::File,
                        FormDataValueType::File => FormDataValueType::Text,
                    },
                    file_path: None,
                    ..old(self).body_form_fields@[index as int]
                }),
            ),
            !r ==> final(self).body_form_fields@ == old(self).body_form_fields@,
            *final(self) == (ApiTabState {
                body_form_fields: final(self).body_form_fields,
                ..*old(self)
            }),
    {
        if index < self.body_form_fields.len() {
            let mut row = self.body_form_fields.remove(index);
            row.value_type = match row.value_type {
                FormDataValueType::Text => FormDataValueType::File,
                FormDataValueType::File => FormDataValueType::Text,
            };
            row.file_path = None;
            self.body_form_fields.insert(index, row);
            assert(self.body_form_fields@ =~= old(self).body_form_fields@.update(index as int, row));
            true
        } else {
            false
        }
    }

    /// Records the file chosen for form row `index`, if there still is one;
    /// returns whether there was.
    pub fn set_form_field_file(&mut self, index: usize, path: String) -> (r: bool)
        ensures
            r == (index < old(self).body_form_fields@.len()),
            r ==> final(self).body_form_fields@ == old(self).body_form_fields@.update(
                index as int,
                (FormDataRow { file_path: Some(path), ..old(self).body_form_fields@[index as int] }),
            ),
            !r ==> final(self).body_form_fields@ == old(self).body_form_fields@,
            *final(self) == (ApiTabState {
                body_form_fields: final(self).body_form_fields,
                ..*old(self)
            }),
    {
        if index < self.body_form_fields.len() {
            let mut row = self.body_form_fields.remove(index);
            row.file_path = Some(path);
            self.body_form_fields.insert(index, row);
            assert(self.body_form_fields@ =~= old(self).body_form_fields@.update(index as int, row));
            true
        } else {
            false
        }
    }

    /// Shows the given request panel.
    pub fn select_panel(&mut self, panel: ActivePanel)
        ensures
            *final(self) == (ApiTabState { active_panel: panel, ..*old(self) }),
    {
        self.active_panel = panel;
    }

    /// Shows the given response panel.
    pub fn select_response_tab(&mut self, panel: ResponsePanel)
        ensures
            *final(self) == (ApiTabState { active_response_tab: panel, ..*old(self) }),
    {
        self.active_response_tab = panel;
    }

    /// Folds or unfolds the collections list.
    pub fn toggle_collections(&mut self)
        ensures
            *final(self) == (ApiTabState {
                collections_collapsed: !old(self).collections_collapsed,
                ..*old(self)
            }),
    {
        self.collections_collapsed = !self.collections_collapsed;
    }

    /// Folds or unfolds the history list.
    pub fn toggle_history(&mut self)
        ensures
            *final(self) == (ApiTabState {
                history_collapsed: !old(self).history_collapsed,
                ..*old(self)
            }),
    {
        self.history_collapsed = !self.history_collapsed;
    }

    /// Takes the text of the URL input as the request's URL.
    pub fn set_url(&mut self, url: String)
        ensures
            *final(self) == (ApiTabState {
                current_request: ApiRequest { url, ..old(self).current_request },
                ..*old(self)
            }),
    {
        self.current_request.url = url;
    }

    /// Takes the method chosen in the method selector.
    pub fn select_method(&mut self, value: &str)
        ensures
            *final(self) == (ApiTabState {
                current_request: ApiRequest {
                    method: method_from_name(value@),
                    ..old(self).current_request
                },
                ..*old(self)
            }),
    {
        self.current_request.method = parse_method(value);
    }

    /// Takes the body type chosen in the body type selector; the header rows
    /// are brought in line with it when the body panel is next drawn.
    pub fn select_body_type(&mut self, body_type: BodyType)
        ensures
            *final(self) == (ApiTabState {
                body_type,
                pending_content_type_update: true,
                ..*old(self)
            }),
    {
        self.body_type = body_type;
        self.pending_content_type_update = true;
    }

    /// Whether the header rows are to be brought in line with the body type;
    /// clears the request.
    pub fn take_pending_content_type_update(&mut self) -> (r: bool)
        ensures
            r == old(self).pending_content_type_update,
            *final(self) == (ApiTabState { pending_content_type_update: false, ..*old(self) }),
    {
        let r = self.pending_content_type_update;
        self.pending_content_type_update = false;
        r
    }

    /// Starts the request over: a blank parameter row, the `User-Agent` and
    /// a blank header row, a new request, no response, the Params panel.
    pub fn reset_request(&mut self, param_inputs: (H, H), ua_inputs: (H, H), header_inputs: (H, H))
        ensures
            initial_params(final(self).params@, param_inputs),
            initial_headers(final(self).headers@, ua_inputs, header_inputs),
            is_new_request(final(self).current_request),
            *final(self) == (ApiTabState {
                params: final(self).params,
                headers: final(self).headers,
                current_request: final(self).current_request,
                response_status: None,
                active_panel: ActivePanel::Params,
                ..*old(self)
            }),
    {
        let mut params: Vec<KeyValueRow<H>> = Vec::new();
        params.push(KeyValueRow::new(param_inputs.0, param_inputs.1));
        self.params = params;
        self.headers = initial_header_rows(ua_inputs, header_inputs);
        self.current_request = ApiRequest::new("New Request".to_string());
        self.response_status = None;
        self.active_panel = ActivePanel::Params;
    }

    /// Saves the URL in the editor as a request of the first collection,
    /// creating "My Collection" when there is none. `section` is the section
    /// of the method selector's selection, if any.
    pub fn save_to_collection(&mut self, url: String, section: Option<usize>)
        ensures
            old(self).collections@.len() == 0 ==> {
                &&& final(self).collections@.len() == 1
                &&& final(self).collections@[0].name@ == "My Collection"@
                &&& final(self).collections@[0].folders@.len() == 0
                &&& final(self).collections@[0].requests@.len() == 1
                &&& is_saved_request(final(self).collections@[0].requests@[0], section, url@)
            },
            old(self).collections@.len() > 0 ==> {
                let first = old(self).collections@[0];
                let saved = final(self).collections@[0];
                &&& final(self).collections@.len() == old(self).collections@.len()
                &&& forall|i: int|
                    1 <= i < old(self).collections@.len() ==> final(self).collections@[i]
                        == old(self).collections@[i]
                &&& saved.id == first.id
                &&& saved.name == first.name
                &&& saved.folders == first.folders
                &&& saved.requests@.len() == first.requests@.len() + 1
                &&& saved.requests@.drop_last() == first.requests@
                &&& is_saved_request(saved.requests@.last(), section, url@)
            },
            *final(self) == (ApiTabState { collections: final(self).collections, ..*old(self) }),
    {
        let method_str = match section {
            Some(0) => "GET",
            Some(1) => "POST",
            Some(2) => "PUT",
            Some(3) => "DELETE",
            Some(4) => "PATCH",
            Some(5) => "HEAD",
            Some(6) => "OPTIONS",
            _ => "GET",
        };
        let mut name = method_str.to_string();
        name.append(" - ");
        name.append(url.as_str());
        let mut request = ApiRequest::new(name);
        request.method = if str_eq(method_str, "GET") {
            HttpMethod::GET
        } else if str_eq(method_str, "POST") {
            HttpMethod::POST
        } else if str_eq(method_str, "PUT") {
            HttpMethod::PUT
        } else if str_eq(method_str, "DELETE") {
            HttpMethod::DELETE
        } else if str_eq(method_str, "PATCH") {
            HttpMethod::PATCH
        } else {
            HttpMethod::GET
        };
        proof {
            reveal_strlit("GET");
            reveal_strlit("POST");
            reveal_strlit("PUT");
            reveal_strlit("DELETE");
            reveal_strlit("PATCH");
            reveal_strlit("HEAD");
            reveal_strlit("OPTIONS");
            assert("HEAD"@[0] != "GET"@[0] && "HEAD"@[0] != "POST"@[0]);
            assert("OPTIONS"@.len() != "GET"@.len() && "OPTIONS"@.len() != "POST"@.len());
            assert("OPTIONS"@.len() != "PUT"@.len() && "OPTIONS"@.len() != "DELETE"@.len());
            assert("OPTIONS"@.len() != "PATCH"@.len() && "HEAD"@.len() != "PUT"@.len());
            assert("HEAD"@.len() != "DELETE"@.len() && "HEAD"@.len() != "PATCH"@.len());
            assert("POST"@[1] != "PUT"@[1] && "GET"@[0] != "PUT"@[0]);
        }
        request.url = url;
        if self.collections.len() == 0 {
            self.collections.push(ApiCollection::new("My Collection".to_string()));
        }
        let mut first = self.collections.remove(0);
        let ghost first_before = first;
        first.requests.push(request);
        assert(first.requests@.drop_last() =~= first_before.requests@);
        self.collections.insert(0, first);
    }

    /// Adds an empty collection named "New Collection" at the end.
    pub fn new_collection(&mut self)
        ensures
            final(self).collections@.len() == old(self).collections@.len() + 1,
            final(self).collections@.drop_last() == old(self).collections@,
            final(self).collections@.last().name@ == "New Collection"@,
            final(self).collections@.last().requests@.len() == 0,
            final(self).collections@.last().folders@.len() == 0,
            *final(self) == (ApiTabState { collections: final(self).collections, ..*old(self) }),
    {
        self.collections.push(ApiCollection::new("New Collection".to_string()));
        assert(self.collections@.drop_last() =~= old(self).collections@);
    }

    /// Starts sending: unless a request is already under way, takes the
    /// parameters, headers and body from the editor into the request (the
    /// texts typed in each row are handed in, row by row), marks the tab as
    /// loading, and returns the method name and URL the history will record.
    /// While a request is under way nothing changes and `None` comes back.
    pub fn begin_send(
        &mut self,
        param_texts: &Vec<(String, String)>,
        header_texts: &Vec<(String, String)>,
        body_text: String,
        form_texts: &Vec<(String, String)>,
    ) -> (r: Option<(String, String)>)
        ensures
            old(self).is_loading ==> r is None && *final(self) == *old(self),
            !old(self).is_loading ==> {
                let req = final(self).current_request;
                &&& r matches Some(p) && p.0@ == method_name(old(self).current_request.method)
                    && p.1@ == old(self).current_request.url@
                &&& key_values_view(req.params@) == collected_pairs(
                    old(self).params@,
                    param_texts@,
                    old(self).params@.len() as int,
                )
                &&& forall|i: int|
                    0 <= i < req.params@.len() ==> (#[trigger] req.params@[i]).description is None
                &&& key_values_view(req.headers@) == collected_pairs(
                    old(self).headers@,
                    header_texts@,
                    old(self).headers@.len() as int,
                )
                &&& forall|i: int|
                    0 <= i < req.headers@.len() ==> (#[trigger] req.headers@[i]).description is None
                &&& composed_body(
                    req.body,
                    old(self).body_type,
                    body_text@,
                    old(self).body_form_fields@,
                    form_texts@,
                )
                &&& req == (ApiRequest {
                    params: req.params,
                    headers: req.headers,
                    body: req.body,
                    ..old(self).current_request
                })
                &&& *final(self) == (ApiTabState {
                    current_request: req,
                    is_loading: true,
                    ..*old(self)
                })
            },
    {
        if self.is_loading {
            return None;
        }
        let params = collect_pairs(&self.params, param_texts);
        let headers = collect_pairs(&self.headers, header_texts);
        let body = match self.body_type {
            BodyType::Json => {
                if is_blank(body_text.as_str()) {
                    RequestBody::Empty
                } else {
                    RequestBody::Raw { content_type: "application/json".to_string(), content: body_text }
                }
            },
            BodyType::FormData => {
                let fields = collect_fields(&self.body_form_fields, form_texts);
                if fields.len() == 0 {
                    RequestBody::Empty
                } else {
                    RequestBody::FormData { fields }
                }
            },
        };
        self.current_request.params = params;
        self.current_request.headers = headers;
        self.current_request.body = body;
        self.is_loading = true;
        let method_str = method_to_string(self.current_request.method);
        let url = self.current_request.url.clone();
        Some((method_str, url))
    }

    /// Takes the outcome of a send: shows it, ends loading, and for a
    /// response puts a line with the given id and time first in the history,
    /// dropping the oldest line past fifty. Returns whether the history
    /// changed (and is to be stored).
    pub fn record_response(
        &mut self,
        result: Option<ResponseStatus>,
        method_str: String,
        url: String,
        id: String,
        timestamp: i64,
    ) -> (r: bool)
        ensures
            r == (result is Some),
            result matches Some(resp) ==> final(self).history@ == history_after_response(
                old(self).history@,
                history_line(id, method_str, url, resp.status, timestamp, resp.time_ms),
            ),
            result is None ==> final(self).history@ == old(self).history@,
            result matches Some(resp) ==> {
                &&& final(self).history@[0].method@ == method_str@
                &&& final(self).history@[0].url@ == url@
                &&& final(self).history@[0].id@ == id@
                &&& final(self).history@[0].status == resp.status
                &&& final(self).history@[0].response_time_ms == resp.time_ms
                &&& final(self).history@[0].timestamp == timestamp
            },
            *final(self) == (ApiTabState {
                response_status: result,
                is_loading: false,
                history: final(self).history,
                ..*old(self)
            }),
    {
        let summary = match &result {
            Some(resp) => Some((resp.status, resp.time_ms)),
            None => None,
        };
        self.response_status = result;
        self.is_loading = false;
        match summary {
            Some((status, time_ms)) => {
                let item = HistoryItem {
                    id,
                    method: method_str,
                    url,
                    status,
                    timestamp,
                    response_time_ms: time_ms,
                };
                self.history.insert(0, item);
                if self.history.len() > TAB_HISTORY_LIMIT {
                    self.history.pop();
                }
                assert(self.history@ =~= history_after_response(old(self).history@, item));
                true
            },
            None => false,
        }
    }

    /// Takes the outcome of a send as [`Self::record_response`] does, with the
    /// text of a fresh random UUID as id and the current time for the history
    /// line.
    pub fn finish_send(&mut self, result: Option<ResponseStatus>, method_str: String, url: String) -> (r:
        bool)
        ensures
            r == (result is Some),
            result matches Some(resp) ==> exists|u: u128, id: String, timestamp: i64|
                is_v4_uuid(u) && id@ == #[trigger] uuid_text(u) && final(self).history@
                    == history_after_response(
                    old(self).history@,
                    #[trigger] history_line(id, method_str, url, resp.status, timestamp, resp.time_ms),
                ),
            result is None ==> final(self).history@ == old(self).history@,
            *final(self) == (ApiTabState {
                response_status: result,
                is_loading: false,
                history: final(self).history,
                ..*old(self)
            }),
    {
        let id = new_uuid_string();
        let timestamp = now_timestamp();
        self.record_response(result, method_str, url, id, timestamp)
    }

    /// Brings the header rows in line with the body type (see
    /// [`content_type_updated`]). `key_texts` holds the text typed in each
    /// row's key input; the new rows go on the given inputs.
    pub fn update_content_type_header(
        &mut self,
        key_texts: &Vec<String>,
        ct_inputs: (H, H),
        ua_inputs: (H, H),
    )
        ensures
            content_type_updated(
                old(self).headers@,
                final(self).headers@,
                key_texts@,
                old(self).body_type,
                ct_inputs,
                ua_inputs,
            ),
            *final(self) == (ApiTabState { headers: final(self).headers, ..*old(self) }),
    {
        let content_type = match self.body_type {
            BodyType::Json => "application/json",
            BodyType::FormData => "multipart/form-data",
        };
        let ghost rows = self.headers@;
        let ghost texts = key_texts@;
        let mut ct: Option<usize> = None;
        let mut ua: Option<usize> = None;
        let n = self.headers.len();
        let mut i: usize = 0;
        while i < n
            invariant
                n == rows.len(),
                rows == self.headers@,
                texts == key_texts@,
                i <= n,
                match ct {
                    Some(c) => c < i && last_header_with_key(rows, texts, "content-type"@, i as int)
                        == Some(c as int),
                    None => last_header_with_key(rows, texts, "content-type"@, i as int) is None,
                },
                match ua {
                    Some(u) => u < i && last_header_with_key(rows, texts, "user-agent"@, i as int)
                        == Some(u as int),
                    None => last_header_with_key(rows, texts, "user-agent"@, i as int) is None,
                },
            decreases n - i,
        {
            let key = if i < key_texts.len() {
                key_texts[i].clone()
            } else {
                String::new()
            };
            assert(key@ == key_text_at(texts, i as int));
            let key_lower = to_lowercase(key.as_str());
            if key_lower.as_str().is_empty() {
                match &self.headers[i].default_key {
                    Some(dk) => {
                        let dk_lower = to_lowercase(dk.as_str());
                        if str_eq(dk_lower.as_str(), "content-type") {
                            ct = Some(i);
                        }
                        if str_eq(dk_lower.as_str(), "user-agent") {
                            ua = Some(i);
                        }
                    },
                    None => {},
                }
            } else {
                if str_eq(key_lower.as_str(), "content-type") {
                    ct = Some(i);
                }
                if str_eq(key_lower.as_str(), "user-agent") {
                    ua = Some(i);
                }
            }
            i = i + 1;
        }
        match ct {
            Some(idx) => {
                let mut row = self.headers.remove(idx);
                row.default_value = Some(content_type.to_string());
                self.headers.insert(idx, row);
            },
            None => {
                let mut new_header = KeyValueRow::new(ct_inputs.0, ct_inputs.1);
                new_header.default_key = Some("Content-Type".to_string());
                new_header.default_value = Some(content_type.to_string());
                match ua {
                    Some(u) => self.headers.insert(u + 1, new_header),
                    None => self.headers.insert(0, new_header),
                }
            },
        }
        if ua.is_none() {
            let user_agent_header = KeyValueRow::with_defaults(
                "User-Agent",
                "OneHub/1.0",
                ua_inputs.0,
                ua_inputs.1,
            );
            match ct {
                Some(c) => self.headers.insert(c, user_agent_header),
                None => self.headers.insert(0, user_agent_header),
            }
        }
    }
}

} // verus!
