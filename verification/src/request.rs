//! What a request puts on the wire, before any I/O: the URL with its query,
//! the header list, and the body bytes.

use vstd::prelude::*;
use vstd::utf8::{decode_utf8, encode_utf8};
use crate::encoding::{base64_encode, base64_standard, percent_encoded, url_encode};
use crate::ids::{is_v4_uuid, new_uuid_string, uuid_text};
use crate::models::{ApiRequest, AuthConfig, FormField, HttpMethod, KeyValue, RequestBody};
use crate::text::{contains_char, file_name, path_file_name, push_char};

verus! {

broadcast use vstd::string::group_string_axioms;

/// A request ready to be sent: absolute URL text, method, headers in the
/// order they are set, and body bytes.
pub struct PreparedRequest {
    pub url: String,
    pub method: HttpMethod,
    pub headers: Vec<(String, String)>,
    pub body: Vec<u8>,
}

/// The texts of a list of header pairs.
pub open spec fn pairs_view(v: Seq<(String, String)>) -> Seq<(Seq<char>, Seq<char>)> {
    v.map_values(|p: (String, String)| (p.0@, p.1@))
}

/// A parameter or header is sent when it is enabled and its key is not empty.
pub open spec fn is_sent(p: KeyValue) -> bool {
    p.enabled && p.key@.len() > 0
}

/// A form field is sent when it is enabled and its key is not empty.
pub open spec fn is_sent_field(f: FormField) -> bool {
    f.enabled && f.key@.len() > 0
}

/// `key=value`, both percent-encoded.
pub open spec fn encoded_pair(key: Seq<char>, value: Seq<char>) -> Seq<char> {
    percent_encoded(encode_utf8(key)) + "="@ + percent_encoded(encode_utf8(value))
}

/// The query string of the first `n` parameters: the encoded pairs of the
/// sent ones, joined by `&`.
pub open spec fn query_of(params: Seq<KeyValue>, n: int) -> Seq<char>
    decreases n,
{
    if n <= 0 {
        seq![]
    } else {
        let q = query_of(params, n - 1);
        let p = params[n - 1];
        if !is_sent(p) {
            q
        } else if q.len() == 0 {
            encoded_pair(p.key@, p.value@)
        } else {
            q + "&"@ + encoded_pair(p.key@, p.value@)
        }
    }
}

/// The query string of a request's parameters.
pub open spec fn query_text(params: Seq<KeyValue>) -> Seq<char> {
    query_of(params, params.len() as int)
}

/// The URL a request is sent to: its URL, with the query string appended
/// after `&` if the URL already has a `?`, else after `?`.
pub open spec fn url_with_query(url: Seq<char>, params: Seq<KeyValue>) -> Seq<char> {
    let q = query_text(params);
    if q.len() == 0 {
        url
    } else if url.contains('?') {
        url + "&"@ + q
    } else {
        url + "?"@ + q
    }
}

/// Appends `s` to `out`.
fn append_str(out: &mut String, s: &str)
    ensures
        final(out)@ == old(out)@ + s@,
{
    out.append(s);
}

/// The query string of the sent parameters of `params`.
pub fn query_string(params: &Vec<KeyValue>) -> (r: String)
    ensures
        r@ == query_text(params@),
{
    let mut out = String::new();
    let n = params.len();
    let mut i: usize = 0;
    while i < n
        invariant
            n == params@.len(),
            i <= n,
            out@ == query_of(params@, i as int),
        decreases n - i,
    {
        let p = &params[i];
        if p.enabled && !p.key.as_str().is_empty() {
            if !out.as_str().is_empty() {
                push_char(&mut out, '&');
                assert(seq!['&'] =~= "&"@) by {
                    reveal_strlit("&");
                }
            }
            let k = url_encode(p.key.as_str());
            let v = url_encode(p.value.as_str());
            append_str(&mut out, k.as_str());
            push_char(&mut out, '=');
            assert(seq!['='] =~= "="@) by {
                reveal_strlit("=");
            }
            append_str(&mut out, v.as_str());
            assert(out@ =~= query_of(params@, i + 1));
        }
        i = i + 1;
    }
    out
}

/// The URL a request goes to, with its sent parameters as query string.
pub fn request_url(url: &str, params: &Vec<KeyValue>) -> (r: String)
    ensures
        r@ == url_with_query(url@, params@),
{
    let q = query_string(params);
    let mut out = url.to_string();
    if q.as_str().is_empty() {
        return out;
    }
    if contains_char(url, '?') {
        append_str(&mut out, "&");
    } else {
        append_str(&mut out, "?");
    }
    append_str(&mut out, q.as_str());
    out
}

/// The headers of the first `n` entries that are sent, as texts.
pub open spec fn sent_headers(headers: Seq<KeyValue>, n: int) -> Seq<(Seq<char>, Seq<char>)>
    decreases n,
{
    if n <= 0 {
        seq![]
    } else {
        let r = sent_headers(headers, n - 1);
        let h = headers[n - 1];
        if is_sent(h) {
            r.push((h.key@, h.value@))
        } else {
            r
        }
    }
}

/// The `Authorization` header of an authentication, if it has one: Basic
/// with base64 of `username:password`, or Bearer with the token.
pub open spec fn auth_header_of(auth: AuthConfig) -> Option<(Seq<char>, Seq<char>)> {
    match auth {
        AuthConfig::Basic { username, password } => Some(
            (
                "Authorization"@,
                "Basic "@ + base64_standard(encode_utf8(username@ + ":"@ + password@)),
            ),
        ),
        AuthConfig::Bearer { token } => Some(("Authorization"@, "Bearer "@ + token@)),
        _ => None,
    }
}

/// The `Authorization` header for `auth`, if it has one.
pub fn auth_header(auth: &AuthConfig) -> (r: Option<(String, String)>)
    ensures
        match r {
            Some(p) => auth_header_of(*auth) == Some((p.0@, p.1@)),
            None => auth_header_of(*auth) is None,
        },
{
    match auth {
        AuthConfig::Basic { username, password } => {
            let mut credentials = username.clone();
            append_str(&mut credentials, ":");
            append_str(&mut credentials, password.as_str());
            let encoded = base64_encode(credentials.as_str());
            let mut value = "Basic ".to_string();
            append_str(&mut value, encoded.as_str());
            Some(("Authorization".to_string(), value))
        },
        AuthConfig::Bearer { token } => {
            let mut value = "Bearer ".to_string();
            append_str(&mut value, token.as_str());
            Some(("Authorization".to_string(), value))
        },
        _ => None,
    }
}

/// Appends the UTF-8 bytes of `s` to `out`.
fn append_utf8(out: &mut Vec<u8>, s: &str)
    ensures
        final(out)@ == old(out)@ + encode_utf8(s@),
{
    let b = s.as_bytes();
    append_bytes(out, b);
}

/// Appends `bytes` to `out`.
fn append_bytes(out: &mut Vec<u8>, bytes: &[u8])
    ensures
        final(out)@ == old(out)@ + bytes@,
{
    let ghost start = out@;
    let n = bytes.len();
    let mut i: usize = 0;
    while i < n
        invariant
            n == bytes@.len(),
            i <= n,
            out@ == start + bytes@.take(i as int),
        decreases n - i,
    {
        out.push(bytes[i]);
        assert(bytes@.take(i + 1) =~= bytes@.take(i as int).push(bytes@[i as int]));
        i = i + 1;
    }
    assert(bytes@.take(n as int) =~= bytes@);
}

/// The file name a multipart part carries for a file path: the path's final
/// component, or the whole path when it has none.
pub open spec fn upload_name(path: Seq<char>) -> Seq<char> {
    match path_file_name(path) {
        Some(n) => n,
        None => path,
    }
}

/// The content read for field `i`, when there is one.
pub open spec fn file_at(files: Seq<Option<Vec<u8>>>, i: int) -> Seq<u8> {
    if 0 <= i < files.len() {
        match files[i] {
            Some(c) => c@,
            None => seq![],
        }
    } else {
        seq![]
    }
}

/// The multipart part of a form field: boundary line, disposition, and for
/// a file field with a path its name, type and content, else its text.
pub open spec fn multipart_part(f: FormField, content: Seq<u8>, boundary: Seq<char>) -> Seq<u8> {
    encode_utf8("--"@ + boundary + "\r\n"@) + (if f.is_file && f.value@.len() > 0 {
        encode_utf8(
            "Content-Disposition: form-data; name=\""@ + f.key@ + "\"; filename=\""@
                + upload_name(f.value@) + "\"\r\n"@,
        ) + encode_utf8("Content-Type: application/octet-stream\r\n\r\n"@) + content
    } else {
        encode_utf8("Content-Disposition: form-data; name=\""@ + f.key@ + "\"\r\n\r\n"@)
            + encode_utf8(f.value@)
    }) + encode_utf8("\r\n"@)
}

/// The parts of the first `n` fields that are sent.
pub open spec fn multipart_parts(
    fields: Seq<FormField>,
    files: Seq<Option<Vec<u8>>>,
    boundary: Seq<char>,
    n: int,
) -> Seq<u8>
    decreases n,
{
    if n <= 0 {
        seq![]
    } else {
        let r = multipart_parts(fields, files, boundary, n - 1);
        let f = fields[n - 1];
        if is_sent_field(f) {
            r + multipart_part(f, file_at(files, n - 1), boundary)
        } else {
            r
        }
    }
}

/// A multipart form body: the parts of the sent fields, then the closing
/// boundary line.
pub open spec fn multipart_body(
    fields: Seq<FormField>,
    files: Seq<Option<Vec<u8>>>,
    boundary: Seq<char>,
) -> Seq<u8> {
    multipart_parts(fields, files, boundary, fields.len() as int) + encode_utf8(
        "--"@ + boundary + "--\r\n"@,
    )
}

/// The URL-encoded form body of the first `n` fields: the encoded pairs of
/// the sent ones, joined by `&`.
pub open spec fn urlencoded_of(fields: Seq<FormField>, n: int) -> Seq<u8>
    decreases n,
{
    if n <= 0 {
        seq![]
    } else {
        let r = urlencoded_of(fields, n - 1);
        let f = fields[n - 1];
        if !is_sent_field(f) {
            r
        } else if r.len() == 0 {
            encode_utf8(encoded_pair(f.key@, f.value@))
        } else {
            r.push(38u8) + encode_utf8(encoded_pair(f.key@, f.value@))
        }
    }
}

proof fn lemma_urlencoded_remove(fields: Seq<FormField>, k: int, m: int)
    requires
        0 <= k < fields.len(),
        !fields[k].enabled,
        0 <= m <= fields.len(),
    ensures
        m <= k ==> urlencoded_of(fields, m) == urlencoded_of(fields.remove(k), m),
        m > k ==> urlencoded_of(fields, m) == urlencoded_of(fields.remove(k), m - 1),
    decreases m,
{
    if m > 0 {
        lemma_urlencoded_remove(fields, k, m - 1);
        let s = fields.remove(k);
        if m - 1 < k {
            assert(s[m - 1] == fields[m - 1]);
        } else if m - 1 > k {
            assert(s[m - 2] == fields[m - 1]);
        }
    }
}

/// A disabled field adds nothing to a URL-encoded form body: the body of a
/// field list is the body of the same list without any one disabled field.
pub proof fn lemma_urlencoded_skips_disabled(
    with_field: Vec<FormField>,
    without_field: Vec<FormField>,
    k: int,
    boundary: Seq<char>,
    files: Seq<Option<Vec<u8>>>,
    binary: Option<Vec<u8>>,
)
    requires
        0 <= k < with_field@.len(),
        !with_field@[k].enabled,
        without_field@ == with_field@.remove(k),
    ensures
        body_of(RequestBody::Urlencoded { fields: with_field }, boundary, files, binary) == body_of(
            RequestBody::Urlencoded { fields: without_field },
            boundary,
            files,
            binary,
        ),
{
    lemma_urlencoded_remove(with_field@, k, with_field@.len() as int);
}

proof fn lemma_urlencoded_prefix(s1: Seq<FormField>, s2: Seq<FormField>, n: int)
    requires
        0 <= n <= s1.len(),
        n <= s2.len(),
        forall|i: int| 0 <= i < n ==> s1[i] == s2[i],
    ensures
        urlencoded_of(s1, n) == urlencoded_of(s2, n),
    decreases n,
{
    if n > 0 {
        lemma_urlencoded_prefix(s1, s2, n - 1);
    }
}

proof fn lemma_encode_utf8_nonempty(s: Seq<char>)
    requires
        s.len() > 0,
    ensures
        encode_utf8(s).len() > 0,
{
    vstd::utf8::encode_utf8_decode_utf8(s);
    if encode_utf8(s).len() == 0 {
        assert(encode_utf8(s) =~= Seq::<u8>::empty());
        assert(decode_utf8(Seq::<u8>::empty()) =~= Seq::<char>::empty());
    }
}

proof fn lemma_urlencoded_concat_upto(a: Seq<FormField>, b: Seq<FormField>, m: int)
    requires
        0 <= m <= b.len(),
    ensures
        ({
            let x = urlencoded_of(a, a.len() as int);
            let y = urlencoded_of(b, m);
            urlencoded_of(a + b, a.len() + m) == if x.len() == 0 {
                y
            } else if y.len() == 0 {
                x
            } else {
                x.push(38u8) + y
            }
        }),
    decreases m,
{
    let x = urlencoded_of(a, a.len() as int);
    if m == 0 {
        lemma_urlencoded_prefix(a + b, a, a.len() as int);
    } else {
        lemma_urlencoded_concat_upto(a, b, m - 1);
        let f = b[m - 1];
        assert((a + b)[a.len() + m - 1] == f);
        if is_sent_field(f) {
            let e = encode_utf8(encoded_pair(f.key@, f.value@));
            reveal_strlit("=");
            lemma_encode_utf8_nonempty(encoded_pair(f.key@, f.value@));
            let y0 = urlencoded_of(b, m - 1);
            if x.len() > 0 && y0.len() > 0 {
                assert(x.push(38u8) + y0.push(38u8) + e =~= x.push(38u8) + (y0.push(38u8) + e));
            } else if x.len() > 0 {
                assert(x.push(38u8) + e =~= x.push(38u8) + e);
            }
        }
    }
}

/// The URL-encoded body of two field lists one after the other is the body
/// of the first, then `&` when both give pairs, then the body of the second.
pub proof fn lemma_urlencoded_concat(a: Seq<FormField>, b: Seq<FormField>)
    ensures
        ({
            let x = urlencoded_of(a, a.len() as int);
            let y = urlencoded_of(b, b.len() as int);
            urlencoded_of(a + b, (a + b).len() as int) == if x.len() == 0 {
                y
            } else if y.len() == 0 {
                x
            } else {
                x.push(38u8) + y
            }
        }),
{
    lemma_urlencoded_concat_upto(a, b, b.len() as int);
}

/// One enabled field with a non-empty key gives the UTF-8 bytes of its key,
/// `=` and its value, key and value percent-encoded.
pub proof fn lemma_urlencoded_single(f: FormField)
    requires
        f.enabled,
        f.key@.len() > 0,
    ensures
        urlencoded_of(seq![f], 1) == encode_utf8(
            percent_encoded(encode_utf8(f.key@)) + seq!['='] + percent_encoded(
                encode_utf8(f.value@),
            ),
        ),
{
    reveal_strlit("=");
    assert("="@ =~= seq!['=']);
    assert(encoded_pair(f.key@, f.value@) == percent_encoded(encode_utf8(f.key@)) + seq!['=']
        + percent_encoded(encode_utf8(f.value@)));
    assert(urlencoded_of(seq![f], 0) =~= Seq::<u8>::empty());
    assert(seq![f][0] == f);
}

/// The `Content-Type` and body bytes of a request body. `files` holds what
/// was read for each form field's path, `binary` what was read for a binary
/// body's path; nothing read means no content.
pub open spec fn body_of(
    body: RequestBody,
    boundary: Seq<char>,
    files: Seq<Option<Vec<u8>>>,
    binary: Option<Vec<u8>>,
) -> (Option<Seq<char>>, Seq<u8>) {
    match body {
        RequestBody::Empty => (None, seq![]),
        RequestBody::Raw { content_type, content } => (Some(content_type@), encode_utf8(content@)),
        RequestBody::FormData { fields } => (
            Some("multipart/form-data; boundary="@ + boundary),
            multipart_body(fields@, files, boundary),
        ),
        RequestBody::Urlencoded { fields } => (
            Some("application/x-www-form-urlencoded"@),
            urlencoded_of(fields@, fields@.len() as int),
        ),
        RequestBody::Binary { .. } => match binary {
            Some(c) => (Some("application/octet-stream"@), c@),
            None => (None, seq![]),
        },
    }
}

/// Every header of a request, in order: its sent headers, then
/// `Authorization` if its authentication gives one, then `Content-Type` if
/// its body has one.
pub open spec fn headers_of(
    request: ApiRequest,
    boundary: Seq<char>,
    files: Seq<Option<Vec<u8>>>,
    binary: Option<Vec<u8>>,
) -> Seq<(Seq<char>, Seq<char>)> {
    let user = sent_headers(request.headers@, request.headers@.len() as int);
    let with_auth = match auth_header_of(request.auth) {
        Some(h) => user.push(h),
        None => user,
    };
    match body_of(request.body, boundary, files, binary).0 {
        Some(ct) => with_auth.push(("Content-Type"@, ct)),
        None => with_auth,
    }
}

/// What `prepare_request_with_boundary` gives for a request with a URL.
pub open spec fn prepared(
    r: PreparedRequest,
    request: ApiRequest,
    boundary: Seq<char>,
    files: Seq<Option<Vec<u8>>>,
    binary: Option<Vec<u8>>,
) -> bool {
    &&& r.url@ == url_with_query(request.url@, request.params@)
    &&& r.method == request.method
    &&& pairs_view(r.headers@) == headers_of(request, boundary, files, binary)
    &&& r.body@ == body_of(request.body, boundary, files, binary).1
}

fn push_pair(v: &mut Vec<(String, String)>, k: String, val: String)
    ensures
        pairs_view(final(v)@) == pairs_view(old(v)@).push((k@, val@)),
{
    let ghost before = v@;
    v.push((k, val));
    assert(pairs_view(v@) =~= pairs_view(before).push((k@, val@)));
}

fn multipart_bytes(
    fields: &Vec<FormField>,
    files: &Vec<Option<Vec<u8>>>,
    boundary: &str,
) -> (r: Vec<u8>)
    ensures
        r@ == multipart_body(fields@, files@, boundary@),
{
    let mut out: Vec<u8> = Vec::new();
    let n = fields.len();
    let mut i: usize = 0;
    while i < n
        invariant
            n == fields@.len(),
            i <= n,
            out@ == multipart_parts(fields@, files@, boundary@, i as int),
        decreases n - i,
    {
        let f = &fields[i];
        if f.enabled && !f.key.as_str().is_empty() {
            let ghost before = out@;
            let mut line = "--".to_string();
            append_str(&mut line, boundary);
            append_str(&mut line, "\r\n");
            append_utf8(&mut out, line.as_str());
            if f.is_file && !f.value.as_str().is_empty() {
                let mut disposition = "Content-Disposition: form-data; name=\"".to_string();
                append_str(&mut disposition, f.key.as_str());
                append_str(&mut disposition, "\"; filename=\"");
                let name = match file_name(f.value.as_str()) {
                    Some(n) => n,
                    None => f.value.clone(),
                };
                append_str(&mut disposition, name.as_str());
                append_str(&mut disposition, "\"\r\n");
                append_utf8(&mut out, disposition.as_str());
                append_utf8(&mut out, "Content-Type: application/octet-stream\r\n\r\n");
                if i < files.len() {
                    match &files[i] {
                        Some(c) => append_bytes(&mut out, c.as_slice()),
                        None => {},
                    }
                }
            } else {
                let mut disposition = "Content-Disposition: form-data; name=\"".to_string();
                append_str(&mut disposition, f.key.as_str());
                append_str(&mut disposition, "\"\r\n\r\n");
                append_utf8(&mut out, disposition.as_str());
                append_utf8(&mut out, f.value.as_str());
            }
            append_utf8(&mut out, "\r\n");
            assert(out@ =~= before + multipart_part(*f, file_at(files@, i as int), boundary@));
        }
        i = i + 1;
    }
    let mut closing = "--".to_string();
    append_str(&mut closing, boundary);
    append_str(&mut closing, "--\r\n");
    append_utf8(&mut out, closing.as_str());
    out
}

fn urlencoded_bytes(fields: &Vec<FormField>) -> (r: Vec<u8>)
    ensures
        r@ == urlencoded_of(fields@, fields@.len() as int),
{
    let mut out: Vec<u8> = Vec::new();
    let n = fields.len();
    let mut i: usize = 0;
    while i < n
        invariant
            n == fields@.len(),
            i <= n,
            out@ == urlencoded_of(fields@, i as int),
        decreases n - i,
    {
        let f = &fields[i];
        if f.enabled && !f.key.as_str().is_empty() {
            if out.len() > 0 {
                out.push(38u8);
            }
            let k = url_encode(f.key.as_str());
            let v = url_encode(f.value.as_str());
            let mut pair = k;
            append_str(&mut pair, "=");
            append_str(&mut pair, v.as_str());
            append_utf8(&mut out, pair.as_str());
        }
        i = i + 1;
    }
    out
}

/// The request as it goes out, for a given multipart boundary, the contents
/// read for its form fields' paths and for its binary body's path; `None`
/// when its URL is empty.
pub fn prepare_request_with_boundary(
    request: &ApiRequest,
    boundary: &str,
    files: &Vec<Option<Vec<u8>>>,
    binary: Option<Vec<u8>>,
) -> (r: Option<PreparedRequest>)
    ensures
        r is None <==> request.url@.len() == 0,
        r matches Some(p) ==> prepared(p, *request, boundary@, files@, binary),
{
    if request.url.as_str().is_empty() {
        return None;
    }
    let url = request_url(request.url.as_str(), &request.params);
    let mut headers: Vec<(String, String)> = Vec::new();
    let n = request.headers.len();
    let mut i: usize = 0;
    while i < n
        invariant
            n == request.headers@.len(),
            i <= n,
            pairs_view(headers@) == sent_headers(request.headers@, i as int),
        decreases n - i,
    {
        let h = &request.headers[i];
        if h.enabled && !h.key.as_str().is_empty() {
            push_pair(&mut headers, h.key.clone(), h.value.clone());
        }
        i = i + 1;
    }
    match auth_header(&request.auth) {
        Some(p) => push_pair(&mut headers, p.0, p.1),
        None => {},
    }
    let ghost spec_body = body_of(request.body, boundary@, files@, binary);
    let (content_type, body): (Option<String>, Vec<u8>) = match &request.body {
        RequestBody::Empty => (None, Vec::new()),
        RequestBody::Raw { content_type, content } => {
            let mut b: Vec<u8> = Vec::new();
            append_utf8(&mut b, content.as_str());
            (Some(content_type.clone()), b)
        },
        RequestBody::FormData { fields } => {
            let mut ct = "multipart/form-data; boundary=".to_string();
            append_str(&mut ct, boundary);
            (Some(ct), multipart_bytes(fields, files, boundary))
        },
        RequestBody::Urlencoded { fields } => {
            (Some("application/x-www-form-urlencoded".to_string()), urlencoded_bytes(fields))
        },
        RequestBody::Binary { .. } => match binary {
            Some(c) => (Some("application/octet-stream".to_string()), c),
            None => (None, Vec::new()),
        },
    };
    assert(body@ == spec_body.1);
    match content_type {
        Some(ct) => push_pair(&mut headers, "Content-Type".to_string(), ct),
        None => {},
    }
    Some(PreparedRequest { url, method: request.method, headers, body })
}

/// The request as it goes out: a form-data body gets the text of a fresh
/// random UUID as boundary; otherwise as [`prepare_request_with_boundary`].
/// `None` when the URL is empty.
pub fn prepare_request(
    request: &ApiRequest,
    files: &Vec<Option<Vec<u8>>>,
    binary: Option<Vec<u8>>,
) -> (r: Option<PreparedRequest>)
    ensures
        r is None <==> request.url@.len() == 0,
        r matches Some(p) ==> exists|id: u128|
            is_v4_uuid(id) && #[trigger] prepared(p, *request, uuid_text(id), files@, binary),
{
    let is_form = match &request.body {
        RequestBody::FormData { .. } => true,
        _ => false,
    };
    let boundary = if is_form {
        new_uuid_string()
    } else {
        String::new()
    };
    let r = prepare_request_with_boundary(request, boundary.as_str(), files, binary);
    proof {
        if r is Some && !is_form {
            let id: u128 = 0x4000_8000_0000_0000_0000u128;
            assert((0x4000_8000_0000_0000_0000u128 >> 76u128) & 15 == 4
                && (0x4000_8000_0000_0000_0000u128 >> 62u128) & 3 == 2) by (bit_vector);
            assert(is_v4_uuid(id));
            assert(body_of(request.body, uuid_text(id), files@, binary) == body_of(
                request.body,
                boundary@,
                files@,
                binary,
            ));
            assert(prepared(r->0, *request, uuid_text(id), files@, binary));
        }
    }
    r
}

} // verus!
