//! The data model of API requests, collections, environments and history.
//!
//! Identifiers are the 128-bit values of UUIDs; a point in time is whole
//! seconds since the Unix epoch plus the nanoseconds within that second.

use vstd::prelude::*;
use crate::ids::{is_v4_uuid, new_uuid};

verus! {

broadcast use vstd::string::group_string_axioms;

/// An HTTP method.
#[allow(non_camel_case_types)]
#[derive(Debug, Clone, Copy, PartialEq, Eq, Structural)]
pub enum HttpMethod {
    GET,
    POST,
    PUT,
    DELETE,
    PATCH,
    HEAD,
    OPTIONS,
}

impl Default for HttpMethod {
    fn default() -> (r: Self)
        ensures
            r == HttpMethod::GET,
    {
        HttpMethod::GET
    }
}

/// Every HTTP method, in the order the method selector lists them.
pub open spec fn all_methods() -> Seq<HttpMethod> {
    seq![
        HttpMethod::GET,
        HttpMethod::POST,
        HttpMethod::PUT,
        HttpMethod::DELETE,
        HttpMethod::PATCH,
        HttpMethod::HEAD,
        HttpMethod::OPTIONS,
    ]
}

impl HttpMethod {
    /// All methods: GET, POST, PUT, DELETE, PATCH, HEAD, OPTIONS.
    pub fn all() -> (r: Vec<HttpMethod>)
        ensures
            r@ == all_methods(),
    {
        let r = vec![
            HttpMethod::GET,
            HttpMethod::POST,
            HttpMethod::PUT,
            HttpMethod::DELETE,
            HttpMethod::PATCH,
            HttpMethod::HEAD,
            HttpMethod::OPTIONS,
        ];
        assert(r@ =~= all_methods());
        r
    }
}

/// Where an API key is sent.
#[derive(Debug, Clone, Copy, PartialEq, Eq, Structural)]
pub enum ApiKeyAddTo {
    Header,
    Query,
}

/// How a request authenticates (`NoAuth`: not at all).
#[derive(Debug, Clone)]
pub enum AuthConfig {
    NoAuth,
    Basic { username: String, password: String },
    Bearer { token: String },
    ApiKey { key: String, value: String, add_to: ApiKeyAddTo },
}

/// One field of a form body.
#[derive(Debug, Clone)]
pub struct FormField {
    pub key: String,
    pub value: String,
    pub is_file: bool,
    pub enabled: bool,
}

/// The body of a request (`Empty`: none).
#[derive(Debug, Clone)]
pub enum RequestBody {
    Empty,
    FormData { fields: Vec<FormField> },
    Urlencoded { fields: Vec<FormField> },
    Raw { content_type: String, content: String },
    Binary { file_path: String },
}

impl Default for RequestBody {
    fn default() -> (r: Self)
        ensures
            r is Empty,
    {
        RequestBody::Empty
    }
}

/// A key-value pair of a request's parameters or headers.
#[derive(Debug, Clone)]
pub struct KeyValue {
    pub key: String,
    pub value: String,
    pub enabled: bool,
    pub description: Option<String>,
}

impl KeyValue {
    /// An enabled pair without description.
    pub fn new(key: String, value: String) -> (r: Self)
        ensures
            r.key == key,
            r.value == value,
            r.enabled,
            r.description is None,
    {
        KeyValue { key, value, enabled: true, description: None }
    }
}

/// One API request.
#[derive(Debug, Clone)]
pub struct ApiRequest {
    pub id: u128,
    pub name: String,
    pub method: HttpMethod,
    pub url: String,
    pub params: Vec<KeyValue>,
    pub headers: Vec<KeyValue>,
    pub body: RequestBody,
    pub auth: AuthConfig,
    pub enabled: bool,
}

impl ApiRequest {
    /// A new enabled GET request with the given name, a fresh random id, an
    /// empty URL, no parameters, headers or body, and no authentication.
    pub fn new(name: String) -> (r: Self)
        ensures
            r.name == name,
            is_v4_uuid(r.id),
            r.method == HttpMethod::GET,
            r.url@.len() == 0,
            r.params@.len() == 0,
            r.headers@.len() == 0,
            r.body is Empty,
            r.auth is NoAuth,
            r.enabled,
    {
        ApiRequest {
            id: new_uuid(),
            name,
            method: HttpMethod::GET,
            url: String::new(),
            params: Vec::new(),
            headers: Vec::new(),
            body: RequestBody::default(),
            auth: AuthConfig::NoAuth,
            enabled: true,
        }
    }
}

/// A variable of an environment.
#[derive(Debug, Clone)]
pub struct EnvironmentVariable {
    pub key: String,
    pub value: String,
    pub enabled: bool,
}

/// A named set of variables.
#[derive(Debug, Clone)]
pub struct ApiEnvironment {
    pub id: u128,
    pub name: String,
    pub variables: Vec<EnvironmentVariable>,
}

impl ApiEnvironment {
    /// A new environment with the given name, a fresh random id and no
    /// variables.
    pub fn new(name: String) -> (r: Self)
        ensures
            r.name == name,
            is_v4_uuid(r.id),
            r.variables@.len() == 0,
    {
        ApiEnvironment { id: new_uuid(), name, variables: Vec::new() }
    }
}

/// A named collection of requests, with nested folders.
#[derive(Debug)]
pub struct ApiCollection {
    pub id: u128,
    pub name: String,
    pub requests: Vec<ApiRequest>,
    pub folders: Vec<ApiCollection>,
}

impl ApiCollection {
    /// A new empty collection with the given name and a fresh random id.
    pub fn new(name: String) -> (r: Self)
        ensures
            r.name == name,
            is_v4_uuid(r.id),
            r.requests@.len() == 0,
            r.folders@.len() == 0,
    {
        ApiCollection { id: new_uuid(), name, requests: Vec::new(), folders: Vec::new() }
    }
}

/// A summary of a response.
#[derive(Debug, Clone)]
pub struct ResponseSummary {
    pub status: u16,
    pub status_text: String,
    pub time_ms: u64,
    pub size_bytes: usize,
}

/// A request sent at some time, with the summary of its response if any.
#[derive(Debug, Clone)]
pub struct HistoryEntry {
    pub id: u128,
    pub request: ApiRequest,
    pub response: Option<ResponseSummary>,
    pub timestamp_secs: i64,
    pub timestamp_nanos: u32,
}

/// A project: collections, environments, the active environment and history.
#[derive(Debug)]
pub struct ApiProject {
    pub collections: Vec<ApiCollection>,
    pub environments: Vec<ApiEnvironment>,
    pub active_env_id: Option<u128>,
    pub history: Vec<HistoryEntry>,
}

impl Default for ApiProject {
    fn default() -> (r: Self)
        ensures
            r.collections@.len() == 0,
            r.environments@.len() == 0,
            r.active_env_id is None,
            r.history@.len() == 0,
    {
        ApiProject {
            collections: Vec::new(),
            environments: Vec::new(),
            active_env_id: None,
            history: Vec::new(),
        }
    }
}

} // verus!
