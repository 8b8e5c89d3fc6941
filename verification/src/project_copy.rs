//! Copies of the request model, and what it means for two values to hold
//! the same data.

use vstd::prelude::*;
use crate::models::{
    ApiCollection, ApiEnvironment, ApiProject, ApiRequest, AuthConfig, EnvironmentVariable,
    FormField, HistoryEntry, KeyValue, RequestBody, ResponseSummary,
};

verus! {

/// Two bodies hold the same data.
pub open spec fn same_body(a: RequestBody, b: RequestBody) -> bool {
    match (a, b) {
        (RequestBody::Empty, RequestBody::Empty) => true,
        (RequestBody::FormData { fields: x }, RequestBody::FormData { fields: y }) => x@ == y@,
        (RequestBody::Urlencoded { fields: x }, RequestBody::Urlencoded { fields: y }) => x@ == y@,
        (
            RequestBody::Raw { content_type: t1, content: c1 },
            RequestBody::Raw { content_type: t2, content: c2 },
        ) => t1 == t2 && c1 == c2,
        (RequestBody::Binary { file_path: p1 }, RequestBody::Binary { file_path: p2 }) => p1 == p2,
        _ => false,
    }
}

/// Two requests hold the same data.
pub open spec fn same_request(a: ApiRequest, b: ApiRequest) -> bool {
    &&& a.id == b.id
    &&& a.name == b.name
    &&& a.method == b.method
    &&& a.url == b.url
    &&& a.params@ == b.params@
    &&& a.headers@ == b.headers@
    &&& same_body(a.body, b.body)
    &&& a.auth == b.auth
    &&& a.enabled == b.enabled
}

/// Two lists of requests hold the same data, request by request.
pub open spec fn same_requests(a: Seq<ApiRequest>, b: Seq<ApiRequest>) -> bool {
    a.len() == b.len() && forall|i: int| 0 <= i < a.len() ==> #[trigger] same_request(a[i], b[i])
}

/// Two collections hold the same data, down through their folders.
pub open spec fn same_collection(a: ApiCollection, b: ApiCollection) -> bool
    decreases a,
{
    &&& a.id == b.id
    &&& a.name == b.name
    &&& same_requests(a.requests@, b.requests@)
    &&& a.folders@.len() == b.folders@.len()
    &&& forall|i: int|
        0 <= i < a.folders@.len() ==> #[trigger] same_collection(a.folders@[i], b.folders@[i])
}

/// Two environments hold the same data.
pub open spec fn same_environment(a: ApiEnvironment, b: ApiEnvironment) -> bool {
    a.id == b.id && a.name == b.name && a.variables@ == b.variables@
}

/// Two history entries hold the same data.
pub open spec fn same_entry(a: HistoryEntry, b: HistoryEntry) -> bool {
    &&& a.id == b.id
    &&& same_request(a.request, b.request)
    &&& a.response == b.response
    &&& a.timestamp_secs == b.timestamp_secs
    &&& a.timestamp_nanos == b.timestamp_nanos
}

/// Two projects hold the same data.
pub open spec fn same_project(a: ApiProject, b: ApiProject) -> bool {
    &&& a.collections@.len() == b.collections@.len()
    &&& forall|i: int|
        0 <= i < a.collections@.len() ==> #[trigger] same_collection(
            a.collections@[i],
            b.collections@[i],
        )
    &&& a.environments@.len() == b.environments@.len()
    &&& forall|i: int|
        0 <= i < a.environments@.len() ==> #[trigger] same_environment(
            a.environments@[i],
            b.environments@[i],
        )
    &&& a.active_env_id == b.active_env_id
    &&& a.history@.len() == b.history@.len()
    &&& forall|i: int|
        0 <= i < a.history@.len() ==> #[trigger] same_entry(a.history@[i], b.history@[i])
}

proof fn lemma_same_collection_intro(a: ApiCollection, b: ApiCollection)
    requires
        a.id == b.id,
        a.name == b.name,
        same_requests(a.requests@, b.requests@),
        a.folders@.len() == b.folders@.len(),
        forall|j: int|
            0 <= j < a.folders@.len() ==> #[trigger] same_collection(a.folders@[j], b.folders@[j]),
    ensures
        same_collection(a, b),
{
    assert forall|j: int| 0 <= j < a.folders@.len() implies same_collection(
        a.folders@[j],
        b.folders@[j],
    ) by {}
    assert(same_collection(a, b)) by {
        reveal_with_fuel(same_collection, 3);
    }
}

fn copy_text(s: &Option<String>) -> (r: Option<String>)
    ensures
        r == *s,
{
    match s {
        Some(t) => Some(t.clone()),
        None => None,
    }
}

impl KeyValue {
    /// A copy of the pair.
    pub fn duplicate(&self) -> (r: Self)
        ensures
            r == *self,
    {
        KeyValue {
            key: self.key.clone(),
            value: self.value.clone(),
            enabled: self.enabled,
            description: copy_text(&self.description),
        }
    }
}

impl FormField {
    /// A copy of the field.
    pub fn duplicate(&self) -> (r: Self)
        ensures
            r == *self,
    {
        FormField {
            key: self.key.clone(),
            value: self.value.clone(),
            is_file: self.is_file,
            enabled: self.enabled,
        }
    }
}

impl EnvironmentVariable {
    /// A copy of the variable.
    pub fn duplicate(&self) -> (r: Self)
        ensures
            r == *self,
    {
        EnvironmentVariable { key: self.key.clone(), value: self.value.clone(), enabled: self.enabled }
    }
}

impl ResponseSummary {
    /// A copy of the summary.
    pub fn duplicate(&self) -> (r: Self)
        ensures
            r == *self,
    {
        ResponseSummary {
            status: self.status,
            status_text: self.status_text.clone(),
            time_ms: self.time_ms,
            size_bytes: self.size_bytes,
        }
    }
}

impl AuthConfig {
    /// A copy of the authentication.
    pub fn duplicate(&self) -> (r: Self)
        ensures
            r == *self,
    {
        match self {
            AuthConfig::NoAuth => AuthConfig::NoAuth,
            AuthConfig::Basic { username, password } => AuthConfig::Basic {
                username: username.clone(),
                password: password.clone(),
            },
            AuthConfig::Bearer { token } => AuthConfig::Bearer { token: token.clone() },
            AuthConfig::ApiKey { key, value, add_to } => AuthConfig::ApiKey {
                key: key.clone(),
                value: value.clone(),
                add_to: *add_to,
            },
        }
    }
}

fn copy_pairs(v: &Vec<KeyValue>) -> (r: Vec<KeyValue>)
    ensures
        r@ == v@,
{
    let mut out: Vec<KeyValue> = Vec::new();
    let n = v.len();
    let mut i: usize = 0;
    while i < n
        invariant
            n == v@.len(),
            i <= n,
            out@ == v@.take(i as int),
        decreases n - i,
    {
        out.push(v[i].duplicate());
        assert(v@.take(i + 1) =~= v@.take(i as int).push(v@[i as int]));
        i = i + 1;
    }
    assert(v@.take(n as int) =~= v@);
    out
}

fn copy_fields(v: &Vec<FormField>) -> (r: Vec<FormField>)
    ensures
        r@ == v@,
{
    let mut out: Vec<FormField> = Vec::new();
    let n = v.len();
    let mut i: usize = 0;
    while i < n
        invariant
            n == v@.len(),
            i <= n,
            out@ == v@.take(i as int),
        decreases n - i,
    {
        out.push(v[i].duplicate());
        assert(v@.take(i + 1) =~= v@.take(i as int).push(v@[i as int]));
        i = i + 1;
    }
    assert(v@.take(n as int) =~= v@);
    out
}

fn copy_variables(v: &Vec<EnvironmentVariable>) -> (r: Vec<EnvironmentVariable>)
    ensures
        r@ == v@,
{
    let mut out: Vec<EnvironmentVariable> = Vec::new();
    let n = v.len();
    let mut i: usize = 0;
    while i < n
        invariant
            n == v@.len(),
            i <= n,
            out@ == v@.take(i as int),
        decreases n - i,
    {
        out.push(v[i].duplicate());
        assert(v@.take(i + 1) =~= v@.take(i as int).push(v@[i as int]));
        i = i + 1;
    }
    assert(v@.take(n as int) =~= v@);
    out
}

impl RequestBody {
    /// A copy of the body.
    pub fn duplicate(&self) -> (r: Self)
        ensures
            same_body(r, *self),
    {
        match self {
            RequestBody::Empty => RequestBody::Empty,
            RequestBody::FormData { fields } => RequestBody::FormData { fields: copy_fields(fields) },
            RequestBody::Urlencoded { fields } => RequestBody::Urlencoded {
                fields: copy_fields(fields),
            },
            RequestBody::Raw { content_type, content } => RequestBody::Raw {
                content_type: content_type.clone(),
                content: content.clone(),
            },
            RequestBody::Binary { file_path } => RequestBody::Binary { file_path: file_path.clone() },
        }
    }
}

impl ApiRequest {
    /// A copy of the request.
    pub fn duplicate(&self) -> (r: Self)
        ensures
            same_request(r, *self),
    {
        ApiRequest {
            id: self.id,
            name: self.name.clone(),
            method: self.method,
            url: self.url.clone(),
            params: copy_pairs(&self.params),
            headers: copy_pairs(&self.headers),
            body: self.body.duplicate(),
            auth: self.auth.duplicate(),
            enabled: self.enabled,
        }
    }
}

impl ApiEnvironment {
    /// A copy of the environment.
    pub fn duplicate(&self) -> (r: Self)
        ensures
            same_environment(r, *self),
    {
        ApiEnvironment { id: self.id, name: self.name.clone(), variables: copy_variables(&self.variables) }
    }
}

impl HistoryEntry {
    /// A copy of the entry.
    pub fn duplicate(&self) -> (r: Self)
        ensures
            same_entry(r, *self),
    {
        let response = match &self.response {
            Some(s) => Some(s.duplicate()),
            None => None,
        };
        HistoryEntry {
            id: self.id,
            request: self.request.duplicate(),
            response,
            timestamp_secs: self.timestamp_secs,
            timestamp_nanos: self.timestamp_nanos,
        }
    }
}

impl ApiCollection {
    /// A copy of the collection, down through its folders.
    pub fn duplicate(&self) -> (r: Self)
        ensures
            same_collection(r, *self),
        decreases self,
    {
        let mut requests: Vec<ApiRequest> = Vec::new();
        let n = self.requests.len();
        let mut i: usize = 0;
        while i < n
            invariant
                n == self.requests@.len(),
                i <= n,
                requests@.len() == i,
                forall|j: int| 0 <= j < i ==> #[trigger] same_request(requests@[j], self.requests@[j]),
            decreases n - i,
        {
            requests.push(self.requests[i].duplicate());
            i = i + 1;
        }
        let mut folders: Vec<ApiCollection> = Vec::new();
        let m = self.folders.len();
        let mut k: usize = 0;
        while k < m
            invariant
                m == self.folders@.len(),
                k <= m,
                folders@.len() == k,
                forall|j: int|
                    0 <= j < k ==> #[trigger] same_collection(folders@[j], self.folders@[j]),
            decreases m - k,
        {
            folders.push(self.folders[k].duplicate());
            k = k + 1;
        }
        let r = ApiCollection { id: self.id, name: self.name.clone(), requests, folders };
        proof {
            lemma_same_collection_intro(r, *self);
        }
        r
    }
}

impl ApiProject {
    /// A copy of the project.
    pub fn duplicate(&self) -> (r: Self)
        ensures
            same_project(r, *self),
    {
        let mut collections: Vec<ApiCollection> = Vec::new();
        let n = self.collections.len();
        let mut i: usize = 0;
        while i < n
            invariant
                n == self.collections@.len(),
                i <= n,
                collections@.len() == i,
                forall|j: int|
                    0 <= j < i ==> #[trigger] same_collection(collections@[j], self.collections@[j]),
            decreases n - i,
        {
            collections.push(self.collections[i].duplicate());
            i = i + 1;
        }
        let mut environments: Vec<ApiEnvironment> = Vec::new();
        let n = self.environments.len();
        let mut i: usize = 0;
        while i < n
            invariant
                n == self.environments@.len(),
                i <= n,
                environments@.len() == i,
                forall|j: int|
                    0 <= j < i ==> #[trigger] same_environment(environments@[j], self.environments@[j]),
            decreases n - i,
        {
            environments.push(self.environments[i].duplicate());
            i = i + 1;
        }
        let mut history: Vec<HistoryEntry> = Vec::new();
        let n = self.history.len();
        let mut i: usize = 0;
        while i < n
            invariant
                n == self.history@.len(),
                i <= n,
                history@.len() == i,
                forall|j: int| 0 <= j < i ==> #[trigger] same_entry(history@[j], self.history@[j]),
            decreases n - i,
        {
            history.push(self.history[i].duplicate());
            i = i + 1;
        }
        ApiProject { collections, environments, active_env_id: self.active_env_id, history }
    }
}

} // verus!
