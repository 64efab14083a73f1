use crate::collection::{Collection, CollectionMetadata, MetadataValue};
use crate::error::ChromaClientError;
use crate::text::{decimal, decimal_text, digit_char, signed_decimal, signed_decimal_text};
use vstd::prelude::*;

verus! {

/// A header as name and value.
pub type Header = (String, String);

/// The text of a list of headers.
pub open spec fn headers_view(h: Seq<Header>) -> Seq<(Seq<char>, Seq<char>)> {
    h.map_values(|p: Header| (p.0@, p.1@))
}

/// The tenant and database under which the client's collections live.
#[derive(Debug, Clone)]
pub struct Settings {
    pub tenant: String,
    pub database: String,
}

impl Settings {
    /// The default scope: tenant `default_tenant`, database `default_database`.
    pub fn default() -> (r: Settings)
        ensures
            r.tenant@ == "default_tenant"@,
            r.database@ == "default_database"@,
    {
        Settings {
            tenant: String::from_str("default_tenant"),
            database: String::from_str("default_database"),
        }
    }
}

impl Default for Settings {
    fn default() -> (r: Settings)
        ensures
            r.tenant@ == "default_tenant"@,
            r.database@ == "default_database"@,
    {
        Settings::default()
    }
}

/// What a client is configured from.
#[derive(Debug, Clone)]
pub struct ChromaClientParams {
    pub host: String,
    pub port: String,
    pub ssl: bool,
    /// Headers sent with every request, such as an authentication token.
    pub headers: Option<Vec<Header>>,
    pub settings: Option<Settings>,
}

impl ChromaClientParams {
    /// A plain-text connection to `localhost:8000` in the default scope, with
    /// no extra headers.
    pub fn default() -> (r: ChromaClientParams)
        ensures
            r.host@ == "localhost"@,
            r.port@ == "8000"@,
            !r.ssl,
            r.headers is None,
            r.settings matches Some(s) && s.tenant@ == "default_tenant"@ && s.database@
                == "default_database"@,
    {
        ChromaClientParams {
            host: String::from_str("localhost"),
            port: String::from_str("8000"),
            ssl: false,
            headers: None,
            settings: Some(Settings::default()),
        }
    }
}

impl Default for ChromaClientParams {
    fn default() -> (r: ChromaClientParams)
        ensures
            r.host@ == "localhost"@,
            r.port@ == "8000"@,
            !r.ssl,
            r.headers is None,
            r.settings matches Some(s) && s.tenant@ == "default_tenant"@ && s.database@
                == "default_database"@,
    {
        ChromaClientParams::default()
    }
}

/// The scheme of the service's address.
pub open spec fn scheme(ssl: bool) -> Seq<char> {
    if ssl {
        "https"@
    } else {
        "http"@
    }
}

/// The base address `scheme://host:port` of the service.
pub open spec fn base_address(ssl: bool, host: Seq<char>, port: Seq<char>) -> Seq<char> {
    scheme(ssl) + "://"@ + host + ":"@ + port
}

/// The client's configuration: base address, static headers and scope. It
/// does not change after construction.
#[derive(Debug, Clone)]
pub struct ChromaClient {
    pub path: String,
    pub headers: Vec<Header>,
    pub tenant: String,
    pub database: String,
}

impl ChromaClient {
    /// Configures a client. The scope defaults to `default_tenant` and
    /// `default_database`, the static headers to none.
    pub fn new(params: ChromaClientParams) -> (r: ChromaClient)
        ensures
            r.path@ == base_address(params.ssl, params.host@, params.port@),
            params.headers matches Some(h) ==> r.headers == h,
            params.headers is None ==> r.headers@.len() == 0,
            params.settings matches Some(s) ==> r.tenant == s.tenant && r.database == s.database,
            params.settings is None ==> r.tenant@ == "default_tenant"@ && r.database@
                == "default_database"@,
    {
        let mut path = String::from_str(if params.ssl { "https" } else { "http" });
        path.append("://");
        path.append(params.host.as_str());
        path.append(":");
        path.append(params.port.as_str());
        let settings = match params.settings {
            Some(s) => s,
            None => Settings::default(),
        };
        let headers = match params.headers {
            Some(h) => h,
            None => Vec::new(),
        };
        ChromaClient { path, headers, tenant: settings.tenant, database: settings.database }
    }
}

/// Whichever way the client is configured, its base address starts with
/// `https://` when TLS is asked for and with `http://` when it is not.
pub proof fn tls_selects_scheme(ssl: bool, host: Seq<char>, port: Seq<char>)
    ensures
        ssl ==> base_address(ssl, host, port).take(8) == "https://"@,
        !ssl ==> base_address(ssl, host, port).take(7) == "http://"@,
        base_address(ssl, host, port).take(5) == "https"@ <==> ssl,
{
    reveal_strlit("https");
    reveal_strlit("http");
    reveal_strlit("://");
    reveal_strlit("https://");
    reveal_strlit("http://");
    let a = base_address(ssl, host, port);
    if ssl {
        assert(a.take(8) =~= "https://"@);
        assert(a.take(5) =~= "https"@);
    } else {
        assert(a.take(7) =~= "http://"@);
        assert(a[4] == ':');
        assert("https"@[4] == 's');
        assert(a.take(5)[4] != "https"@[4]);
    }
}

/// Whether header-name character `c` matches `d`, ignoring ASCII case; `d`
/// is written in lower case.
pub open spec fn same_name_char(c: char, d: char) -> bool {
    c == d || ('a' <= d && d <= 'z' && c as u32 + 32 == d as u32)
}

/// Whether header name `a` equals `b`, ignoring ASCII case; `b` is written
/// in lower case.
pub open spec fn same_header_name(a: Seq<char>, b: Seq<char>) -> bool {
    a.len() == b.len() && forall|i: int| 0 <= i < a.len() ==> same_name_char(a[i], b[i])
}

/// Whether `name` is one of the `required` header names.
pub open spec fn is_required_name(name: Seq<char>, required: Seq<(Seq<char>, Seq<char>)>) -> bool {
    exists|j: int| 0 <= j < required.len() && same_header_name(name, required[j].0)
}

/// The static headers that a request keeps: those whose name is not among
/// the required ones, in their order.
pub open spec fn kept_headers(
    own: Seq<(Seq<char>, Seq<char>)>,
    required: Seq<(Seq<char>, Seq<char>)>,
) -> Seq<(Seq<char>, Seq<char>)>
    decreases own.len(),
{
    if own.len() == 0 {
        seq![]
    } else {
        let rest = kept_headers(own.drop_last(), required);
        if is_required_name(own.last().0, required) {
            rest
        } else {
            rest.push(own.last())
        }
    }
}

/// The headers of a request: the static headers that do not clash with a
/// required one, then the required ones. A static header never overrides a
/// required one.
pub open spec fn merged_headers(
    own: Seq<(Seq<char>, Seq<char>)>,
    required: Seq<(Seq<char>, Seq<char>)>,
) -> Seq<(Seq<char>, Seq<char>)> {
    kept_headers(own, required) + required
}

fn same_header_name_exec(a: &str, b: &str) -> (r: bool)
    ensures
        r == same_header_name(a@, b@),
{
    let n = a.unicode_len();
    if n != b.unicode_len() {
        return false;
    }
    let mut i: usize = 0;
    while i < n
        invariant
            n == a@.len(),
            n == b@.len(),
            i <= n,
            forall|k: int| 0 <= k < i ==> same_name_char(a@[k], b@[k]),
        decreases n - i,
    {
        let c = a.get_char(i);
        let d = b.get_char(i);
        let same = c == d || ('a' <= d && d <= 'z' && c as u32 + 32 == d as u32);
        if !same {
            return false;
        }
        i = i + 1;
    }
    true
}

fn is_required_name_exec(name: &str, required: &Vec<Header>) -> (r: bool)
    ensures
        r == is_required_name(name@, headers_view(required@)),
{
    let mut j: usize = 0;
    while j < required.len()
        invariant
            j <= required@.len(),
            forall|k: int|
                0 <= k < j ==> !same_header_name(name@, #[trigger] required@[k].0@),
        decreases required@.len() - j,
    {
        if same_header_name_exec(name, required[j].0.as_str()) {
            assert(headers_view(required@)[j as int].0 == required@[j as int].0@);
            return true;
        }
        j = j + 1;
    }
    assert forall|k: int| 0 <= k < headers_view(required@).len() implies !same_header_name(
        name@,
        headers_view(required@)[k].0,
    ) by {
        assert(headers_view(required@)[k].0 == required@[k].0@);
    }
    false
}

/// The headers of a request: the client's static headers without those that
/// `required` names, followed by `required`.
pub fn merge_headers(own: &Vec<Header>, required: Vec<Header>) -> (r: Vec<Header>)
    ensures
        headers_view(r@) == merged_headers(headers_view(own@), headers_view(required@)),
{
    let ghost req = headers_view(required@);
    let mut out: Vec<Header> = Vec::new();
    let mut i: usize = 0;
    while i < own.len()
        invariant
            i <= own@.len(),
            req == headers_view(required@),
            headers_view(out@) == kept_headers(headers_view(own@).take(i as int), req),
        decreases own@.len() - i,
    {
        let ghost before = out@;
        let required_here = is_required_name_exec(own[i].0.as_str(), &required);
        proof {
            let s = headers_view(own@).take(i as int + 1);
            assert(s.drop_last() =~= headers_view(own@).take(i as int));
            assert(s.last() == (own@[i as int].0@, own@[i as int].1@));
        }
        if !required_here {
            let h = (own[i].0.clone(), own[i].1.clone());
            out.push(h);
            assert(headers_view(out@) =~= headers_view(before).push(
                (own@[i as int].0@, own@[i as int].1@),
            ));
        }
        i = i + 1;
    }
    assert(headers_view(own@).take(own@.len() as int) =~= headers_view(own@));
    let ghost kept = out@;
    let mut required = required;
    out.append(&mut required);
    assert(headers_view(out@) =~= headers_view(kept) + req);
    out
}

/// The address that `url::Url::parse_with_params` makes of `input` and the
/// query pairs `params`, or `None` where `input` is no valid address.
pub uninterp spec fn url_with_params(
    input: Seq<char>,
    params: Seq<(Seq<char>, Seq<char>)>,
) -> Option<Seq<char>>;

/// Relies on `url::Url::parse_with_params`: parses `input` as an absolute
/// address and appends `params`, form-encoded, to its query. The address is
/// handed back in its serialised form, an error by its message.
#[verifier::external_body]
fn parse_with_params(input: &str, params: &Vec<Header>) -> (r: Result<String, String>)
    ensures
        match r {
            Ok(u) => url_with_params(input@, headers_view(params@)) == Some(u@),
            Err(_) => url_with_params(input@, headers_view(params@)) is None,
        },
{
    url::Url::parse_with_params(input, params.iter()).map(String::from).map_err(|e| e.to_string())
}

/// A lower-case hexadecimal digit `d < 16`.
pub open spec fn hex_char(d: nat) -> char {
    if d < 10 {
        digit_char(d)
    } else if d == 10 {
        'a'
    } else if d == 11 {
        'b'
    } else if d == 12 {
        'c'
    } else if d == 13 {
        'd'
    } else if d == 14 {
        'e'
    } else {
        'f'
    }
}

/// How one character stands inside a JSON string literal: `"` and `\` and
/// the control characters below U+0020 escaped (the short forms `\b`, `\t`,
/// `\n`, `\f`, `\r` where they exist, else `\u00xx`), every other
/// character as it is.
pub open spec fn escaped_char(c: char) -> Seq<char> {
    let u = c as u32;
    if c == '"' {
        seq!['\\', '"']
    } else if c == '\\' {
        seq!['\\', '\\']
    } else if u == 8 {
        seq!['\\', 'b']
    } else if u == 9 {
        seq!['\\', 't']
    } else if u == 10 {
        seq!['\\', 'n']
    } else if u == 12 {
        seq!['\\', 'f']
    } else if u == 13 {
        seq!['\\', 'r']
    } else if u < 32 {
        seq!['\\', 'u', '0', '0', hex_char((u / 16) as nat), hex_char((u % 16) as nat)]
    } else {
        seq![c]
    }
}

/// The characters of `s`, each escaped for a JSON string literal.
pub open spec fn escaped(s: Seq<char>) -> Seq<char>
    decreases s.len(),
{
    if s.len() == 0 {
        seq![]
    } else {
        escaped(s.drop_last()) + escaped_char(s.last())
    }
}

/// The JSON string literal of `s`: a quote, the escaped characters, a quote.
pub open spec fn json_string(s: Seq<char>) -> Seq<char> {
    seq!['"'] + escaped(s) + seq!['"']
}

/// Relies on `serde_json::to_string` on a `str`: it writes a quote, each
/// character through serde_json's escape table, and a quote, into a `Vec`,
/// which cannot fail.
#[verifier::external_body]
fn to_json_string(s: &str) -> (r: Result<String, String>)
    ensures
        r is Ok,
        r matches Ok(q) ==> q@ == json_string(s@),
{
    serde_json::to_string(s).map_err(|e| e.to_string())
}

/// The JSON literal of a boolean.
pub open spec fn bool_json(b: bool) -> Seq<char> {
    if b {
        "true"@
    } else {
        "false"@
    }
}

/// The JSON text of a metadata value.
pub open spec fn value_json(v: MetadataValue) -> Seq<char> {
    match v {
        MetadataValue::Str(s) => json_string(s@),
        MetadataValue::Int(i) => signed_decimal(i as int),
        MetadataValue::Number(t) => t@,
        MetadataValue::Bool(b) => bool_json(b),
    }
}

/// The JSON text of one metadata member, `"key":value`.
pub open spec fn entry_json(e: (String, MetadataValue)) -> Seq<char> {
    json_string(e.0@) + ":"@ + value_json(e.1)
}

/// The members of a JSON object, separated by commas.
pub open spec fn entries_json(m: Seq<(String, MetadataValue)>) -> Seq<char>
    decreases m.len(),
{
    if m.len() == 0 {
        seq![]
    } else if m.len() == 1 {
        entry_json(m[0])
    } else {
        entries_json(m.drop_last()) + ","@ + entry_json(m.last())
    }
}

/// The JSON text of optional metadata: `null` when absent, else an object.
pub open spec fn metadata_json(m: Option<CollectionMetadata>) -> Seq<char> {
    match m {
        None => "null"@,
        Some(m) => "{"@ + entries_json(m@) + "}"@,
    }
}

/// The JSON body that asks for a collection to be created.
pub open spec fn create_body_json(
    name: Seq<char>,
    metadata: Option<CollectionMetadata>,
    get_or_create: bool,
) -> Seq<char> {
    "{\"name\":"@ + json_string(name) + ",\"metadata\":"@ + metadata_json(metadata)
        + ",\"get_or_create\":"@ + bool_json(get_or_create) + "}"@
}

fn bool_text(b: bool) -> (r: String)
    ensures
        r@ == bool_json(b),
{
    String::from_str(if b { "true" } else { "false" })
}

fn json_text(s: &str) -> (r: String)
    ensures
        r@ == json_string(s@),
{
    match to_json_string(s) {
        Ok(q) => q,
        Err(_) => vstd::pervasive::unreached(),
    }
}

fn value_text(v: &MetadataValue) -> (r: String)
    ensures
        r@ == value_json(*v),
{
    match v {
        MetadataValue::Str(s) => json_text(s.as_str()),
        MetadataValue::Int(i) => signed_decimal_text(*i),
        MetadataValue::Number(t) => t.clone(),
        MetadataValue::Bool(b) => bool_text(*b),
    }
}

/// Writes optional metadata as JSON: `null` when absent, else an object
/// with the members in their order.
pub fn encode_metadata(metadata: &Option<CollectionMetadata>) -> (r: String)
    ensures
        r@ == metadata_json(*metadata),
{
    match metadata {
        None => String::from_str("null"),
        Some(m) => {
            let mut out = String::from_str("{");
            let mut i: usize = 0;
            while i < m.len()
                invariant
                    i <= m@.len(),
                    out@ == "{"@ + entries_json(m@.take(i as int)),
                decreases m@.len() - i,
            {
                let key = json_text(m[i].0.as_str());
                let value = value_text(&m[i].1);
                let ghost before = out@;
                if i > 0 {
                    out.append(",");
                }
                out.append(key.as_str());
                out.append(":");
                out.append(value.as_str());
                proof {
                    let s = m@.take(i as int + 1);
                    assert(s.drop_last() =~= m@.take(i as int));
                    assert(s.last() == m@[i as int]);
                    if i == 0 {
                        assert(m@.take(0) =~= Seq::<(String, MetadataValue)>::empty());
                        assert(s.len() == 1 && s[0] == m@[0]);
                    }
                }
                i = i + 1;
            }
            assert(m@.take(m@.len() as int) =~= m@);
            out.append("}");
            out
        },
    }
}

/// Writes the JSON body that asks for collection `name` to be created.
pub fn encode_create_body(
    name: &str,
    metadata: &Option<CollectionMetadata>,
    get_or_create: bool,
) -> (r: String)
    ensures
        r@ == create_body_json(name@, *metadata, get_or_create),
{
    let quoted = json_text(name);
    let meta = encode_metadata(metadata);
    let mut out = String::from_str("{\"name\":");
    out.append(quoted.as_str());
    out.append(",\"metadata\":");
    out.append(meta.as_str());
    out.append(",\"get_or_create\":");
    out.append(bool_text(get_or_create).as_str());
    out.append("}");
    out
}

/// The HTTP method of a request.
#[derive(Debug, Clone, Copy, PartialEq, Eq, Structural)]
pub enum Method {
    Get,
    Post,
    Delete,
}

/// A request ready to be sent: method, full address, headers and optional
/// JSON body.
#[derive(Debug, Clone)]
pub struct Request {
    pub method: Method,
    pub url: String,
    pub headers: Vec<Header>,
    pub body: Option<String>,
}

/// The query pairs that scope a collection call to the client's tenant and
/// database.
pub open spec fn scope_params(c: ChromaClient) -> Seq<(Seq<char>, Seq<char>)> {
    seq![("tenant"@, c.tenant@), ("database"@, c.database@)]
}

/// The header that asks for a JSON reply.
pub open spec fn accept_json() -> Seq<(Seq<char>, Seq<char>)> {
    seq![("accept"@, "application/json"@)]
}

/// The headers of a request that sends JSON and asks for a JSON reply.
pub open spec fn json_content() -> Seq<(Seq<char>, Seq<char>)> {
    seq![("accept"@, "application/json"@), ("content-type"@, "application/json"@)]
}

/// The address of the collections endpoint.
pub open spec fn collections_path(c: ChromaClient) -> Seq<char> {
    c.path@ + "/api/v1/collections"@
}

/// The address of the collection called `name`.
pub open spec fn collection_path(c: ChromaClient, name: Seq<char>) -> Seq<char> {
    c.path@ + "/api/v1/collections/"@ + name
}

fn accept_json_headers() -> (r: Vec<Header>)
    ensures
        headers_view(r@) == accept_json(),
{
    let r = vec![(String::from_str("accept"), String::from_str("application/json"))];
    assert(headers_view(r@) =~= accept_json());
    r
}

fn json_content_headers() -> (r: Vec<Header>)
    ensures
        headers_view(r@) == json_content(),
{
    let r = vec![
        (String::from_str("accept"), String::from_str("application/json")),
        (String::from_str("content-type"), String::from_str("application/json")),
    ];
    assert(headers_view(r@) =~= json_content());
    r
}

fn url_error(m: String) -> (r: ChromaClientError)
    ensures
        r == ChromaClientError::UrlParseError(m),
{
    ChromaClientError::UrlParseError(m)
}

impl ChromaClient {
    fn scope(&self) -> (r: Vec<Header>)
        ensures
            headers_view(r@) == scope_params(*self),
    {
        let r = vec![
            (String::from_str("tenant"), self.tenant.clone()),
            (String::from_str("database"), self.database.clone()),
        ];
        assert(headers_view(r@) =~= scope_params(*self));
        r
    }

    fn scoped_url(&self, input: &str) -> (r: Result<String, ChromaClientError>)
        ensures
            match r {
                Ok(u) => url_with_params(input@, scope_params(*self)) == Some(u@),
                Err(e) => e is UrlParseError && url_with_params(input@, scope_params(*self)) is None,
            },
    {
        let params = self.scope();
        match parse_with_params(input, &params) {
            Ok(u) => Ok(u),
            Err(m) => Err(url_error(m)),
        }
    }

    /// The liveness probe: `GET /api/v1/heartbeat` with the static headers.
    pub fn heartbeat_request(&self) -> (r: Request)
        ensures
            r.method == Method::Get,
            r.url@ == self.path@ + "/api/v1/heartbeat"@,
            headers_view(r.headers@) == headers_view(self.headers@),
            r.body is None,
    {
        let mut url = self.path.clone();
        url.append("/api/v1/heartbeat");
        let headers = merge_headers(&self.headers, Vec::new());
        proof {
            assert(headers_view(Seq::<Header>::empty()) =~= Seq::empty());
            lemma_nothing_required(headers_view(self.headers@));
            assert(merged_headers(headers_view(self.headers@), Seq::empty()) =~= headers_view(
                self.headers@,
            ));
        }
        Request { method: Method::Get, url, headers, body: None }
    }

    /// Creates collection `name` with optional metadata: `POST` to the
    /// collections endpoint in the client's scope, with a JSON body. With
    /// `get_or_create` the server hands back an existing collection of that
    /// name instead of refusing. Fails with `UrlParseError` exactly where the
    /// address cannot be built.
    pub fn create_collection_request(
        &self,
        name: &str,
        metadata: &Option<CollectionMetadata>,
        get_or_create: bool,
    ) -> (r: Result<Request, ChromaClientError>)
        ensures
            match r {
                Ok(q) => {
                    &&& q.method == Method::Post
                    &&& url_with_params(collections_path(*self), scope_params(*self)) == Some(
                        q.url@,
                    )
                    &&& headers_view(q.headers@) == merged_headers(
                        headers_view(self.headers@),
                        json_content(),
                    )
                    &&& q.body matches Some(b) && b@ == create_body_json(
                        name@,
                        *metadata,
                        get_or_create,
                    )
                },
                Err(e) => e is UrlParseError && url_with_params(
                    collections_path(*self),
                    scope_params(*self),
                ) is None,
            },
    {
        let mut input = self.path.clone();
        input.append("/api/v1/collections");
        let url = self.scoped_url(input.as_str())?;
        let body = encode_create_body(name, metadata, get_or_create);
        let headers = merge_headers(&self.headers, json_content_headers());
        Ok(Request { method: Method::Post, url, headers, body: Some(body) })
    }

    /// Reads collection `name`: `GET` on its address in the client's scope.
    /// Fails with `UrlParseError` exactly where the address cannot be built.
    pub fn get_collection_request(&self, name: &str) -> (r: Result<Request, ChromaClientError>)
        ensures
            match r {
                Ok(q) => {
                    &&& q.method == Method::Get
                    &&& url_with_params(collection_path(*self, name@), scope_params(*self))
                        == Some(q.url@)
                    &&& headers_view(q.headers@) == merged_headers(
                        headers_view(self.headers@),
                        accept_json(),
                    )
                    &&& q.body is None
                },
                Err(e) => e is UrlParseError && url_with_params(
                    collection_path(*self, name@),
                    scope_params(*self),
                ) is None,
            },
    {
        let mut input = self.path.clone();
        input.append("/api/v1/collections/");
        input.append(name);
        let url = self.scoped_url(input.as_str())?;
        let headers = merge_headers(&self.headers, accept_json_headers());
        Ok(Request { method: Method::Get, url, headers, body: None })
    }

    /// Lists the collections of the client's scope: `GET` on the collections
    /// endpoint. Fails with `UrlParseError` exactly where the address cannot
    /// be built.
    pub fn list_collections_request(&self) -> (r: Result<Request, ChromaClientError>)
        ensures
            match r {
                Ok(q) => {
                    &&& q.method == Method::Get
                    &&& url_with_params(collections_path(*self), scope_params(*self)) == Some(
                        q.url@,
                    )
                    &&& headers_view(q.headers@) == merged_headers(
                        headers_view(self.headers@),
                        accept_json(),
                    )
                    &&& q.body is None
                },
                Err(e) => e is UrlParseError && url_with_params(
                    collections_path(*self),
                    scope_params(*self),
                ) is None,
            },
    {
        let mut input = self.path.clone();
        input.append("/api/v1/collections");
        let url = self.scoped_url(input.as_str())?;
        let headers = merge_headers(&self.headers, accept_json_headers());
        Ok(Request { method: Method::Get, url, headers, body: None })
    }

    /// Deletes collection `name`: `DELETE` on its address in the client's
    /// scope. Fails with `UrlParseError` exactly where the address cannot be
    /// built.
    pub fn delete_collection_request(&self, name: &str) -> (r: Result<Request, ChromaClientError>)
        ensures
            match r {
                Ok(q) => {
                    &&& q.method == Method::Delete
                    &&& url_with_params(collection_path(*self, name@), scope_params(*self))
                        == Some(q.url@)
                    &&& headers_view(q.headers@) == merged_headers(
                        headers_view(self.headers@),
                        json_content(),
                    )
                    &&& q.body is None
                },
                Err(e) => e is UrlParseError && url_with_params(
                    collection_path(*self, name@),
                    scope_params(*self),
                ) is None,
            },
    {
        let mut input = self.path.clone();
        input.append("/api/v1/collections/");
        input.append(name);
        let url = self.scoped_url(input.as_str())?;
        let headers = merge_headers(&self.headers, json_content_headers());
        Ok(Request { method: Method::Delete, url, headers, body: None })
    }

    /// Deletes every collection and all their data: `POST /api/v1/reset`.
    pub fn reset_request(&self) -> (r: Request)
        ensures
            r.method == Method::Post,
            r.url@ == self.path@ + "/api/v1/reset"@,
            headers_view(r.headers@) == merged_headers(headers_view(self.headers@), accept_json()),
            r.body is None,
    {
        let mut url = self.path.clone();
        url.append("/api/v1/reset");
        let headers = merge_headers(&self.headers, accept_json_headers());
        Request { method: Method::Post, url, headers, body: None }
    }
}

/// With no required header, every static header is kept.
proof fn lemma_nothing_required(own: Seq<(Seq<char>, Seq<char>)>)
    ensures
        kept_headers(own, Seq::empty()) == own,
    decreases own.len(),
{
    if own.len() > 0 {
        lemma_nothing_required(own.drop_last());
        assert(own.drop_last().push(own.last()) =~= own);
    }
}

/// What reading and decoding a reply's body gave.
#[derive(Debug, Clone)]
pub enum Body<T> {
    /// The body could not be read.
    ReadFailed(String),
    /// The body was read but does not have the expected JSON shape.
    ParseFailed(String),
    /// The decoded body.
    Parsed(T),
}

/// What the transport brought back for one request.
#[derive(Debug, Clone)]
pub enum Reply<T> {
    /// The request could not be sent.
    SendFailed(String),
    /// The server answered with a status code and a body.
    Received(u16, Body<T>),
}

/// Whether a status code is in the success class `200..=299`.
pub open spec fn is_success(status: u16) -> bool {
    200 <= status && status <= 299
}

/// The message of a rejected operation `what`: the status code in decimal,
/// followed by `hint`.
pub open spec fn status_message(what: Seq<char>, status: u16, hint: Seq<char>) -> Seq<char> {
    "Failed to "@ + what + " with status code: "@ + decimal(status as nat) + hint
}

/// `r` is what a reply's body gives: the decoded value, or the error of the
/// step that failed.
pub open spec fn body_settles_as<T>(body: Body<T>, r: Result<T, ChromaClientError>) -> bool {
    match body {
        Body::ReadFailed(m) => r matches Err(ChromaClientError::ResponseError(e)) && e == m,
        Body::ParseFailed(m) => r matches Err(ChromaClientError::ResponseParseError(e)) && e == m,
        Body::Parsed(v) => r == Ok::<T, ChromaClientError>(v),
    }
}

/// `r` is the outcome of operation `what` that got `reply`: a transport
/// failure, a rejection by status with its message, or what the body gives.
pub open spec fn settles_as<T>(
    reply: Reply<T>,
    what: Seq<char>,
    hint: Seq<char>,
    r: Result<T, ChromaClientError>,
) -> bool {
    match reply {
        Reply::SendFailed(m) => r matches Err(ChromaClientError::RequestError(e)) && e == m,
        Reply::Received(status, body) => if is_success(status) {
            body_settles_as(body, r)
        } else {
            r matches Err(ChromaClientError::ResponseStatusError(e)) && e@ == status_message(
                what,
                status,
                hint,
            )
        },
    }
}

fn settle_body<T>(body: Body<T>) -> (r: Result<T, ChromaClientError>)
    ensures
        body_settles_as(body, r),
{
    match body {
        Body::ReadFailed(m) => Err(ChromaClientError::ResponseError(m)),
        Body::ParseFailed(m) => Err(ChromaClientError::ResponseParseError(m)),
        Body::Parsed(v) => Ok(v),
    }
}

fn settle<T>(reply: Reply<T>, what: &str, hint: &str) -> (r: Result<T, ChromaClientError>)
    ensures
        settles_as(reply, what@, hint@, r),
{
    match reply {
        Reply::SendFailed(m) => Err(ChromaClientError::RequestError(m)),
        Reply::Received(status, body) => {
            if 200 <= status && status <= 299 {
                settle_body(body)
            } else {
                let mut m = String::from_str("Failed to ");
                m.append(what);
                m.append(" with status code: ");
                m.append(decimal_text(status as u64).as_str());
                m.append(hint);
                Err(ChromaClientError::ResponseStatusError(m))
            }
        },
    }
}

/// `r` is the outcome of operation `what`, judged by the status code alone:
/// a transport failure, a rejection by status with its message, or success
/// whatever the body holds.
pub open spec fn settles_by_status(
    reply: Reply<()>,
    what: Seq<char>,
    hint: Seq<char>,
    r: Result<(), ChromaClientError>,
) -> bool {
    match reply {
        Reply::SendFailed(m) => r matches Err(ChromaClientError::RequestError(e)) && e == m,
        Reply::Received(status, _) => if is_success(status) {
            r == Ok::<(), ChromaClientError>(())
        } else {
            r matches Err(ChromaClientError::ResponseStatusError(e)) && e@ == status_message(
                what,
                status,
                hint,
            )
        },
    }
}

fn settle_by_status(reply: Reply<()>, what: &str, hint: &str) -> (r: Result<
    (),
    ChromaClientError,
>)
    ensures
        settles_by_status(reply, what@, hint@, r),
{
    match reply {
        Reply::SendFailed(m) => Err(ChromaClientError::RequestError(m)),
        Reply::Received(status, _) => settle(Reply::Received(status, Body::Parsed(())), what, hint),
    }
}

impl ChromaClient {
    /// The server's time in nanoseconds, from the reply to
    /// `heartbeat_request`. The status code is not consulted: a reply that
    /// does not decode fails with `ResponseParseError`.
    pub fn heartbeat_result(reply: Reply<u64>) -> (r: Result<u64, ChromaClientError>)
        ensures
            match reply {
                Reply::SendFailed(m) => r matches Err(ChromaClientError::RequestError(e)) && e
                    == m,
                Reply::Received(_, body) => body_settles_as(body, r),
            },
    {
        match reply {
            Reply::SendFailed(m) => Err(ChromaClientError::RequestError(m)),
            Reply::Received(_, body) => settle_body(body),
        }
    }

    /// The collection from the reply to `create_collection_request`. A
    /// status outside `200..=299`, as for a name that is taken when
    /// `get_or_create` is off, fails with `ResponseStatusError`.
    pub fn create_collection_result(reply: Reply<Collection>) -> (r: Result<
        Collection,
        ChromaClientError,
    >)
        ensures
            settles_as(reply, "create collection"@, ""@, r),
    {
        settle(reply, "create collection", "")
    }

    /// The collection from the reply to `get_collection_request`. A missing
    /// collection is answered with a status outside `200..=299` and fails
    /// with `ResponseStatusError`.
    pub fn get_collection_result(reply: Reply<Collection>) -> (r: Result<
        Collection,
        ChromaClientError,
    >)
        ensures
            settles_as(reply, "get collection"@, ""@, r),
    {
        settle(reply, "get collection", "")
    }

    /// The collections, in the server's order, from the reply to
    /// `list_collections_request`.
    pub fn list_collections_result(reply: Reply<Vec<Collection>>) -> (r: Result<
        Vec<Collection>,
        ChromaClientError,
    >)
        ensures
            settles_as(reply, "list collections"@, ""@, r),
    {
        settle(reply, "list collections", "")
    }

    /// The outcome of `delete_collection_request`, judged by the status code
    /// alone: the body, read or not, is not consulted.
    pub fn delete_collection_result(reply: Reply<()>) -> (r: Result<(), ChromaClientError>)
        ensures
            settles_by_status(reply, "delete collection"@, ""@, r),
    {
        settle_by_status(reply, "delete collection", "")
    }

    /// The outcome of `reset_request`, judged by the status code alone, the
    /// body not consulted. The
    /// message of a rejection reminds that the server must allow resets.
    pub fn reset_result(reply: Reply<()>) -> (r: Result<(), ChromaClientError>)
        ensures
            settles_by_status(reply, "reset"@, " - make sure `ALLOW_RESET=TRUE`"@, r),
    {
        settle_by_status(reply, "reset", " - make sure `ALLOW_RESET=TRUE`")
    }
}

/// An operation that the server answers with a status outside `200..=299`
/// never succeeds, whatever the body holds: it fails with
/// `ResponseStatusError`, and the message holds the status code in decimal.
pub proof fn rejection_names_status<T>(
    status: u16,
    body: Body<T>,
    what: Seq<char>,
    hint: Seq<char>,
    r: Result<T, ChromaClientError>,
)
    requires
        !is_success(status),
        settles_as(Reply::Received(status, body), what, hint, r),
    ensures
        r matches Err(ChromaClientError::ResponseStatusError(m)) && exists|i: int|
            0 <= i && i + decimal(status as nat).len() <= m@.len() && #[trigger] m@.subrange(
                i,
                i + decimal(status as nat).len(),
            ) == decimal(status as nat),
{
    if let Err(ChromaClientError::ResponseStatusError(m)) = r {
        let d = decimal(status as nat);
        let i = ("Failed to "@ + what + " with status code: "@).len() as int;
        assert(m@.subrange(i, i + d.len()) =~= d);
    }
}

/// A delete or a reset that the server answers with a status outside
/// `200..=299` never succeeds: it fails with `ResponseStatusError`, and the
/// message holds the status code in decimal.
pub proof fn status_rejection_names_status(
    status: u16,
    body: Body<()>,
    what: Seq<char>,
    hint: Seq<char>,
    r: Result<(), ChromaClientError>,
)
    requires
        !is_success(status),
        settles_by_status(Reply::Received(status, body), what, hint, r),
    ensures
        r matches Err(ChromaClientError::ResponseStatusError(m)) && exists|i: int|
            0 <= i && i + decimal(status as nat).len() <= m@.len() && #[trigger] m@.subrange(
                i,
                i + decimal(status as nat).len(),
            ) == decimal(status as nat),
{
    if let Err(ChromaClientError::ResponseStatusError(m)) = r {
        let d = decimal(status as nat);
        let i = ("Failed to "@ + what + " with status code: "@).len() as int;
        assert(m@.subrange(i, i + d.len()) =~= d);
    }
}

/// A collection that a read hands back with a success status is the one the
/// server described, metadata included: nothing of it is dropped or replaced.
pub proof fn read_keeps_collection(
    status: u16,
    c: Collection,
    r: Result<Collection, ChromaClientError>,
)
    requires
        is_success(status),
        settles_as(Reply::Received(status, Body::Parsed(c)), "get collection"@, ""@, r),
    ensures
        r matches Ok(got) && got.name == c.name && got.id == c.id && got.metadata == c.metadata,
{
}

/// A listing with a success status holds exactly the entries that the server
/// sent, as many and in the same order.
pub proof fn list_keeps_every_entry(
    status: u16,
    listed: Vec<Collection>,
    r: Result<Vec<Collection>, ChromaClientError>,
)
    requires
        is_success(status),
        settles_as(Reply::Received(status, Body::Parsed(listed)), "list collections"@, ""@, r),
    ensures
        r matches Ok(got) && got@.len() == listed@.len() && forall|i: int|
            0 <= i < listed@.len() ==> got@[i] == listed@[i],
{
}

/// The body that creates a collection carries its metadata, written as
/// JSON, after the `"metadata":` member name.
pub proof fn create_body_carries_metadata(
    name: Seq<char>,
    metadata: Option<CollectionMetadata>,
    get_or_create: bool,
)
    ensures
        ({
            let body = create_body_json(name, metadata, get_or_create);
            let start = ("{\"name\":"@ + json_string(name) + ",\"metadata\":"@).len() as int;
            &&& start + metadata_json(metadata).len() <= body.len()
            &&& body.subrange(start, start + metadata_json(metadata).len()) == metadata_json(
                metadata,
            )
        }),
{
    let body = create_body_json(name, metadata, get_or_create);
    let start = ("{\"name\":"@ + json_string(name) + ",\"metadata\":"@).len() as int;
    assert(body.subrange(start, start + metadata_json(metadata).len()) =~= metadata_json(
        metadata,
    ));
}

} // verus!
