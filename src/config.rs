use vstd::prelude::*;
use vstd::string::{StringExecFns, StringSliceAdditionalSpecFns};
use vstd::utf8::encode_utf8;

verus! {

/// The host segment of the base URL: the API CDN or the live API.
pub open spec fn host_of(cdn: bool) -> Seq<char> {
    if cdn {
        "apicdn"@
    } else {
        "api"@
    }
}

/// `https://{project}.{api|apicdn}.sanity.io/v{api}/data`
pub open spec fn base_url_of(project: Seq<char>, api: Seq<char>, cdn: bool) -> Seq<char> {
    "https://"@ + project + "."@ + host_of(cdn) + ".sanity.io/v"@ + api + "/data"@
}

/// Builds the base URL of a project, an API version and a host choice.
pub fn build_base_url(project: &str, api: &str, cdn: bool) -> (r: String)
    ensures
        r@ == base_url_of(project@, api@, cdn),
{
    let mut r = String::from_str("https://");
    r.append(project);
    r.append(".");
    if cdn {
        r.append("apicdn");
    } else {
        r.append("api");
    }
    r.append(".sanity.io/v");
    r.append(api);
    r.append("/data");
    r
}

/// The two endpoints that requests are sent to.
#[derive(Clone, Copy, Debug, PartialEq, Eq, Structural)]
pub enum Endpoint {
    /// GROQ queries.
    Query,
    /// Documents fetched by id.
    Doc,
}

/// The path segment of an endpoint.
pub open spec fn endpoint_name(e: Endpoint) -> Seq<char> {
    match e {
        Endpoint::Query => "query"@,
        Endpoint::Doc => "doc"@,
    }
}

impl Endpoint {
    pub fn name(&self) -> (r: &'static str)
        ensures
            r@ == endpoint_name(*self),
    {
        match self {
            Endpoint::Query => "query",
            Endpoint::Doc => "doc",
        }
    }
}

/// The value of the `Authorization` header for a bearer token.
pub open spec fn bearer_value(token: Seq<char>) -> Seq<char> {
    "Bearer "@ + token
}

/// A byte that an HTTP header value may hold: a visible character, a space,
/// a tab, or a byte of 128 and above.
pub open spec fn header_byte_ok(b: u8) -> bool {
    (b >= 32 && b != 127) || b == 9
}

pub open spec fn header_bytes_ok(bs: Seq<u8>) -> bool {
    forall|i: int| 0 <= i < bs.len() ==> header_byte_ok(#[trigger] bs[i])
}

/// A token whose bearer value can stand in an HTTP header.
pub open spec fn token_acceptable(token: Seq<char>) -> bool {
    header_bytes_ok(encode_utf8(bearer_value(token)))
}

/// Relies on reqwest::header::HeaderValue::from_str, which accepts a string
/// exactly when each of its bytes is a tab or at least 32 and not 127.
#[verifier::external_body]
fn header_value_accepts(s: &str) -> (r: bool)
    ensures
        r == header_bytes_ok(s.spec_bytes()),
{
    reqwest::header::HeaderValue::from_str(s).is_ok()
}

/// Builds the `Authorization` header value of a token.
pub fn bearer_of(token: &str) -> (r: String)
    ensures
        r@ == bearer_value(token@),
{
    let mut r = String::from_str("Bearer ");
    r.append(token);
    r
}

/// Whether a token can be sent in an `Authorization` header.
pub fn token_is_valid(token: &str) -> (r: bool)
    ensures
        r == token_acceptable(token@),
{
    let v = bearer_of(token);
    header_value_accepts(v.as_str())
}

/// A GET request ready to be sent: its full URL and its `Authorization`
/// header, if any.
pub struct PreparedRequest {
    pub url: String,
    pub authorization: Option<String>,
}

pub struct RequestView {
    pub url: Seq<char>,
    pub authorization: Option<Seq<char>>,
}

impl View for PreparedRequest {
    type V = RequestView;

    open spec fn view(&self) -> RequestView {
        RequestView { url: self.url@, authorization: opt_view(self.authorization) }
    }
}

/// What a configuration holds: the base URL is derived from it.
pub struct ConfigView {
    pub project: Seq<char>,
    pub dataset: Seq<char>,
    pub api: Seq<char>,
    pub cdn: bool,
    pub token: Option<Seq<char>>,
}

/// Project, dataset, API version, host choice and bearer token of a client.
pub struct Configuration {
    base: String,
    project: String,
    dataset: String,
    api: String,
    cdn: bool,
    token: Option<String>,
}

pub open spec fn opt_view(o: Option<String>) -> Option<Seq<char>> {
    match o {
        Some(s) => Some(s@),
        None => None,
    }
}

/// The same configuration with the host choice replaced.
pub open spec fn cdn_set(c: ConfigView, cdn: bool) -> ConfigView {
    ConfigView { cdn, ..c }
}

/// The same configuration with a bearer token.
pub open spec fn token_set(c: ConfigView, token: Seq<char>) -> ConfigView {
    ConfigView { token: Some(token), ..c }
}

/// The `Authorization` header that requests of a configuration carry.
pub open spec fn authorization_of(c: ConfigView) -> Option<Seq<char>> {
    match c.token {
        Some(t) => Some(bearer_value(t)),
        None => None,
    }
}

/// `{base}/{endpoint}/{dataset}/{path}`
pub open spec fn request_url_of(c: ConfigView, e: Endpoint, path: Seq<char>) -> Seq<char> {
    base_url_of(c.project, c.api, c.cdn) + "/"@ + endpoint_name(e) + "/"@ + c.dataset + "/"@ + path
}

/// The request of a configuration to an endpoint, with a path.
pub open spec fn request_of(c: ConfigView, e: Endpoint, path: Seq<char>) -> RequestView {
    RequestView { url: request_url_of(c, e, path), authorization: authorization_of(c) }
}

impl View for Configuration {
    type V = ConfigView;

    closed spec fn view(&self) -> ConfigView {
        ConfigView {
            project: self.project@,
            dataset: self.dataset@,
            api: self.api@,
            cdn: self.cdn,
            token: opt_view(self.token),
        }
    }
}

impl Configuration {
    #[verifier::type_invariant]
    spec fn inv(&self) -> bool {
        self.base@ == base_url_of(self.project@, self.api@, self.cdn)
    }

    pub fn new(project: &str, dataset: &str, api: &str) -> (r: Configuration)
        ensures
            r@ == (ConfigView { project: project@, dataset: dataset@, api: api@, cdn: false, token: None }),
    {
        Configuration {
            base: build_base_url(project, api, false),
            project: String::from_str(project),
            dataset: String::from_str(dataset),
            api: String::from_str(api),
            cdn: false,
            token: None,
        }
    }

    fn copy_token(&self) -> (r: Option<String>)
        ensures
            opt_view(r) == self@.token,
    {
        match &self.token {
            Some(t) => Some(t.clone()),
            None => None,
        }
    }

    /// A new configuration that uses the API CDN or not; all else is kept.
    pub fn with_cdn(&self, use_cdn: bool) -> (r: Configuration)
        ensures
            r@ == cdn_set(self@, use_cdn),
    {
        Configuration {
            base: build_base_url(self.project.as_str(), self.api.as_str(), use_cdn),
            project: self.project.clone(),
            dataset: self.dataset.clone(),
            api: self.api.clone(),
            cdn: use_cdn,
            token: self.copy_token(),
        }
    }

    /// A new configuration whose requests carry the bearer token; all else
    /// is kept.
    pub fn with_token(&self, token: &str) -> (r: Configuration)
        requires
            token_acceptable(token@),
        ensures
            r@ == token_set(self@, token@),
    {
        proof { use_type_invariant(self); }
        Configuration {
            base: self.base.clone(),
            project: self.project.clone(),
            dataset: self.dataset.clone(),
            api: self.api.clone(),
            cdn: self.cdn,
            token: Some(String::from_str(token)),
        }
    }

    /// The request to `{base}/{endpoint}/{dataset}/{path}`, with the bearer
    /// header where a token is set.
    pub fn build_request(&self, endpoint: Endpoint, path: &str) -> (r: PreparedRequest)
        ensures
            r@ == request_of(self@, endpoint, path@),
    {
        proof { use_type_invariant(self); }
        let mut url = self.base.clone();
        url.append("/");
        url.append(endpoint.name());
        url.append("/");
        url.append(self.dataset.as_str());
        url.append("/");
        url.append(path);
        let authorization = match &self.token {
            Some(t) => Some(bearer_of(t.as_str())),
            None => None,
        };
        PreparedRequest { url, authorization }
    }

    pub fn base_url(&self) -> (r: &str)
        ensures
            r@ == base_url_of(self@.project, self@.api, self@.cdn),
    {
        proof { use_type_invariant(self); }
        self.base.as_str()
    }

    pub fn project(&self) -> (r: &str)
        ensures
            r@ == self@.project,
    {
        self.project.as_str()
    }

    pub fn dataset(&self) -> (r: &str)
        ensures
            r@ == self@.dataset,
    {
        self.dataset.as_str()
    }

    pub fn api_version(&self) -> (r: &str)
        ensures
            r@ == self@.api,
    {
        self.api.as_str()
    }

    pub fn use_cdn(&self) -> (r: bool)
        ensures
            r == self@.cdn,
    {
        self.cdn
    }

    pub fn token(&self) -> (r: Option<&str>)
        ensures
            r matches Some(t) ==> self@.token == Some(t@),
            r is None ==> self@.token is None,
    {
        match &self.token {
            Some(t) => Some(t.as_str()),
            None => None,
        }
    }
}

} // verus!
