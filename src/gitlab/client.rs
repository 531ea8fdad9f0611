//! The API client: a validated base URL, one authentication method and an
//! HTTP transport; the request each operation sends and how a response is
//! classified.

use crate::error::Error;
use crate::gitlab::auth::AuthMethod;
use crate::gitlab::projects::opt_view;
use crate::text::{decimal, decimal_string, join2, owned, same_text, starts_with};
use crate::gitlab::transport::http_client;
use vstd::prelude::*;
use vstd::utf8::encode_utf8;

verus! {

#[verifier::external_type_specification]
#[verifier::external_body]
pub struct ExUrlParseError(url::ParseError);

/// What `url::Url::parse` makes of a string: the serialized URL, its
/// scheme and its host; `None` when parsing fails.
pub uninterp spec fn url_components(s: Seq<char>) -> Option<(Seq<char>, Seq<char>, Option<Seq<char>>)>;

/// A byte that percent-encoding leaves as it is: `A-Z a-z 0-9 - . _ ~`.
pub open spec fn is_unreserved(b: u8) -> bool {
    (48 <= b <= 57) || (65 <= b <= 90) || (97 <= b <= 122) || b == 45 || b == 46 || b == 95
        || b == 126
}

/// An upper-case hexadecimal digit.
pub open spec fn hex_digit(d: u8) -> char {
    if d < 10 {
        (d + 48) as u8 as char
    } else {
        (d + 55) as u8 as char
    }
}

/// Bytes percent-encoded: an unreserved byte stays, every other byte
/// becomes `%` and two upper-case hexadecimal digits.
pub open spec fn percent_encode_bytes(b: Seq<u8>) -> Seq<char>
    decreases b.len(),
{
    if b.len() == 0 {
        Seq::empty()
    } else {
        let x = b.last();
        percent_encode_bytes(b.drop_last()) + if is_unreserved(x) {
            seq![x as char]
        } else {
            seq!['%', hex_digit(x / 16), hex_digit(x % 16)]
        }
    }
}

/// The percent-encoding of the UTF-8 bytes of a string.
pub open spec fn percent_encoded(s: Seq<char>) -> Seq<char> {
    percent_encode_bytes(encode_utf8(s))
}

/// The member `key` of the JSON object in `body`, as
/// `serde_json::Value::get` and `Value::as_str` give it: `None` when the
/// body is not JSON or has no such member, `Some(None)` when the member is
/// not a string.
pub uninterp spec fn json_member_text(body: Seq<char>, key: Seq<char>) -> Option<Option<Seq<char>>>;

/// Relies on `url::Url::parse` and the accessors `Url::as_str`,
/// `Url::scheme` and `Url::host_str`.
#[verifier::external_body]
fn parse_url(s: &str) -> (r: Result<(String, String, Option<String>), url::ParseError>)
    ensures
        match r {
            Ok((text, scheme, host)) => url_components(s@) == Some((text@, scheme@, opt_view(host))),
            Err(_) => url_components(s@) is None,
        },
{
    url::Url::parse(s).map(
        |u| (u.as_str().to_string(), u.scheme().to_string(), u.host_str().map(|h| h.to_string())),
    )
}

/// Relies on `urlencoding::encode`: each UTF-8 byte outside
/// `A-Z a-z 0-9 - . _ ~` becomes `%` and two upper-case hexadecimal digits.
#[verifier::external_body]
fn url_encode(s: &str) -> (r: String)
    ensures
        r@ == percent_encoded(s@),
{
    urlencoding::encode(s).into_owned()
}

/// Relies on `serde_json::from_str::<serde_json::Value>`, `Value::get` and
/// `Value::as_str`.
#[verifier::external_body]
fn json_member(body: &str, key: &str) -> (r: Option<Option<String>>)
    ensures
        match r {
            Some(Some(s)) => json_member_text(body@, key@) == Some(Some(s@)),
            Some(None) => json_member_text(body@, key@) == Some(None::<Seq<char>>),
            None => json_member_text(body@, key@) is None,
        },
{
    match serde_json::from_str::<serde_json::Value>(body) {
        Ok(v) => v.get(key).map(|m| m.as_str().map(|s| s.to_string())),
        Err(_) => None,
    }
}

/// Request timeout unless the builder sets one: 30 seconds.
pub const DEFAULT_TIMEOUT_MILLIS: u64 = 30000;

/// The request timeout a client uses: the one set, or the default.
pub open spec fn timeout_in_effect(set: Option<u64>) -> u64 {
    match set {
        Some(t) => t,
        None => DEFAULT_TIMEOUT_MILLIS,
    }
}

/// The request timeout a client uses, as `timeout_in_effect` states it.
pub fn effective_timeout(set: Option<u64>) -> (r: u64)
    ensures
        r == timeout_in_effect(set),
{
    match set {
        Some(t) => t,
        None => DEFAULT_TIMEOUT_MILLIS,
    }
}

/// Idle connections kept per host.
pub const MAX_IDLE_PER_HOST: usize = 4;

/// A host on which plain HTTP is accepted.
pub open spec fn is_local_host(h: Seq<char>) -> bool {
    h == "localhost"@ || h == "127.0.0.1"@ || ("192.168."@.len() <= h.len() && h.subrange(
        0,
        "192.168."@.len() as int,
    ) == "192.168."@)
}

/// The transport security rule: plain HTTP only to a local host, unless
/// insecure connections were allowed explicitly.
pub open spec fn transport_allowed(scheme: Seq<char>, host: Option<Seq<char>>, allow_insecure: bool) -> bool {
    scheme != "http"@ || allow_insecure || is_local_host(
        match host {
            Some(h) => h,
            None => Seq::empty(),
        },
    )
}

/// The base URL without one trailing `/`.
pub open spec fn base_trimmed(b: Seq<char>) -> Seq<char> {
    if b.len() > 0 && b.last() == '/' {
        b.drop_last()
    } else {
        b
    }
}

/// The URL of an API path: the base URL, `/api/v4`, then the path.
pub open spec fn api_url_spec(base: Seq<char>, path: Seq<char>) -> Seq<char> {
    base_trimmed(base) + "/api/v4"@ + path
}

/// The message of a failed response: the JSON `message` member, else the
/// `error` member, when it is a string; otherwise the body itself.
pub open spec fn error_message(body: Seq<char>) -> Seq<char> {
    match json_member_text(body, "message"@) {
        Some(Some(m)) => m,
        Some(None) => body,
        None => match json_member_text(body, "error"@) {
            Some(Some(m)) => m,
            _ => body,
        },
    }
}

/// A 2xx status.
pub open spec fn is_success(status: u16) -> bool {
    200 <= status <= 299
}

/// HTTP method of a request.
#[derive(Debug, Clone, Copy, PartialEq, Eq, Structural)]
pub enum Method {
    Get,
    Post,
    Put,
    Delete,
}

/// One operation of the management API.
#[derive(Debug)]
pub enum Endpoint {
    CurrentUser,
    ListUsers,
    UserByUsername(String),
    User(u64),
    CreateUser,
    DeleteUser(u64),
    CreateUserToken(u64),
    ListMyTokens,
    RevokeToken(u64),
    ListProjects,
    ProjectByPath(String),
    NamespaceByPath(String),
    Project(u64),
    CreateProject,
    DeleteProject(u64),
    ConfigureMirror(u64),
    TriggerMirrorPull(u64),
    ListRunners,
    ProjectRunners(u64),
    Runner(u64),
    RegisterRunner,
    UpdateRunner(u64),
    DeleteRunner(u64),
    ResetRunnerToken,
}

impl Endpoint {
    /// The method the operation uses.
    pub open spec fn method_spec(&self) -> Method {
        match self {
            Endpoint::CreateUser | Endpoint::CreateUserToken(_) | Endpoint::CreateProject
            | Endpoint::TriggerMirrorPull(_) | Endpoint::RegisterRunner
            | Endpoint::ResetRunnerToken => Method::Post,
            Endpoint::ConfigureMirror(_) | Endpoint::UpdateRunner(_) => Method::Put,
            Endpoint::DeleteUser(_) | Endpoint::RevokeToken(_) | Endpoint::DeleteProject(_)
            | Endpoint::DeleteRunner(_) => Method::Delete,
            _ => Method::Get,
        }
    }

    /// The path under `/api/v4`.
    pub open spec fn path_spec(&self) -> Seq<char> {
        match self {
            Endpoint::CurrentUser => "/user"@,
            Endpoint::ListUsers => "/users"@,
            Endpoint::UserByUsername(u) => "/users?username="@ + u@,
            Endpoint::User(id) => "/users/"@ + decimal(*id as nat),
            Endpoint::CreateUser => "/users"@,
            Endpoint::DeleteUser(id) => "/users/"@ + decimal(*id as nat),
            Endpoint::CreateUserToken(id) => "/users/"@ + decimal(*id as nat)
                + "/personal_access_tokens"@,
            Endpoint::ListMyTokens => "/personal_access_tokens"@,
            Endpoint::RevokeToken(id) => "/personal_access_tokens/"@ + decimal(*id as nat),
            Endpoint::ListProjects => "/projects?per_page=100"@,
            Endpoint::ProjectByPath(p) => "/projects/"@ + percent_encoded(p@),
            Endpoint::NamespaceByPath(p) => "/namespaces/"@ + percent_encoded(p@),
            Endpoint::Project(id) => "/projects/"@ + decimal(*id as nat),
            Endpoint::CreateProject => "/projects"@,
            Endpoint::DeleteProject(id) => "/projects/"@ + decimal(*id as nat),
            Endpoint::ConfigureMirror(id) => "/projects/"@ + decimal(*id as nat),
            Endpoint::TriggerMirrorPull(id) => "/projects/"@ + decimal(*id as nat)
                + "/mirror/pull"@,
            Endpoint::ListRunners => "/runners/all?per_page=100"@,
            Endpoint::ProjectRunners(id) => "/projects/"@ + decimal(*id as nat) + "/runners"@,
            Endpoint::Runner(id) => "/runners/"@ + decimal(*id as nat),
            Endpoint::RegisterRunner => "/runners"@,
            Endpoint::UpdateRunner(id) => "/runners/"@ + decimal(*id as nat),
            Endpoint::DeleteRunner(id) => "/runners/"@ + decimal(*id as nat),
            Endpoint::ResetRunnerToken => "/runners/reset_registration_token"@,
        }
    }

    /// Whether the request carries the client's authentication header;
    /// runner registration authenticates by a token in its body instead.
    pub open spec fn authenticated_spec(&self) -> bool {
        !(self is RegisterRunner)
    }

    /// The method the operation uses.
    pub fn method(&self) -> (r: Method)
        ensures
            r == self.method_spec(),
    {
        match self {
            Endpoint::CreateUser | Endpoint::CreateUserToken(_) | Endpoint::CreateProject
            | Endpoint::TriggerMirrorPull(_) | Endpoint::RegisterRunner
            | Endpoint::ResetRunnerToken => Method::Post,
            Endpoint::ConfigureMirror(_) | Endpoint::UpdateRunner(_) => Method::Put,
            Endpoint::DeleteUser(_) | Endpoint::RevokeToken(_) | Endpoint::DeleteProject(_)
            | Endpoint::DeleteRunner(_) => Method::Delete,
            _ => Method::Get,
        }
    }

    /// Whether the request carries the client's authentication header.
    pub fn authenticated(&self) -> (r: bool)
        ensures
            r == self.authenticated_spec(),
    {
        match self {
            Endpoint::RegisterRunner => false,
            _ => true,
        }
    }

    /// The path under `/api/v4`.
    pub fn path(&self) -> (r: String)
        ensures
            r@ == self.path_spec(),
    {
        match self {
            Endpoint::CurrentUser => owned("/user"),
            Endpoint::ListUsers => owned("/users"),
            Endpoint::UserByUsername(u) => join2("/users?username=", u.as_str()),
            Endpoint::User(id) => id_path("/users/", *id),
            Endpoint::CreateUser => owned("/users"),
            Endpoint::DeleteUser(id) => id_path("/users/", *id),
            Endpoint::CreateUserToken(id) => join2(id_path("/users/", *id).as_str(), "/personal_access_tokens"),
            Endpoint::ListMyTokens => owned("/personal_access_tokens"),
            Endpoint::RevokeToken(id) => id_path("/personal_access_tokens/", *id),
            Endpoint::ListProjects => owned("/projects?per_page=100"),
            Endpoint::ProjectByPath(p) => join2("/projects/", url_encode(p.as_str()).as_str()),
            Endpoint::NamespaceByPath(p) => join2("/namespaces/", url_encode(p.as_str()).as_str()),
            Endpoint::Project(id) => id_path("/projects/", *id),
            Endpoint::CreateProject => owned("/projects"),
            Endpoint::DeleteProject(id) => id_path("/projects/", *id),
            Endpoint::ConfigureMirror(id) => id_path("/projects/", *id),
            Endpoint::TriggerMirrorPull(id) => join2(id_path("/projects/", *id).as_str(), "/mirror/pull"),
            Endpoint::ListRunners => owned("/runners/all?per_page=100"),
            Endpoint::ProjectRunners(id) => join2(id_path("/projects/", *id).as_str(), "/runners"),
            Endpoint::Runner(id) => id_path("/runners/", *id),
            Endpoint::RegisterRunner => owned("/runners"),
            Endpoint::UpdateRunner(id) => id_path("/runners/", *id),
            Endpoint::DeleteRunner(id) => id_path("/runners/", *id),
            Endpoint::ResetRunnerToken => owned("/runners/reset_registration_token"),
        }
    }
}

fn id_path(prefix: &str, id: u64) -> (r: String)
    ensures
        r@ == prefix@ + decimal(id as nat),
{
    join2(prefix, decimal_string(id).as_str())
}

/// One request, ready for the transport.
#[derive(Debug)]
pub struct ApiCall {
    pub method: Method,
    pub url: String,
    /// The authentication header, name and value.
    pub header: Option<(String, String)>,
}

/// The API client. Once built, its base URL has passed the transport
/// security rule; it holds no state between calls.
#[derive(Debug)]
pub struct GitLabClient {
    http: reqwest::Client,
    base_url: String,
    scheme: String,
    host: Option<String>,
    allow_insecure: bool,
    auth: AuthMethod,
    timeout_millis: u64,
}

impl GitLabClient {
    /// The serialized base URL.
    pub closed spec fn base_url_spec(&self) -> Seq<char> {
        self.base_url@
    }

    /// The authentication method.
    pub closed spec fn auth_spec(&self) -> AuthMethod {
        self.auth
    }

    /// The request timeout handed to the transport, in milliseconds.
    pub closed spec fn timeout_spec(&self) -> u64 {
        self.timeout_millis
    }

    /// The base URL's scheme and host passed the transport security rule.
    pub closed spec fn secure(&self) -> bool {
        transport_allowed(self.scheme@, opt_view(self.host), self.allow_insecure)
    }

    /// A builder with no settings.
    pub fn builder() -> (r: GitLabClientBuilder)
        ensures
            r.url_spec() is None,
            r.auth_spec() is None,
            !r.insecure_allowed(),
            r.timeout_spec() is None,
    {
        GitLabClientBuilder { base_url: None, auth: None, timeout: None, allow_insecure: false }
    }

    /// The serialized base URL.
    pub fn base_url(&self) -> (r: &str)
        ensures
            r@ == self.base_url_spec(),
    {
        self.base_url.as_str()
    }

    /// The authentication method.
    pub fn auth(&self) -> (r: &AuthMethod)
        ensures
            *r == self.auth_spec(),
    {
        &self.auth
    }

    /// The request timeout, in milliseconds.
    pub fn timeout_millis(&self) -> (r: u64)
        ensures
            r == self.timeout_spec(),
    {
        self.timeout_millis
    }

    /// The HTTP transport.
    pub fn http(&self) -> &reqwest::Client {
        &self.http
    }

    /// The URL of an API path.
    pub fn api_url(&self, path: &str) -> (r: String)
        ensures
            r@ == api_url_spec(self.base_url_spec(), path@),
    {
        let b = self.base_url.as_str();
        let n = b.unicode_len();
        let trimmed = if n > 0 && b.get_char(n - 1) == '/' {
            b.substring_char(0, n - 1)
        } else {
            b
        };
        proof {
            assert(b@.subrange(0, b@.len() - 1) =~= b@.drop_last());
        }
        let mut r = owned(trimmed);
        r.append("/api/v4");
        r.append(path);
        r
    }

    /// The request for an operation: its method, its URL, and the
    /// authentication header unless the operation authenticates otherwise.
    pub fn request(&self, endpoint: &Endpoint) -> (r: ApiCall)
        ensures
            r.method == endpoint.method_spec(),
            r.url@ == api_url_spec(self.base_url_spec(), endpoint.path_spec()),
            match r.header {
                Some((name, value)) => endpoint.authenticated_spec() && name@
                    == self.auth_spec().header_name_spec() && value@
                    == self.auth_spec().header_value_spec(),
                None => !endpoint.authenticated_spec(),
            },
    {
        let path = endpoint.path();
        let url = self.api_url(path.as_str());
        let header = if endpoint.authenticated() {
            Some((owned(self.auth.header_name()), self.auth.header_value()))
        } else {
            None
        };
        ApiCall { method: endpoint.method(), url, header }
    }
}

/// Builder of a client.
pub struct GitLabClientBuilder {
    base_url: Option<(String, String, Option<String>)>,
    auth: Option<AuthMethod>,
    timeout: Option<u64>,
    allow_insecure: bool,
}

impl GitLabClientBuilder {
    /// The parsed base URL: serialized form, scheme, host.
    pub closed spec fn url_spec(&self) -> Option<(Seq<char>, Seq<char>, Option<Seq<char>>)> {
        match self.base_url {
            Some((t, s, h)) => Some((t@, s@, opt_view(h))),
            None => None,
        }
    }

    /// The authentication method, if set.
    pub closed spec fn auth_spec(&self) -> Option<AuthMethod> {
        self.auth
    }

    /// The request timeout set, in milliseconds.
    pub closed spec fn timeout_spec(&self) -> Option<u64> {
        self.timeout
    }

    /// Whether plain HTTP to any host was allowed.
    pub closed spec fn insecure_allowed(&self) -> bool {
        self.allow_insecure
    }

    /// Whether `build` refuses the settings with a configuration error:
    /// a missing URL or method, or plain HTTP to a remote host that was
    /// not allowed.
    pub open spec fn refused(&self) -> bool {
        match self.url_spec() {
            None => true,
            Some((_, scheme, host)) => self.auth_spec() is None || !transport_allowed(
                scheme,
                host,
                self.insecure_allowed(),
            ),
        }
    }

    /// Sets the base URL; a configuration error when it does not parse.
    pub fn base_url(self, url: &str) -> (r: Result<GitLabClientBuilder, Error>)
        ensures
            match url_components(url@) {
                Some(c) => r is Ok && r->Ok_0.url_spec() == Some(c) && r->Ok_0.auth_spec()
                    == self.auth_spec() && r->Ok_0.insecure_allowed() == self.insecure_allowed()
                    && r->Ok_0.timeout_spec() == self.timeout_spec(),
                None => r is Err && r->Err_0 is Config,
            },
    {
        match parse_url(url) {
            Ok(parts) => Ok(GitLabClientBuilder { base_url: Some(parts), ..self }),
            Err(_) => Err(Error::Config(join2("Invalid base URL: ", url))),
        }
    }

    /// Sets the authentication method.
    pub fn auth(self, auth: AuthMethod) -> (r: GitLabClientBuilder)
        ensures
            r.auth_spec() == Some(auth),
            r.url_spec() == self.url_spec(),
            r.insecure_allowed() == self.insecure_allowed(),
            r.timeout_spec() == self.timeout_spec(),
    {
        GitLabClientBuilder { auth: Some(auth), ..self }
    }

    /// Sets the request timeout, in milliseconds (30 seconds unless set).
    pub fn timeout(self, millis: u64) -> (r: GitLabClientBuilder)
        ensures
            r.timeout_spec() == Some(millis),
            r.auth_spec() == self.auth_spec(),
            r.url_spec() == self.url_spec(),
            r.insecure_allowed() == self.insecure_allowed(),
    {
        GitLabClientBuilder { timeout: Some(millis), ..self }
    }

    /// Allows plain HTTP; meant for local development only.
    pub fn allow_insecure_localhost(self) -> (r: GitLabClientBuilder)
        ensures
            r.insecure_allowed(),
            r.auth_spec() == self.auth_spec(),
            r.url_spec() == self.url_spec(),
            r.timeout_spec() == self.timeout_spec(),
    {
        GitLabClientBuilder { allow_insecure: true, ..self }
    }

    /// Builds the client. Refused settings give a configuration error;
    /// otherwise the client keeps the URL and method and uses the timeout
    /// set or the 30-second default, unless the transport cannot be set up.
    pub fn build(self) -> (r: Result<GitLabClient, Error>)
        ensures
            self.refused() ==> r is Err && r->Err_0 is Config,
            !self.refused() ==> match r {
                Ok(c) => c.secure() && Some(c.auth_spec()) == self.auth_spec() && match self.url_spec() {
                    Some((text, _, _)) => c.base_url_spec() == text,
                    None => false,
                } && c.timeout_spec() == timeout_in_effect(self.timeout_spec()),
                Err(e) => e is Http,
            },
    {
        let (base_url, scheme, host) = match self.base_url {
            Some(parts) => parts,
            None => {
                return Err(Error::Config(owned("base_url required")));
            },
        };
        let auth = match self.auth {
            Some(a) => a,
            None => {
                return Err(Error::Config(owned("auth required")));
            },
        };
        if same_text(scheme.as_str(), "http") {
            let h = match &host {
                Some(h) => h.as_str(),
                None => "",
            };
            proof {
                reveal_strlit("");
                assert(""@ =~= Seq::<char>::empty());
                assert(h@ == match opt_view(host) {
                    Some(x) => x,
                    None => Seq::<char>::empty(),
                });
            }
            let local = same_text(h, "localhost") || same_text(h, "127.0.0.1") || starts_with(
                h,
                "192.168.",
            );
            proof {
                reveal_strlit("");
            }
            if !local && !self.allow_insecure {
                let mut msg = owned("HTTP not allowed for non-localhost: ");
                msg.append(h);
                msg.append(". Use HTTPS or allow_insecure_localhost()");
                return Err(Error::Config(msg));
            }
        }
        let timeout_millis = effective_timeout(self.timeout);
        match http_client(timeout_millis, MAX_IDLE_PER_HOST) {
            Ok(http) => Ok(
                GitLabClient {
                    http,
                    base_url,
                    scheme,
                    host,
                    allow_insecure: self.allow_insecure,
                    auth,
                    timeout_millis,
                },
            ),
            Err(e) => Err(e),
        }
    }
}

/// The message of a failed response, as `error_message` states it.
pub fn response_message(body: &str) -> (r: String)
    ensures
        r@ == error_message(body@),
{
    match json_member(body, "message") {
        Some(Some(m)) => m,
        Some(None) => owned(body),
        None => match json_member(body, "error") {
            Some(Some(m)) => m,
            _ => owned(body),
        },
    }
}

/// Classifies a response: a 2xx status is success; any other status is
/// the error that reports it, with the message taken from the body.
pub fn check_response(status: u16, body: &str) -> (r: Result<(), Error>)
    ensures
        match r {
            Ok(()) => is_success(status),
            Err(e) => !is_success(status) && e.reports(status, error_message(body@)),
        },
{
    if 200 <= status && status <= 299 {
        Ok(())
    } else {
        let message = response_message(body);
        let e = Error::from_status(status, message);
        Err(e)
    }
}

/// A lookup that may legitimately find nothing: not-found becomes `None`,
/// every other error is passed on unchanged.
pub fn not_found_as_none<T>(r: Result<T, Error>) -> (o: Result<Option<T>, Error>)
    ensures
        match r {
            Ok(v) => o == Ok::<Option<T>, Error>(Some(v)),
            Err(e) => if e is UserNotFound {
                o == Ok::<Option<T>, Error>(None)
            } else {
                o == Err::<Option<T>, Error>(e)
            },
        },
{
    match r {
        Ok(v) => Ok(Some(v)),
        Err(Error::UserNotFound(_)) => Ok(None),
        Err(e) => Err(e),
    }
}

/// Plain HTTP to a host that is not local is refused exactly when
/// insecure connections were not allowed.
pub proof fn lemma_plain_http_refusal(b: GitLabClientBuilder, text: Seq<char>, host: Seq<char>)
    requires
        b.url_spec() == Some((text, "http"@, Some(host))),
        !is_local_host(host),
        b.auth_spec() is Some,
    ensures
        b.refused() == !b.insecure_allowed(),
{
}

} // verus!
