use vstd::prelude::*;
use vstd::string::*;

use crate::auth::token_header_name;
use crate::builder::GritlabBuilder;
use crate::config::{join_url, url_join, Config, ConfigView};
use crate::error::{Error, Result};
use crate::hook::{hook_option_json, opt_text, CreateHookOption};
use crate::text::{decimal, i64_decimal, push_decimal, signed_decimal};

verus! {

/// The HTTP methods that the API calls use.
#[derive(Clone, Copy, Debug, PartialEq, Eq, Structural)]
pub enum Method {
    Get,
    Post,
    Delete,
}

/// What a planned request holds, as plain values.
#[verifier::ext_equal]
pub struct ApiRequestView {
    pub method: Method,
    pub url: Seq<char>,
    pub header: (Seq<char>, Seq<char>),
    pub query: Seq<(Seq<char>, Seq<char>)>,
    pub body: Option<Seq<char>>,
    pub context: Seq<char>,
}

/// A request ready to be sent: method, absolute URL, the authorization
/// header, query pairs, an optional JSON body, and the context text that
/// prefixes the error made from a non-success answer.
#[derive(Debug)]
pub struct ApiRequest {
    pub method: Method,
    pub url: String,
    pub header: (String, String),
    pub query: Vec<(String, String)>,
    pub body: Option<String>,
    pub context: String,
}

pub open spec fn pair_view(p: (String, String)) -> (Seq<char>, Seq<char>) {
    (p.0@, p.1@)
}

impl View for ApiRequest {
    type V = ApiRequestView;

    open spec fn view(&self) -> ApiRequestView {
        ApiRequestView {
            method: self.method,
            url: self.url@,
            header: pair_view(self.header),
            query: self.query@.map_values(|p: (String, String)| pair_view(p)),
            body: match self.body {
                Some(b) => Some(b@),
                None => None,
            },
            context: self.context@,
        }
    }
}

/// The fixed, versioned root under which every API path is resolved.
pub open spec fn api_root() -> Seq<char> {
    seq!['a', 'p', 'i', '/', 'v', '4', '/']
}

/// The absolute URL of the API path `rel` on the server at `base`.
pub open spec fn api_url_of(base: Seq<char>, rel: Seq<char>) -> Option<Seq<char>> {
    match url_join(base, api_root()) {
        Some(root) => url_join(root, rel),
        None => None,
    }
}

pub open spec fn starts_with_slash(s: Seq<char>) -> bool {
    s.len() > 0 && s[0] == '/'
}

/// What planning a call returns: a validation error for a path that starts
/// with `/`, a URL error where the URL cannot be resolved, an unauthorized
/// error where no token is set, and otherwise the request with the given
/// method, query, body and context, the resolved URL and the token header.
pub open spec fn planned(
    conf: ConfigView,
    method: Method,
    rel: Seq<char>,
    query: Seq<(Seq<char>, Seq<char>)>,
    body: Option<Seq<char>>,
    context: Seq<char>,
    r: Result<ApiRequest>,
) -> bool {
    if starts_with_slash(rel) {
        r matches Err(Error::Other(_))
    } else {
        match api_url_of(conf.base_url, rel) {
            None => r matches Err(Error::UrlParse(_)),
            Some(u) => match conf.token {
                None => r matches Err(Error::Unauthorized(_)),
                Some(t) => r matches Ok(q) && q@ == (ApiRequestView {
                    method,
                    url: u,
                    header: (token_header_name(), t),
                    query,
                    body,
                    context,
                }),
            },
        }
    }
}

/// The single path segment `{owner}%2F{repo}` that addresses a project.
pub open spec fn repo_path_of(owner: Seq<char>, repo: Seq<char>) -> Seq<char> {
    owner + seq!['%', '2', 'F'] + repo
}

/// The project segment: owner and repository joined by an encoded `/`.
pub fn repo_path(owner: &str, repo: &str) -> (r: String)
    ensures
        r@ == repo_path_of(owner@, repo@),
{
    proof {
        reveal_strlit("%2F");
    }
    let r = String::from_str(owner).concat("%2F").concat(repo);
    assert(r@ =~= repo_path_of(owner@, repo@));
    r
}

/// The reason phrase that `http` registers for a status code, if any.
pub uninterp spec fn canonical_reason_of(code: u16) -> Option<Seq<char>>;

/// Relies on `http::StatusCode::canonical_reason` (through
/// `StatusCode::from_u16`, which refuses codes outside 100..=999): the
/// reason phrase of `code`.
#[verifier::external_body]
fn canonical_reason(code: u16) -> (r: Option<String>)
    ensures
        opt_text(r) == canonical_reason_of(code),
{
    match http::StatusCode::from_u16(code) {
        Ok(s) => s.canonical_reason().map(String::from),
        Err(_) => None,
    }
}

/// Whether a status code is in the success range 200..=299.
pub open spec fn is_success(code: u16) -> bool {
    200 <= code && code < 300
}

/// How a status shows: `404 Not Found`, or the code and
/// `<unknown status code>` where no reason phrase is registered.
pub open spec fn status_line(code: u16, reason: Option<Seq<char>>) -> Seq<char> {
    decimal(code as nat) + seq![' '] + match reason {
        Some(t) => t,
        None => "<unknown status code>"@,
    }
}

/// The text of a remote API error: `{context}: [{status}] {body}`.
pub open spec fn api_error_text(
    context: Seq<char>,
    code: u16,
    reason: Option<Seq<char>>,
    body: Seq<char>,
) -> Seq<char> {
    context + seq![':', ' ', '['] + status_line(code, reason) + seq![']', ' '] + body
}

/// The remote API error for a non-success answer with status `code`, whose
/// reason phrase is `reason`, and the raw body `body`.
pub fn api_error(context: &str, code: u16, reason: Option<String>, body: &str) -> (r: Error)
    ensures
        r matches Error::GitlabError(m) && m@ == api_error_text(
            context@,
            code,
            opt_text(reason),
            body@,
        ),
{
    proof {
        reveal_strlit(": [");
        reveal_strlit(" ");
        reveal_strlit("] ");
    }
    let mut m = String::from_str(context);
    m.append(": [");
    push_decimal(&mut m, code as u64);
    m.append(" ");
    match reason {
        Some(t) => m.append(t.as_str()),
        None => m.append("<unknown status code>"),
    }
    m.append("] ");
    m.append(body);
    assert(m@ =~= api_error_text(context@, code, opt_text(reason), body@));
    Error::GitlabError(m)
}

/// Checks an answer: its body, where the status is a success, to be
/// decoded by the caller; otherwise the remote API error that carries
/// `err_mes`, the status and the whole body.
pub fn resp_json(status: u16, body: String, err_mes: &str) -> (r: Result<String>)
    ensures
        if is_success(status) {
            r matches Ok(b) && b@ == body@
        } else {
            r matches Err(Error::GitlabError(m)) && m@ == api_error_text(
                err_mes@,
                status,
                canonical_reason_of(status),
                body@,
            )
        },
{
    if 200 <= status && status < 300 {
        Ok(body)
    } else {
        Err(api_error(err_mes, status, canonical_reason(status), body.as_str()))
    }
}

/// Checks an answer whose body is of no use on success.
pub fn check_success(status: u16, body: &str, err_mes: &str) -> (r: Result<()>)
    ensures
        if is_success(status) {
            r is Ok
        } else {
            r matches Err(Error::GitlabError(m)) && m@ == api_error_text(
                err_mes@,
                status,
                canonical_reason_of(status),
                body@,
            )
        },
{
    if 200 <= status && status < 300 {
        Ok(())
    } else {
        Err(api_error(err_mes, status, canonical_reason(status), body))
    }
}

/// The API path of a project: `projects/{owner}%2F{repo}`.
pub open spec fn project_path(owner: Seq<char>, repo: Seq<char>) -> Seq<char> {
    "projects/"@ + repo_path_of(owner, repo)
}

/// `projects/{owner}%2F{repo}` followed by `tail`.
fn project_path_with(owner: &str, repo: &str, tail: &str) -> (r: String)
    ensures
        r@ == project_path(owner@, repo@) + tail@,
        r@.len() > 0 && r@[0] == 'p',
{
    proof {
        reveal_strlit("projects/");
    }
    let r = String::from_str("projects/").concat(repo_path(owner, repo).as_str()).concat(tail);
    assert(r@ =~= project_path(owner@, repo@) + tail@);
    assert(r@[0] == 'p');
    r
}

/// A planned request with the given context text.
fn with_context(q: ApiRequest, context: String) -> (r: ApiRequest)
    ensures
        r@ == (ApiRequestView { context: context@, ..q@ }),
{
    ApiRequest { context, ..q }
}

/// A client of the API: it holds the configuration and plans each call.
#[derive(Clone, Debug)]
pub struct Gritlab {
    conf: Config,
}

impl View for Gritlab {
    type V = ConfigView;

    closed spec fn view(&self) -> ConfigView {
        self.conf@
    }
}

impl Gritlab {
    /// A builder for a client of the server at `host`.
    pub fn builder(host: &str) -> (r: GritlabBuilder)
        ensures
            r@.host == host@,
            r@.scheme == seq!['h', 't', 't', 'p', 's'],
            r@.token is None,
    {
        GritlabBuilder::new(host)
    }

    pub fn new(conf: Config) -> (r: Self)
        ensures
            r@ == conf@,
    {
        Gritlab { conf }
    }

    /// A snapshot of the configuration.
    pub fn r_conf(&self) -> (r: Result<Config>)
        ensures
            r matches Ok(c) && c@ == self@,
    {
        Ok(self.conf.duplicate())
    }

    /// `rel` resolved against the server's base URL.
    pub fn abs_url(&self, rel_url: &str) -> (r: Result<String>)
        ensures
            match r {
                Ok(u) => url_join(self@.base_url, rel_url@) == Some(u@),
                Err(e) => url_join(self@.base_url, rel_url@) is None && e is UrlParse,
            },
    {
        match join_url(self.conf.base_url.as_str(), rel_url) {
            Ok(u) => Ok(u),
            Err(e) => Err(Error::UrlParse(e)),
        }
    }

    /// `rel` resolved against the versioned API root of the server.
    pub fn api_url(&self, rel_url: &str) -> (r: Result<String>)
        ensures
            match r {
                Ok(u) => api_url_of(self@.base_url, rel_url@) == Some(u@),
                Err(e) => api_url_of(self@.base_url, rel_url@) is None && e is UrlParse,
            },
    {
        proof {
            reveal_strlit("api/v4/");
            assert("api/v4/"@ =~= api_root());
        }
        let root = self.abs_url("api/v4/")?;
        match join_url(root.as_str(), rel_url) {
            Ok(u) => Ok(u),
            Err(e) => Err(Error::UrlParse(e)),
        }
    }

    /// The authorization header pair of the configured credential.
    pub fn headers(&self) -> (r: Result<(String, String)>)
        ensures
            match self@.token {
                Some(t) => r matches Ok((name, value)) && name@ == token_header_name()
                    && value@ == t,
                None => r matches Err(Error::Unauthorized(_)),
            },
    {
        self.conf.token.headers()
    }

    /// Plans a request with `method` to the API path `rel_url`, which must
    /// not start with `/`. The request has the token header and nothing
    /// else yet; it is not sent.
    pub fn request(&self, method: Method, rel_url: &str) -> (r: Result<ApiRequest>)
        ensures
            planned(self@, method, rel_url@, seq![], None, seq![], r),
    {
        if rel_url.unicode_len() > 0 && rel_url.get_char(0) == '/' {
            return Err(Error::Other(String::from_str("rel_url shouldn't starts_with /")));
        }
        let url = self.api_url(rel_url)?;
        let header = self.headers()?;
        let r = ApiRequest {
            method,
            url,
            header,
            query: Vec::new(),
            body: None,
            context: String::new(),
        };
        assert(r@.query =~= seq![]);
        Ok(r)
    }
    /// Plans the lookup of the user who owns the token.
    pub fn current_user(&self) -> (r: Result<ApiRequest>)
        ensures
            planned(self@, Method::Get, "user"@, seq![], None, "get user failed"@, r),
    {
        proof {
            reveal_strlit("user");
        }
        let q = self.request(Method::Get, "user")?;
        Ok(with_context(q, String::from_str("get user failed")))
    }

    /// Plans the listing of the repositories that the user can see; list
    /// options go into the query.
    pub fn list_repos(&self) -> (r: Result<ApiRequest>)
        ensures
            planned(self@, Method::Get, "projects"@, seq![], None, "list repos failed"@, r),
    {
        proof {
            reveal_strlit("projects");
        }
        let q = self.request(Method::Get, "projects")?;
        Ok(with_context(q, String::from_str("list repos failed")))
    }

    /// Plans a search of the repositories by `query`.
    pub fn search_repos(&self, query: &str) -> (r: Result<ApiRequest>)
        ensures
            planned(
                self@,
                Method::Get,
                "projects"@,
                seq![("search"@, query@)],
                None,
                "search repos failed"@,
                r,
            ),
    {
        proof {
            reveal_strlit("projects");
        }
        let q = self.request(Method::Get, "projects")?;
        let q = with_context(q, String::from_str("search repos failed"));
        let r = ApiRequest {
            query: vec![(String::from_str("search"), String::from_str(query))],
            ..q
        };
        assert(r@.query =~= seq![("search"@, query@)]);
        Ok(r)
    }

    /// Plans the lookup of the repository `owner/repo`.
    pub fn get_repo(&self, owner: &str, repo: &str) -> (r: Result<ApiRequest>)
        ensures
            planned(
                self@,
                Method::Get,
                project_path(owner@, repo@),
                seq![],
                None,
                "get repo failed"@,
                r,
            ),
    {
        let path = project_path_with(owner, repo, "");
        proof {
            reveal_strlit("");
            assert(path@ =~= project_path(owner@, repo@));
        }
        let q = self.request(Method::Get, path.as_str())?;
        Ok(with_context(q, String::from_str("get repo failed")))
    }

    /// Plans the creation of a webhook on `owner/repo`; the options travel
    /// as the JSON body.
    pub fn create_hook(&self, owner: &str, repo: &str, opt: &CreateHookOption) -> (r: Result<
        ApiRequest,
    >)
        ensures
            planned(
                self@,
                Method::Post,
                project_path(owner@, repo@) + "/hooks"@,
                seq![],
                Some(hook_option_json(*opt)),
                "create hook failed"@,
                r,
            ),
    {
        let path = project_path_with(owner, repo, "/hooks");
        let q = self.request(Method::Post, path.as_str())?;
        let q = with_context(q, String::from_str("create hook failed"));
        Ok(ApiRequest { body: Some(opt.to_json()), ..q })
    }

    /// Plans the removal of the webhook `id` of `owner/repo`.
    pub fn delete_hook(&self, owner: &str, repo: &str, id: i64) -> (r: Result<ApiRequest>)
        ensures
            planned(
                self@,
                Method::Delete,
                project_path(owner@, repo@) + "/hooks/"@ + signed_decimal(id as int),
                seq![],
                None,
                "delete hook-"@ + signed_decimal(id as int) + " failed"@,
                r,
            ),
    {
        let id_text = i64_decimal(id);
        let path = project_path_with(owner, repo, "/hooks/").concat(id_text.as_str());
        assert(path@[0] == 'p');
        let q = self.request(Method::Delete, path.as_str())?;
        let context = String::from_str("delete hook-").concat(id_text.as_str()).concat(" failed");
        Ok(with_context(q, context))
    }

    /// Plans the listing of the webhooks of `owner/repo`.
    pub fn list_hooks(&self, owner: &str, repo: &str) -> (r: Result<ApiRequest>)
        ensures
            planned(
                self@,
                Method::Get,
                project_path(owner@, repo@) + "/hooks"@,
                seq![],
                None,
                "list repo hooks failed"@,
                r,
            ),
    {
        let path = project_path_with(owner, repo, "/hooks");
        let q = self.request(Method::Get, path.as_str())?;
        Ok(with_context(q, String::from_str("list repo hooks failed")))
    }

    /// Plans the listing of the commits of `owner/repo`; list options go
    /// into the query.
    pub fn list_repo_commits(&self, owner: &str, repo: &str) -> (r: Result<ApiRequest>)
        ensures
            planned(
                self@,
                Method::Get,
                project_path(owner@, repo@) + "/repository/commits"@,
                seq![],
                None,
                "failed to list repo commits"@,
                r,
            ),
    {
        let path = project_path_with(owner, repo, "/repository/commits");
        let q = self.request(Method::Get, path.as_str())?;
        Ok(with_context(q, String::from_str("failed to list repo commits")))
    }

    /// Plans the listing of the statuses of `commit` in `owner/repo`.
    pub fn list_statuses(&self, owner: &str, repo: &str, commit: &str) -> (r: Result<ApiRequest>)
        ensures
            planned(
                self@,
                Method::Get,
                project_path(owner@, repo@) + "/repository/commits/"@ + commit@ + "/statuses"@,
                seq![],
                None,
                "get status of commit-"@ + commit@ + " failed"@,
                r,
            ),
    {
        let path = project_path_with(owner, repo, "/repository/commits/").concat(commit).concat(
            "/statuses",
        );
        assert(path@[0] == 'p');
        let q = self.request(Method::Get, path.as_str())?;
        let context = String::from_str("get status of commit-").concat(commit).concat(" failed");
        Ok(with_context(q, context))
    }

    /// Plans the creation of a status of `commit` in `owner/repo`; `opt_json`
    /// is the JSON text of the status options and travels as the body.
    pub fn create_status(&self, owner: &str, repo: &str, commit: &str, opt_json: &str) -> (r:
        Result<ApiRequest>)
        ensures
            planned(
                self@,
                Method::Post,
                project_path(owner@, repo@) + "/statuses/"@ + commit@,
                seq![],
                Some(opt_json@),
                "create status of commit-"@ + commit@ + " failed"@,
                r,
            ),
    {
        let path = project_path_with(owner, repo, "/statuses/").concat(commit);
        assert(path@[0] == 'p');
        let q = self.request(Method::Post, path.as_str())?;
        let context = String::from_str("create status of commit-").concat(commit).concat(" failed");
        let q = with_context(q, context);
        Ok(ApiRequest { body: Some(String::from_str(opt_json)), ..q })
    }
}

} // verus!
