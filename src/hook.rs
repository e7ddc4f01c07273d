use vstd::prelude::*;
use vstd::string::*;

verus! {

/// The JSON text of a string value: quoted, with the characters that JSON
/// requires escaped.
pub uninterp spec fn json_quoted(s: Seq<char>) -> Seq<char>;

/// Relies on `serde_json`'s printing of a string value (the `Display` of
/// `Value::String`): the JSON text of `s`.
#[verifier::external_body]
fn json_string(s: &str) -> (r: String)
    ensures
        r@ == json_quoted(s@),
{
    serde_json::Value::String(s.to_string()).to_string()
}

/// The view of an optional text.
pub open spec fn opt_text(o: Option<String>) -> Option<Seq<char>> {
    match o {
        Some(s) => Some(s@),
        None => None,
    }
}

/// `"key":` as JSON text.
pub open spec fn json_key(key: Seq<char>) -> Seq<char> {
    seq!['"'] + key + seq!['"', ':']
}

pub open spec fn json_bool(b: bool) -> Seq<char> {
    if b {
        seq!['t', 'r', 'u', 'e']
    } else {
        seq!['f', 'a', 'l', 's', 'e']
    }
}

/// A boolean member that follows an earlier one; nothing where it is absent.
pub open spec fn bool_member(key: Seq<char>, v: Option<bool>) -> Seq<char> {
    match v {
        Some(b) => seq![','] + json_key(key) + json_bool(b),
        None => seq![],
    }
}

/// A text member that follows an earlier one; nothing where it is absent.
pub open spec fn text_member(key: Seq<char>, v: Option<Seq<char>>) -> Seq<char> {
    match v {
        Some(s) => seq![','] + json_key(key) + json_quoted(s),
        None => seq![],
    }
}

/// The options of a new webhook. Absent options are left out of the JSON
/// body, so the server applies its own defaults.
#[derive(Clone, Debug)]
pub struct CreateHookOption {
    pub url: String,
    pub confidential_issues_events: Option<bool>,
    pub confidential_note_events: Option<bool>,
    pub deployment_events: Option<bool>,
    pub enable_ssl_verification: Option<bool>,
    pub issues_events: Option<bool>,
    pub job_events: Option<bool>,
    pub merge_requests_events: Option<bool>,
    pub note_events: Option<bool>,
    pub pipeline_events: Option<bool>,
    pub push_events_branch_filter: Option<String>,
    pub push_events: Option<bool>,
    pub releases_events: Option<bool>,
    pub tag_push_events: Option<bool>,
    pub token: Option<String>,
    pub wiki_page_events: Option<bool>,
}

/// The JSON object of a hook option: `url` first, then each present option
/// in declaration order; absent options do not appear, not even as `null`.
pub open spec fn hook_option_json(o: CreateHookOption) -> Seq<char> {
    seq!['{'] + json_key("url"@) + json_quoted(o.url@)
        + bool_member("confidential_issues_events"@, o.confidential_issues_events)
        + bool_member("confidential_note_events"@, o.confidential_note_events)
        + bool_member("deployment_events"@, o.deployment_events)
        + bool_member("enable_ssl_verification"@, o.enable_ssl_verification)
        + bool_member("issues_events"@, o.issues_events)
        + bool_member("job_events"@, o.job_events)
        + bool_member("merge_requests_events"@, o.merge_requests_events)
        + bool_member("note_events"@, o.note_events)
        + bool_member("pipeline_events"@, o.pipeline_events)
        + text_member("push_events_branch_filter"@, opt_text(o.push_events_branch_filter))
        + bool_member("push_events"@, o.push_events)
        + bool_member("releases_events"@, o.releases_events)
        + bool_member("tag_push_events"@, o.tag_push_events)
        + text_member("token"@, opt_text(o.token))
        + bool_member("wiki_page_events"@, o.wiki_page_events) + seq!['}']
}

/// Whether `o` holds what `CreateHookOption::new` gives for `url` and
/// `token`: push events and TLS verification on, every other option absent.
pub open spec fn is_default_option(o: CreateHookOption, url: Seq<char>, token: Option<Seq<char>>) -> bool {
    &&& o.url@ == url
    &&& opt_text(o.token) == token
    &&& o.push_events == Some(true)
    &&& o.enable_ssl_verification == Some(true)
    &&& o.confidential_issues_events is None
    &&& o.confidential_note_events is None
    &&& o.deployment_events is None
    &&& o.issues_events is None
    &&& o.job_events is None
    &&& o.merge_requests_events is None
    &&& o.note_events is None
    &&& o.pipeline_events is None
    &&& o.push_events_branch_filter is None
    &&& o.releases_events is None
    &&& o.tag_push_events is None
    &&& o.wiki_page_events is None
}

fn push_key(s: &mut String, key: &str)
    ensures
        final(s)@ == old(s)@ + seq![','] + json_key(key@),
{
    proof {
        reveal_strlit(",\"");
        reveal_strlit("\":");
    }
    s.append(",\"");
    s.append(key);
    s.append("\":");
    assert(s@ =~= old(s)@ + seq![','] + json_key(key@));
}

fn push_bool_member(s: &mut String, key: &str, v: Option<bool>)
    ensures
        final(s)@ == old(s)@ + bool_member(key@, v),
{
    match v {
        Some(b) => {
            push_key(s, key);
            proof {
                reveal_strlit("true");
                reveal_strlit("false");
            }
            if b {
                s.append("true");
            } else {
                s.append("false");
            }
        },
        None => {
            assert(s@ =~= old(s)@ + bool_member(key@, v));
        },
    }
}

fn push_text_member(s: &mut String, key: &str, v: &Option<String>)
    ensures
        final(s)@ == old(s)@ + text_member(key@, opt_text(*v)),
{
    match v {
        Some(t) => {
            push_key(s, key);
            let q = json_string(t.as_str());
            s.append(q.as_str());
        },
        None => {
            assert(s@ =~= old(s)@ + text_member(key@, opt_text(*v)));
        },
    }
}

impl CreateHookOption {
    /// Options for a hook that posts to `url`, signed with `token`: push
    /// events and TLS verification on, every other option left to the server.
    pub fn new(url: &str, token: Option<String>) -> (r: Self)
        ensures
            is_default_option(r, url@, opt_text(token)),
    {
        CreateHookOption {
            url: String::from_str(url),
            confidential_issues_events: None,
            confidential_note_events: None,
            deployment_events: None,
            enable_ssl_verification: Some(true),
            issues_events: None,
            job_events: None,
            merge_requests_events: None,
            note_events: None,
            pipeline_events: None,
            push_events_branch_filter: None,
            push_events: Some(true),
            releases_events: None,
            tag_push_events: None,
            token,
            wiki_page_events: None,
        }
    }

    /// The JSON body that carries these options.
    pub fn to_json(&self) -> (r: String)
        ensures
            r@ == hook_option_json(*self),
    {
        proof {
            reveal_strlit("{\"url\":");
            reveal_strlit("}");
        }
        let mut s = String::from_str("{\"url\":");
        assert(s@ =~= seq!['{'] + json_key("url"@)) by {
            reveal_strlit("url");
        }
        let u = json_string(self.url.as_str());
        s.append(u.as_str());
        push_bool_member(&mut s, "confidential_issues_events", self.confidential_issues_events);
        push_bool_member(&mut s, "confidential_note_events", self.confidential_note_events);
        push_bool_member(&mut s, "deployment_events", self.deployment_events);
        push_bool_member(&mut s, "enable_ssl_verification", self.enable_ssl_verification);
        push_bool_member(&mut s, "issues_events", self.issues_events);
        push_bool_member(&mut s, "job_events", self.job_events);
        push_bool_member(&mut s, "merge_requests_events", self.merge_requests_events);
        push_bool_member(&mut s, "note_events", self.note_events);
        push_bool_member(&mut s, "pipeline_events", self.pipeline_events);
        push_text_member(&mut s, "push_events_branch_filter", &self.push_events_branch_filter);
        push_bool_member(&mut s, "push_events", self.push_events);
        push_bool_member(&mut s, "releases_events", self.releases_events);
        push_bool_member(&mut s, "tag_push_events", self.tag_push_events);
        push_text_member(&mut s, "token", &self.token);
        push_bool_member(&mut s, "wiki_page_events", self.wiki_page_events);
        s.append("}");
        assert(s@ =~= hook_option_json(*self));
        s
    }
}

/// The body made from the options that `CreateHookOption::new` gives holds
/// `url`, `enable_ssl_verification: true`, `push_events: true` and, where a
/// token is given, `token`, in that order; every option that `new` leaves
/// absent is absent from the body.
pub proof fn lemma_default_option_json(o: CreateHookOption, url: Seq<char>, token: Option<Seq<char>>)
    requires
        is_default_option(o, url, token),
    ensures
        hook_option_json(o) == seq!['{'] + json_key("url"@) + json_quoted(url)
            + bool_member("enable_ssl_verification"@, Some(true))
            + bool_member("push_events"@, Some(true))
            + text_member("token"@, token) + seq!['}'],
{
    assert(hook_option_json(o) =~= seq!['{'] + json_key("url"@) + json_quoted(url)
        + bool_member("enable_ssl_verification"@, Some(true))
        + bool_member("push_events"@, Some(true))
        + text_member("token"@, token) + seq!['}']);
}

/// A person as a push event names them.
#[derive(Clone, Debug)]
pub struct Author {
    pub name: String,
    pub email: String,
}

/// The project of a push event.
#[derive(Clone, Debug)]
pub struct Project {
    pub id: i64,
    pub name: String,
    pub description: String,
    pub web_url: String,
    pub avatar_url: Option<String>,
    pub git_ssh_url: String,
    pub git_http_url: String,
    pub namespace: String,
    pub visibility_level: i32,
    pub path_with_namespace: String,
    pub default_branch: String,
    pub ci_config_path: Option<String>,
    pub homepage: Option<String>,
    pub url: String,
    pub ssh_url: String,
    pub http_url: String,
}

} // verus!
