use gritlab::client::{api_error, check_success, repo_path, resp_json, Gritlab, Method};
use gritlab::text::i64_decimal;
use gritlab::Error;

fn client() -> Gritlab {
    Gritlab::builder("example.com").token("tok").build().unwrap()
}

#[test]
fn repo_path_encodes_only_the_separator() {
    assert_eq!(repo_path("alice", "proj"), "alice%2Fproj");
    assert_eq!(repo_path("a b", "c%2Fd"), "a b%2Fc%2Fd");
    assert_eq!(repo_path("", ""), "%2F");
}

#[test]
fn get_repo_plans_project_url_with_token() {
    let q = client().get_repo("alice", "proj").unwrap();
    assert_eq!(q.method, Method::Get);
    assert_eq!(q.url, "https://example.com/api/v4/projects/alice%2Fproj");
    assert_eq!(q.header, ("PRIVATE-TOKEN".to_string(), "tok".to_string()));
    assert!(q.query.is_empty());
    assert!(q.body.is_none());
    assert_eq!(q.context, "get repo failed");
}

#[test]
fn insecure_builder_uses_http() {
    let cli = Gritlab::builder("example.com").insecure().token("tok").build().unwrap();
    let q = cli.current_user().unwrap();
    assert_eq!(q.url, "http://example.com/api/v4/user");
    assert_eq!(q.context, "get user failed");
}

#[test]
fn scheme_is_taken_as_given() {
    let cli = Gritlab::builder("example.com:8443").scheme("https").token("t").build().unwrap();
    assert_eq!(cli.list_repos().unwrap().url, "https://example.com:8443/api/v4/projects");
}

#[test]
fn build_rejects_bad_host() {
    assert!(matches!(Gritlab::builder("exa mple.com").build(), Err(Error::UrlParse(_))));
}

#[test]
fn build_rejects_empty_scheme() {
    let b = Gritlab::builder("example.com").scheme("");
    assert!(matches!(b.build(), Err(Error::UrlParse(_))));
}

#[test]
fn leading_slash_is_rejected() {
    assert!(matches!(client().request(Method::Get, "/user"), Err(Error::Other(_))));
    assert!(matches!(client().request(Method::Delete, "/"), Err(Error::Other(_))));
}

#[test]
fn dot_segments_are_resolved() {
    let q = client().request(Method::Get, "projects/../user").unwrap();
    assert_eq!(q.url, "https://example.com/api/v4/user");
    assert!(q.context.is_empty());
}

#[test]
fn search_adds_query() {
    let q = client().search_repos("jarvis").unwrap();
    assert_eq!(q.url, "https://example.com/api/v4/projects");
    assert_eq!(q.query, vec![("search".to_string(), "jarvis".to_string())]);
    assert_eq!(q.context, "search repos failed");
}

#[test]
fn hook_paths() {
    let cli = client();
    let q = cli.list_hooks("o", "r").unwrap();
    assert_eq!(q.url, "https://example.com/api/v4/projects/o%2Fr/hooks");
    assert_eq!(q.context, "list repo hooks failed");
    let q = cli.delete_hook("o", "r", 42).unwrap();
    assert_eq!(q.method, Method::Delete);
    assert_eq!(q.url, "https://example.com/api/v4/projects/o%2Fr/hooks/42");
    assert_eq!(q.context, "delete hook-42 failed");
    let q = cli.delete_hook("o", "r", -7).unwrap();
    assert_eq!(q.url, "https://example.com/api/v4/projects/o%2Fr/hooks/-7");
}

#[test]
fn commit_paths() {
    let cli = client();
    let q = cli.list_repo_commits("o", "r").unwrap();
    assert_eq!(q.url, "https://example.com/api/v4/projects/o%2Fr/repository/commits");
    assert_eq!(q.context, "failed to list repo commits");
    let q = cli.list_statuses("o", "r", "ff0e6d").unwrap();
    assert_eq!(
        q.url,
        "https://example.com/api/v4/projects/o%2Fr/repository/commits/ff0e6d/statuses"
    );
    assert_eq!(q.context, "get status of commit-ff0e6d failed");
    let q = cli.create_status("o", "r", "ff0e6d", "{\"state\":\"failed\"}").unwrap();
    assert_eq!(q.method, Method::Post);
    assert_eq!(q.url, "https://example.com/api/v4/projects/o%2Fr/statuses/ff0e6d");
    assert_eq!(q.body.as_deref(), Some("{\"state\":\"failed\"}"));
    assert_eq!(q.context, "create status of commit-ff0e6d failed");
}

#[test]
fn not_found_keeps_status_and_body() {
    let body = "{\"message\":\"not found\"}".to_string();
    match resp_json(404, body, "get repo failed") {
        Err(Error::GitlabError(m)) => {
            assert_eq!(m, "get repo failed: [404 Not Found] {\"message\":\"not found\"}");
            assert!(m.contains("404"));
            assert!(m.contains("{\"message\":\"not found\"}"));
        }
        other => panic!("unexpected {:?}", other),
    }
}

#[test]
fn success_hands_back_body_verbatim() {
    let body = "{\"id\":1,\"push_events_branch_filter\":null}".to_string();
    assert_eq!(resp_json(200, body.clone(), "create hook failed").unwrap(), body);
    assert_eq!(resp_json(299, String::new(), "x").unwrap(), "");
}

#[test]
fn check_success_discards_body() {
    assert!(check_success(204, "ignored", "delete hook-1 failed").is_ok());
    match check_success(500, "boom", "delete hook-1 failed") {
        Err(Error::GitlabError(m)) => {
            assert_eq!(m, "delete hook-1 failed: [500 Internal Server Error] boom")
        }
        other => panic!("unexpected {:?}", other),
    }
    assert!(matches!(check_success(302, "", "c"), Err(Error::GitlabError(_))));
}

#[test]
fn unknown_status_has_placeholder_reason() {
    match check_success(599, "", "ctx") {
        Err(Error::GitlabError(m)) => assert_eq!(m, "ctx: [599 <unknown status code>] "),
        other => panic!("unexpected {:?}", other),
    }
}

#[test]
fn api_error_text() {
    match api_error("c", 418, Some("I'm a teapot".to_string()), "b") {
        Error::GitlabError(m) => assert_eq!(m, "c: [418 I'm a teapot] b"),
        other => panic!("unexpected {:?}", other),
    }
    match api_error("", 7, None, "") {
        Error::GitlabError(m) => assert_eq!(m, ": [7 <unknown status code>] "),
        other => panic!("unexpected {:?}", other),
    }
}

#[test]
fn decimal_text() {
    assert_eq!(i64_decimal(0), "0");
    assert_eq!(i64_decimal(1234567890), "1234567890");
    assert_eq!(i64_decimal(i64::MIN), "-9223372036854775808");
    assert_eq!(i64_decimal(i64::MAX), "9223372036854775807");
}

#[test]
fn build_normalises_host() {
    let cli = Gritlab::builder("EXAMPLE.com").token("t").build().unwrap();
    assert_eq!(cli.current_user().unwrap().url, "https://example.com/api/v4/user");
}

#[test]
fn created_hook_body_passes_through_with_nulls() {
    let body = "{\"id\":7,\"url\":\"https://foo.bar/hook\",\"project_id\":3,\"push_events\":true,\"push_events_branch_filter\":null,\"issues_events\":false,\"confidential_issues_events\":null,\"merge_requests_events\":false,\"repository_update_events\":false,\"tag_push_events\":false,\"note_events\":false,\"confidential_note_events\":null,\"job_events\":false,\"pipeline_events\":false,\"wiki_page_events\":false,\"deployment_events\":false,\"releases_events\":false,\"enable_ssl_verification\":true,\"created_at\":\"2021-05-01T10:00:00Z\"}".to_string();
    let plan = client()
        .create_hook("alice", "proj", &gritlab::hook::CreateHookOption::new("https://foo.bar/hook", None))
        .unwrap();
    assert_eq!(resp_json(200, body.clone(), &plan.context).unwrap(), body);
}

#[test]
fn error_text() {
    let e = Error::GitlabError("x: [404 Not Found] y".to_string());
    assert_eq!(e.to_string(), "gitlab error: x: [404 Not Found] y");
    assert_eq!(Error::Unauthorized("access token not set".to_string()).to_string(), "client unauthorized: access token not set");
    assert_eq!(Error::Other("bad".to_string()).to_string(), "bad");
    match Gritlab::builder("exa mple.com").build() {
        Err(e) => assert_eq!(e.to_string(), "failed to parse url: invalid international domain name"),
        Ok(_) => panic!("built a client for a bad host"),
    }
}
