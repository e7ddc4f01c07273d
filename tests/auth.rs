use gritlab::auth::Auth;
use gritlab::client::{Gritlab, Method};
use gritlab::config::Config;
use gritlab::Error;

#[test]
fn token_gives_private_token_header() {
    let (name, value) = Auth::Token("s3cr3t".to_string()).headers().unwrap();
    assert_eq!(name, "PRIVATE-TOKEN");
    assert_eq!(value, "s3cr3t");
}

#[test]
fn empty_token_is_still_sent() {
    let (name, value) = Auth::Token(String::new()).headers().unwrap();
    assert_eq!(name, "PRIVATE-TOKEN");
    assert_eq!(value, "");
}

#[test]
fn missing_token_is_unauthorized() {
    assert!(matches!(Auth::NoToken.headers(), Err(Error::Unauthorized(_))));
}

#[test]
fn client_without_token_refuses_to_plan() {
    let cli = Gritlab::builder("example.com").build().unwrap();
    assert!(matches!(cli.headers(), Err(Error::Unauthorized(_))));
    assert!(matches!(cli.get_repo("alice", "proj"), Err(Error::Unauthorized(_))));
}

#[test]
fn client_from_config_keeps_it() {
    let cli = Gritlab::new(Config {
        base_url: "https://git.example.org/".to_string(),
        token: Auth::Token("t".to_string()),
    });
    let conf = cli.r_conf().unwrap();
    assert_eq!(conf.base_url, "https://git.example.org/");
    assert!(matches!(conf.token, Auth::Token(ref t) if t == "t"));
    let q = cli.request(Method::Get, "user").unwrap();
    assert_eq!(q.url, "https://git.example.org/api/v4/user");
}
