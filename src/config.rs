use vstd::prelude::*;
use vstd::string::*;

use crate::auth::Auth;
use crate::error::{Error, Result};

verus! {

/// The serialization of the absolute URL that `url` parses from a text, or
/// `None` where the text is no absolute URL.
pub uninterp spec fn url_parse(s: Seq<char>) -> Option<Seq<char>>;

/// The serialization of `input` resolved against the URL serialized as
/// `base`, or `None` where the resolution fails.
pub uninterp spec fn url_join(base: Seq<char>, input: Seq<char>) -> Option<Seq<char>>;

/// Relies on `url::Url::parse`: parses an absolute URL and hands back its
/// serialization.
#[verifier::external_body]
pub(crate) fn parse_url(s: &str) -> (r: core::result::Result<String, url::ParseError>)
    ensures
        match r {
            Ok(t) => url_parse(s@) == Some(t@),
            Err(_) => url_parse(s@) is None,
        },
{
    url::Url::parse(s).map(String::from)
}

/// Relies on `url::Url::join` (standard URL resolution, with `.` and `..`
/// segments resolved), applied to the URL that `url::Url::parse` reads back
/// from the serialization `base`.
#[verifier::external_body]
pub(crate) fn join_url(base: &str, input: &str) -> (r: core::result::Result<String, url::ParseError>)
    ensures
        match r {
            Ok(t) => url_join(base@, input@) == Some(t@),
            Err(_) => url_join(base@, input@) is None,
        },
{
    let b = url::Url::parse(base)?;
    b.join(input).map(String::from)
}

/// What a configuration holds: the base URL's serialization and the token.
pub struct ConfigView {
    pub base_url: Seq<char>,
    pub token: Option<Seq<char>>,
}

/// The settings that every request of a client reads: the server's base URL
/// (an absolute URL ending in `/`) and the credential.
#[derive(Clone, Debug)]
pub struct Config {
    pub base_url: String,
    pub token: Auth,
}

impl View for Config {
    type V = ConfigView;

    open spec fn view(&self) -> ConfigView {
        ConfigView { base_url: self.base_url@, token: self.token@ }
    }
}

impl Config {
    /// An owned copy of this configuration.
    pub fn duplicate(&self) -> (r: Config)
        ensures
            r@ == self@,
    {
        Config { base_url: self.base_url.clone(), token: self.token.duplicate() }
    }
}

/// The text `{scheme}://{host}/` from which a base URL is parsed.
pub open spec fn base_text(scheme: Seq<char>, host: Seq<char>) -> Seq<char> {
    scheme + seq![':', '/', '/'] + host + seq!['/']
}

/// Composes `{scheme}://{host}/` and parses it as the base URL.
pub fn base_url_of(scheme: &str, host: &str) -> (r: Result<String>)
    ensures
        match r {
            Ok(u) => url_parse(base_text(scheme@, host@)) == Some(u@),
            Err(e) => url_parse(base_text(scheme@, host@)) is None && e is UrlParse,
        },
{
    proof {
        reveal_strlit("://");
        reveal_strlit("/");
    }
    let text = String::from_str(scheme).concat("://").concat(host).concat("/");
    assert(text@ =~= base_text(scheme@, host@));
    match parse_url(text.as_str()) {
        Ok(u) => Ok(u),
        Err(e) => Err(Error::UrlParse(e)),
    }
}

} // verus!
