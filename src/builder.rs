use vstd::prelude::*;
use vstd::string::*;

use crate::auth::Auth;
use crate::client::Gritlab;
use crate::config::{base_text, base_url_of, url_parse, Config};
use crate::error::Result;

verus! {

/// What a builder holds: scheme, host and token.
pub struct GritlabBuilderView {
    pub scheme: Seq<char>,
    pub host: Seq<char>,
    pub token: Option<Seq<char>>,
}

/// Collects the settings of a client before it is built.
#[derive(Clone, Debug)]
pub struct GritlabBuilder {
    scheme: String,
    host: String,
    token: Auth,
}

impl View for GritlabBuilder {
    type V = GritlabBuilderView;

    closed spec fn view(&self) -> GritlabBuilderView {
        GritlabBuilderView { scheme: self.scheme@, host: self.host@, token: self.token@ }
    }
}

impl GritlabBuilder {
    /// A builder for `host`, with scheme `https` and no token.
    pub fn new(host: &str) -> (r: Self)
        ensures
            r@.host == host@,
            r@.scheme == seq!['h', 't', 't', 'p', 's'],
            r@.token is None,
    {
        proof {
            reveal_strlit("https");
        }
        GritlabBuilder {
            scheme: String::from_str("https"),
            host: String::from_str(host),
            token: Auth::NoToken,
        }
    }

    /// Switches to plain `http`.
    pub fn insecure(self) -> (r: Self)
        ensures
            r@ == (GritlabBuilderView { scheme: seq!['h', 't', 't', 'p'], ..self@ }),
    {
        proof {
            reveal_strlit("http");
        }
        let r = GritlabBuilder { scheme: String::from_str("http"), ..self };
        assert(r@.scheme =~= seq!['h', 't', 't', 'p']);
        r
    }

    /// Sets the scheme of the server.
    pub fn scheme(self, scheme: &str) -> (r: Self)
        ensures
            r@ == (GritlabBuilderView { scheme: scheme@, ..self@ }),
    {
        GritlabBuilder { scheme: String::from_str(scheme), ..self }
    }

    /// Authenticates with the access token `token`.
    pub fn token(self, token: &str) -> (r: Self)
        ensures
            r@ == (GritlabBuilderView { token: Some(token@), ..self@ }),
    {
        GritlabBuilder { token: Auth::Token(String::from_str(token)), ..self }
    }

    /// A client whose base URL is `{scheme}://{host}/`, parsed; a URL error
    /// where that text is no absolute URL.
    pub fn build(&self) -> (r: Result<Gritlab>)
        ensures
            match r {
                Ok(g) => url_parse(base_text(self@.scheme, self@.host)) == Some(g@.base_url)
                    && g@.token == self@.token,
                Err(e) => url_parse(base_text(self@.scheme, self@.host)) is None
                    && e is UrlParse,
            },
    {
        let base_url = base_url_of(self.scheme.as_str(), self.host.as_str())?;
        Ok(Gritlab::new(Config { base_url, token: self.token.duplicate() }))
    }
}

} // verus!
