use vstd::prelude::*;

use crate::error::{Error, Result};

verus! {

/// The name of the header that carries the access token.
pub open spec fn token_header_name() -> Seq<char> {
    seq!['P', 'R', 'I', 'V', 'A', 'T', 'E', '-', 'T', 'O', 'K', 'E', 'N']
}

/// The credential attached to every request.
#[derive(Clone, Debug)]
pub enum Auth {
    Token(String),
    NoToken,
}

impl View for Auth {
    type V = Option<Seq<char>>;

    /// The token, or `None` where no token is set.
    open spec fn view(&self) -> Option<Seq<char>> {
        match self {
            Auth::Token(t) => Some(t@),
            Auth::NoToken => None,
        }
    }
}

impl Auth {
    /// The header pair that authenticates a request: the token under
    /// `PRIVATE-TOKEN`, or an unauthorized error when no token is set.
    pub fn headers(&self) -> (r: Result<(String, String)>)
        ensures
            match self {
                Auth::Token(t) => r matches Ok((name, value)) && name@ == token_header_name()
                    && value@ == t@,
                Auth::NoToken => r matches Err(Error::Unauthorized(_)),
            },
    {
        match self {
            Auth::Token(token) => {
                proof {
                    reveal_strlit("PRIVATE-TOKEN");
                }
                Ok((String::from_str("PRIVATE-TOKEN"), token.clone()))
            },
            Auth::NoToken => Err(Error::Unauthorized(String::from_str("access token not set"))),
        }
    }

    /// An owned copy of this credential.
    pub fn duplicate(&self) -> (r: Auth)
        ensures
            r@ == self@,
    {
        match self {
            Auth::Token(t) => Auth::Token(t.clone()),
            Auth::NoToken => Auth::NoToken,
        }
    }
}

} // verus!
