use vstd::prelude::*;
use vstd::string::*;

verus! {

/// Every way in which a call through this library can fail.
#[derive(Debug)]
pub enum Error {
    /// A URL could not be parsed or joined.
    UrlParse(url::ParseError),
    /// No credential is configured.
    Unauthorized(String),
    /// The remote API answered with a non-success status; the text holds
    /// the caller's context, the status and the raw response body.
    GitlabError(String),
    /// The transport failed; the text is the transport's own message.
    ReqwestError(String),
    /// A configuration value could not be read from the environment.
    VarError(String),
    /// A response body did not decode into the expected shape; the text is
    /// the decoder's message.
    SerdeJsonError(String),
    /// A validation failure, such as a malformed relative path.
    Other(String),
}

/// Relies on the `Display` of `url::ParseError`: a short description of
/// why a URL did not parse.
#[verifier::external_body]
fn parse_error_text(e: &url::ParseError) -> (r: String) {
    e.to_string()
}

impl Error {
    /// The human-readable text of the error: the kind's prefix, where it
    /// has one, then what the error carries.
    pub fn to_string(&self) -> (r: String)
        ensures
            match self {
                Error::UrlParse(_) => "failed to parse url: "@.is_prefix_of(r@),
                Error::Unauthorized(m) => r@ == "client unauthorized: "@ + m@,
                Error::GitlabError(m) => r@ == "gitlab error: "@ + m@,
                Error::ReqwestError(m) => r@ == m@,
                Error::VarError(m) => r@ == m@,
                Error::SerdeJsonError(m) => r@ == m@,
                Error::Other(m) => r@ == m@,
            },
    {
        match self {
            Error::UrlParse(e) => {
                let r = String::from_str("failed to parse url: ").concat(parse_error_text(e).as_str());
                assert("failed to parse url: "@ =~= r@.subrange(0, "failed to parse url: "@.len() as int));
                r
            },
            Error::Unauthorized(m) => String::from_str("client unauthorized: ").concat(m.as_str()),
            Error::GitlabError(m) => String::from_str("gitlab error: ").concat(m.as_str()),
            Error::ReqwestError(m) => m.clone(),
            Error::VarError(m) => m.clone(),
            Error::SerdeJsonError(m) => m.clone(),
            Error::Other(m) => m.clone(),
        }
    }
}

pub type Result<T> = core::result::Result<T, Error>;

} // verus!
