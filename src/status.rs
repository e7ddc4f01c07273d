use vstd::prelude::*;

verus! {

/// The user who reported a commit status.
#[derive(Clone, Debug)]
pub struct Author {
    pub id: i64,
    pub name: String,
    pub username: String,
    pub state: String,
    pub avatar_url: Option<String>,
    pub web_url: Option<String>,
}

} // verus!
