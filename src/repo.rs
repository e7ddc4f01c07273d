use vstd::prelude::*;

verus! {

/// The namespace (user or group) that a repository belongs to.
#[derive(Clone, Debug)]
pub struct Namespace {
    pub id: i64,
    pub name: String,
    pub path: String,
    pub kind: String,
    pub full_path: String,
    pub parent_id: Option<i64>,
    pub avatar_url: Option<String>,
    pub web_url: String,
}

/// The API links of a repository.
#[derive(Clone, Debug)]
pub struct Links {
    pub self_: String,
    pub issues: String,
    pub merge_requests: String,
    pub repo_branches: String,
    pub labels: String,
    pub events: String,
    pub members: String,
}

/// The owner of a repository.
#[derive(Clone, Debug)]
pub struct Owner {
    pub id: i64,
    pub name: String,
    pub username: String,
    pub state: String,
    pub avatar_url: String,
    pub web_url: String,
}

/// A group that a repository is shared with.
#[derive(Clone, Debug)]
pub struct Group {
    pub group_id: i64,
    pub group_name: String,
    pub group_full_path: String,
    pub group_access_level: i64,
}

/// An access level together with a notification level.
#[derive(Clone, Debug)]
pub struct Access {
    pub access_level: i64,
    pub notification_level: i64,
}

/// The caller's access to a repository, directly and through its group.
#[derive(Clone, Debug)]
pub struct Permissions {
    pub project_accesss: Option<Access>,
    pub group_access: Option<Access>,
}

} // verus!
