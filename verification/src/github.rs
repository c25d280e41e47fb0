//! Github repositories: where a repository lives, the API paths the daemon
//! asks, and which answers count as errors.

use vstd::prelude::*;
use crate::weburl::{UrlParseError, UrlView, parse_url, url_parse_spec};

verus! {

/// The last commit of a branch.
pub struct GithubRepoBranchCommit {
    pub sha: String,
}

/// A branch of a github repository.
pub struct GithubRepoBranch {
    pub name: String,
    pub commit: GithubRepoBranchCommit,
}

/// A github repository.
pub struct GithubRepo {
    pub name: String,
    pub private: bool,
    pub full_name: String,
    pub default_branch: String,
}

/// Where a git repository lives: its host and its path on that host.
pub struct GitDesc {
    pub host: String,
    pub path: String,
}

/// The message of an error answered by the github API.
pub struct GithubApiError {
    pub message: String,
}

/// An error of the github API.
pub enum GithubError {
    /// The API answered with an error.
    Errorgithubapi(GithubApiError),
}

/// The account the daemon talks to github with.
pub struct BasicCredential {
    pub username: String,
    pub password: String,
}

/// What `parse_git_url` yields for a URL: its host and path, or why it has
/// none.
pub open spec fn spec_git_desc(parsed: Result<UrlView, UrlParseError>) -> Result<(Seq<char>, Seq<char>), UrlParseError> {
    match parsed {
        Err(e) => Err(e),
        Ok(v) => match v.host {
            None => Err(UrlParseError::EmptyHost),
            Some(h) => Ok((h, v.path)),
        },
    }
}

/// The host and path of a git repository's URL; a URL without a host is
/// refused as `EmptyHost`.
pub fn parse_git_url(url: &str) -> (res: Result<GitDesc, UrlParseError>)
    ensures
        match spec_git_desc(url_parse_spec(url@)) {
            Ok((h, p)) => res matches Ok(d) && d.host@ == h && d.path@ == p,
            Err(e) => res matches Err(x) && x == e,
        },
{
    let parsed = match parse_url(url) {
        Ok(u) => u,
        Err(e) => return Err(e),
    };
    let host = match parsed.host() {
        Some(h) => h,
        None => return Err(UrlParseError::EmptyHost),
    };
    Ok(GitDesc { host, path: parsed.path() })
}

/// The credential built from the account settings; a missing setting is
/// the empty string.
pub fn basic_credential(user: Option<String>, token: Option<String>) -> (res: BasicCredential)
    ensures
        res.username@ == (match user {
            Some(u) => u@,
            None => Seq::<char>::empty(),
        }),
        res.password@ == (match token {
            Some(t) => t@,
            None => Seq::<char>::empty(),
        }),
{
    let username = match user {
        Some(u) => u,
        None => String::new(),
    };
    let password = match token {
        Some(t) => t,
        None => String::new(),
    };
    BasicCredential { username, password }
}

/// The root of the github API.
pub open spec fn spec_github_base_url() -> Seq<char> {
    "https://api.github.com"@
}

/// The full URL of an API path.
pub fn gen_url(base_url: &str, url: &str) -> (res: String)
    ensures
        res@ == base_url@ + url@,
{
    let mut res = base_url.to_owned();
    res.append(url);
    res
}

/// The github root the daemon uses.
pub fn github_base_url() -> (res: String)
    ensures
        res@ == spec_github_base_url(),
{
    String::from_str("https://api.github.com")
}

/// The API path of a repository: `/repos` then its path.
pub fn repository_api_path(git_desc: &GitDesc) -> (res: String)
    ensures
        res@ == "/repos"@ + git_desc.path@,
{
    let mut res = String::from_str("/repos");
    res.append(git_desc.path.as_str());
    res
}

/// The API path listing the branches of a repository.
pub fn branches_api_path(git_desc: &GitDesc) -> (res: String)
    ensures
        res@ == "/repos"@ + git_desc.path@ + "/branches"@,
{
    let mut res = repository_api_path(git_desc);
    res.append("/branches");
    res
}

/// The API path of one branch of a repository.
pub fn branch_api_path(git_desc: &GitDesc, branch: &str) -> (res: String)
    ensures
        res@ == "/repos"@ + git_desc.path@ + "/branches/"@ + branch@,
{
    let mut res = repository_api_path(git_desc);
    res.append("/branches/");
    res.append(branch);
    res
}

/// Whether the API answered a repository request with an error: any
/// client (4xx) or server (5xx) status.
pub fn repository_answer_failed(status: u16) -> (res: bool)
    ensures
        res == (400 <= status <= 599),
{
    400 <= status && status <= 599
}

/// Whether the API answered a branch request with an error: a client
/// (4xx) status only.
pub fn branch_answer_failed(status: u16) -> (res: bool)
    ensures
        res == (400 <= status <= 499),
{
    400 <= status && status <= 499
}

} // verus!
