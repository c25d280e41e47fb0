//! Building an image from a github branch: the decisions taken between the
//! calls to github, the store and docker.
//!
//! The build goes through these steps, the daemon calling out between
//! them: the repository URL gets the account's credentials
//! (`authenticated_url`); the live branch and the stored branch are read,
//! and the stored branch gets the live commit (`refreshed_branch`); the
//! image `repository:branch` is inspected and `decide_image` says whether
//! to build it for the first time, to answer that it is up to date, or to
//! rebuild it; before a rebuild, the existing image is kept as
//! `repository:branch-backup` (`backup_actions`).

use vstd::prelude::*;
use crate::error::{HttpResponseError, BAD_REQUEST, INTERNAL_SERVER_ERROR, http_error};
use crate::github::BasicCredential;
use crate::key::{spec_join_key, gen_key};
use crate::labels::Labels;
use crate::records::{GitRepositoryItem, GitRepositoryBranchItem};
use crate::text::{remove_all, remove_all_occurrences};
use crate::weburl::{
    UrlView, parse_url, set_url_username, set_url_password, url_parse_spec, url_set_username_spec,
    url_set_password_spec, spec_url_error_text, fits_userinfo, userinfo_fits,
};

verus! {

/// The URL a repository is cloned from, with the account's credentials in
/// it, or the error answered: `400` when the URL does not parse, `500` when
/// the user name or password cannot be set, which includes a URL that would
/// grow past what the `url` crate can index (it would panic).
pub open spec fn spec_authenticated_url(
    name: Seq<char>,
    url: Seq<char>,
    username: Seq<char>,
    password: Seq<char>,
) -> Result<Seq<char>, (u16, Seq<char>)> {
    match url_parse_spec(url) {
        Err(e) => Err((400u16, "Unable to parse "@ + name + " url "@ + url + " "@ + spec_url_error_text(e))),
        Ok(v) => if !fits_userinfo(v.serialization.len(), username.len()) {
            Err((500u16, "Unable to set username"@))
        } else {
            match url_set_username_spec(v, username) {
                Err(_) => Err((500u16, "Unable to set username"@)),
                Ok(v2) => if !fits_userinfo(v2.serialization.len(), password.len()) {
                    Err((500u16, "Unable to set password"@))
                } else {
                    match url_set_password_spec(v2, Some(password)) {
                        Err(_) => Err((500u16, "Unable to set password"@)),
                        Ok(v3) => Ok(v3.serialization),
                    }
                },
            }
        },
    }
}

/// The repository's URL with the account's user name and password set.
pub fn authenticated_url(item: &GitRepositoryItem, credential: &BasicCredential) -> (res: Result<String, HttpResponseError>)
    ensures
        match spec_authenticated_url(item.name@, item.url@, credential.username@, credential.password@) {
            Ok(u) => res matches Ok(r) && r@ == u,
            Err((status, msg)) => res matches Err(e) && e.status == status && e.msg@ == msg,
        },
{
    let mut url = match parse_url(item.url.as_str()) {
        Ok(u) => u,
        Err(e) => {
            let mut msg = String::from_str("Unable to parse ");
            msg.append(item.name.as_str());
            msg.append(" url ");
            msg.append(item.url.as_str());
            msg.append(" ");
            msg.append(e.text());
            return Err(HttpResponseError { status: BAD_REQUEST, msg });
        },
    };
    let url_len = url.as_string().as_str().unicode_len();
    if !userinfo_fits(url_len, credential.username.as_str().unicode_len()) {
        return Err(http_error(INTERNAL_SERVER_ERROR, "Unable to set username"));
    }
    match set_url_username(&mut url, credential.username.as_str()) {
        Ok(()) => {},
        Err(()) => return Err(http_error(INTERNAL_SERVER_ERROR, "Unable to set username")),
    }
    let url_len = url.as_string().as_str().unicode_len();
    if !userinfo_fits(url_len, credential.password.as_str().unicode_len()) {
        return Err(http_error(INTERNAL_SERVER_ERROR, "Unable to set password"));
    }
    match set_url_password(&mut url, Some(credential.password.as_str())) {
        Ok(()) => {},
        Err(()) => return Err(http_error(INTERNAL_SERVER_ERROR, "Unable to set password")),
    }
    Ok(url.as_string())
}

/// The key under which the repository's default branch is stored.
pub fn default_branch_key(item: &GitRepositoryItem) -> (res: String)
    ensures
        res@ == spec_join_key(item.name@, item.default_branch@),
{
    gen_key(item.name.as_str(), item.default_branch.as_str())
}

/// The image built from a branch: `repository:branch`.
pub fn branch_image_name(item: &GitRepositoryItem, branch_name: &str) -> (res: String)
    ensures
        res@ == item.name@ + ":"@ + branch_name@,
{
    let mut res = item.name.clone();
    res.append(":");
    res.append(branch_name);
    res
}

/// The stored branch with the live branch's last commit, and whether it is
/// written back to the store, which happens when the stored commit is not
/// that commit any more.
pub fn refreshed_branch(stored: GitRepositoryBranchItem, live_sha: String) -> (res: (GitRepositoryBranchItem, bool))
    ensures
        res.0.key == stored.key,
        res.0.name == stored.name,
        res.0.repository_name == stored.repository_name,
        res.0.last_commit_sha@ == live_sha@,
        res.1 == (live_sha@ != stored.last_commit_sha@),
{
    let update = live_sha != stored.last_commit_sha;
    let branch = GitRepositoryBranchItem {
        key: stored.key,
        name: stored.name,
        last_commit_sha: live_sha,
        repository_name: stored.repository_name,
    };
    (branch, update)
}

/// The configuration part of an image inspection.
pub struct ImageConfig {
    pub labels: Option<Labels>,
}

/// An image inspection, as far as the build reads it.
pub struct ImageInspect {
    pub id: Option<String>,
    pub config: Option<ImageConfig>,
}

/// What to do with the image of a branch.
pub enum ImageDecision {
    /// No image yet: build it.
    FirstBuild,
    /// The image was built from the branch's last commit: nothing to do.
    UpToDate,
    /// The image is older: keep it as a backup, then build it again.
    Rebuild { image_id: String },
}

/// A decision on an image, as the contracts speak of it.
pub enum ImageVerdict {
    FirstBuild,
    UpToDate,
    Rebuild(Seq<char>),
}

/// The decision for an image inspection (`None` when there is no image)
/// and the branch's last commit, or the message of the error.
pub open spec fn spec_decide_image(inspect: Option<ImageInspect>, commit_sha: Seq<char>) -> Result<ImageVerdict, Seq<char>> {
    match inspect {
        None => Ok(ImageVerdict::FirstBuild),
        Some(image) => match image.id {
            None => Err("Image is found but we cannot read his id"@),
            Some(id) => match image.config {
                None => Err("Image is found but we cannot read his config"@),
                Some(config) => match config.labels {
                    None => Err("Image is found but we cannot read his labels"@),
                    Some(labels) => if !labels.view().contains_key("commit"@) {
                        Err("Image is found but we cannot get his commit"@)
                    } else if labels.view()["commit"@] == commit_sha {
                        Ok(ImageVerdict::UpToDate)
                    } else {
                        Ok(ImageVerdict::Rebuild(remove_all(id@, "sha256:"@)))
                    },
                },
            },
        },
    }
}

/// Whether the image must be built for the first time, is up to date, or
/// must be rebuilt; an image whose id, config, labels or `commit` label
/// cannot be read is answered with `500`. An image is up to date exactly
/// when its `commit` label is the branch's last commit; the id of an image
/// to rebuild loses every `sha256:`.
pub fn decide_image(inspect: Option<ImageInspect>, commit_sha: &str) -> (res: Result<ImageDecision, HttpResponseError>)
    ensures
        match spec_decide_image(inspect, commit_sha@) {
            Ok(ImageVerdict::FirstBuild) => res matches Ok(ImageDecision::FirstBuild),
            Ok(ImageVerdict::UpToDate) => res matches Ok(ImageDecision::UpToDate),
            Ok(ImageVerdict::Rebuild(id)) => res matches Ok(ImageDecision::Rebuild { image_id }) && image_id@ == id,
            Err(m) => res matches Err(e) && e.status == INTERNAL_SERVER_ERROR && e.msg@ == m,
        },
{
    let image = match inspect {
        None => return Ok(ImageDecision::FirstBuild),
        Some(image) => image,
    };
    let id = match &image.id {
        None => return Err(http_error(INTERNAL_SERVER_ERROR, "Image is found but we cannot read his id")),
        Some(id) => id,
    };
    let config = match &image.config {
        None => return Err(http_error(INTERNAL_SERVER_ERROR, "Image is found but we cannot read his config")),
        Some(c) => c,
    };
    let labels = match &config.labels {
        None => return Err(http_error(INTERNAL_SERVER_ERROR, "Image is found but we cannot read his labels")),
        Some(l) => l,
    };
    let commit = match labels.get("commit") {
        None => return Err(http_error(INTERNAL_SERVER_ERROR, "Image is found but we cannot get his commit")),
        Some(c) => c,
    };
    let wanted = commit_sha.to_owned();
    if commit == wanted {
        return Ok(ImageDecision::UpToDate);
    }
    let image_id = remove_all_occurrences(id.as_str(), "sha256:");
    Ok(ImageDecision::Rebuild { image_id })
}

/// A docker call made before a rebuild.
pub enum ImageAction {
    /// Remove the image of that name.
    RemoveImage { name: String },
    /// Tag the image of that id as `repo:tag`.
    TagImage { image_id: String, repo: String, tag: String },
}

/// The name under which the previous image of a branch is kept.
pub fn backup_image_name(image_name: &str) -> (res: String)
    ensures
        res@ == image_name@ + "-backup"@,
{
    let mut res = image_name.to_owned();
    res.append("-backup");
    res
}

/// The docker calls that keep the current image as the backup before a
/// rebuild: an older backup is removed first, then the image is tagged
/// `repository:branch-backup`.
pub fn backup_actions(
    backup_exists: bool,
    backup_name: &str,
    image_id: &str,
    item: &GitRepositoryItem,
    branch: &GitRepositoryBranchItem,
) -> (res: Vec<ImageAction>)
    ensures
        res@.len() == (if backup_exists { 2int } else { 1int }),
        backup_exists ==> (res@[0] matches ImageAction::RemoveImage { name } && name@ == backup_name@),
        res@.last() matches ImageAction::TagImage { image_id: id, repo, tag }
            && id@ == image_id@ && repo@ == item.name@ && tag@ == branch.name@ + "-backup"@,
{
    let mut res: Vec<ImageAction> = Vec::new();
    if backup_exists {
        res.push(ImageAction::RemoveImage { name: backup_name.to_owned() });
    }
    let mut tag = branch.name.clone();
    tag.append("-backup");
    res.push(ImageAction::TagImage { image_id: image_id.to_owned(), repo: item.name.clone(), tag });
    res
}

/// The credentials always go into the clone URL: on a URL that parses, the
/// result is that URL after setting the user name, whatever it is (empty
/// included), and then the password, whenever the `url` crate accepts both
/// within its limits. Neither step is skipped.
pub proof fn law_authenticated_url_sets_user_then_password(
    name: Seq<char>,
    url: Seq<char>,
    username: Seq<char>,
    password: Seq<char>,
    parsed: UrlView,
    with_user: UrlView,
    with_both: UrlView,
)
    requires
        url_parse_spec(url) == Ok::<UrlView, crate::weburl::UrlParseError>(parsed),
        fits_userinfo(parsed.serialization.len(), username.len()),
        url_set_username_spec(parsed, username) == Ok::<UrlView, ()>(with_user),
        fits_userinfo(with_user.serialization.len(), password.len()),
        url_set_password_spec(with_user, Some(password)) == Ok::<UrlView, ()>(with_both),
    ensures
        spec_authenticated_url(name, url, username, password) == Ok::<Seq<char>, (u16, Seq<char>)>(with_both.serialization),
{
}

/// A URL that parses but cannot take the user name or the password is
/// refused with `500`, never answered with the URL without credentials.
pub proof fn law_authenticated_url_refusals(name: Seq<char>, url: Seq<char>, username: Seq<char>, password: Seq<char>, parsed: UrlView)
    requires
        url_parse_spec(url) == Ok::<UrlView, crate::weburl::UrlParseError>(parsed),
    ensures
        url_set_username_spec(parsed, username) is Err ==> spec_authenticated_url(name, url, username, password)
            == Err::<Seq<char>, (u16, Seq<char>)>((500u16, "Unable to set username"@)),
        spec_authenticated_url(name, url, username, password) matches Ok(u) ==> exists|w: UrlView|
            url_set_username_spec(parsed, username) == Ok::<UrlView, ()>(w)
            && (#[trigger] url_set_password_spec(w, Some(password)) matches Ok(w2) && u == w2.serialization),
{
    match url_set_username_spec(parsed, username) {
        Ok(w) => {
            if spec_authenticated_url(name, url, username, password) is Ok {
                assert(url_set_password_spec(w, Some(password)) is Ok);
            }
        },
        Err(_) => {},
    }
}

} // verus!
