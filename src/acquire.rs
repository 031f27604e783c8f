//! What to fetch for a resource, and under which name the fetched file is
//! saved.
use vstd::prelude::*;
use crate::config::{copy_opt_string, provider_or_default, Payload, Providers, Repo, Resource};
use crate::github::AcquireError;
use crate::pattern::{pattern_compiles, pattern_group_one, regex_group_one};
use crate::resolver::{resolve_resource, resolve_resource_spec};
use crate::text::{
    after_last_slash, concat, concat3, file_name, replace_spec, replace_token, trim, trimmed_of,
};

verus! {

/// How a resource is fetched.
#[derive(Debug, PartialEq, Clone)]
pub enum Acquisition {
    /// Download one file, saved under its inferred name, then moved into the
    /// install directory.
    Download { url: String },
    /// Clone a repository into the staging directory as `dir_name`, move it to
    /// become the install directory, then check out `ver` if set.
    CloneRepo { url: String, dir_name: String, ver: Option<String> },
    /// Read the release list at `api_url`, choose a release and an asset, then
    /// download it as in `Download`.
    ReleaseAsset { api_url: String, ver: Option<String>, binary_pattern: Option<String> },
}

/// Base URL of a repository on its provider.
pub open spec fn clone_url_spec(p: Providers, repo: Seq<char>) -> Seq<char> {
    match p {
        Providers::GitHub => "https://github.com/"@ + repo,
        Providers::GitLab => "https://gitlab.com/"@ + repo,
        Providers::Gitee => "https://gitee.com/"@ + repo,
    }
}

/// Release-list endpoint of a repository on its provider.
pub open spec fn releases_url_spec(p: Providers, repo: Seq<char>) -> Seq<char> {
    match p {
        Providers::GitHub => "https://api.github.com/repos/"@ + repo + "/releases"@,
        Providers::GitLab => "https://gitlab.com/api/v4/projects/"@ + repo + "/releases"@,
        Providers::Gitee => "https://gitee.com/api/v5/repos/"@ + repo + "/releases"@,
    }
}

pub fn clone_url(provider: Providers, repo: &str) -> (r: String)
    ensures
        r@ == clone_url_spec(provider, repo@),
{
    match provider {
        Providers::GitHub => concat("https://github.com/", repo),
        Providers::GitLab => concat("https://gitlab.com/", repo),
        Providers::Gitee => concat("https://gitee.com/", repo),
    }
}

pub fn releases_url(provider: Providers, repo: &str) -> (r: String)
    ensures
        r@ == releases_url_spec(provider, repo@),
{
    match provider {
        Providers::GitHub => concat3("https://api.github.com/repos/", repo, "/releases"),
        Providers::GitLab => concat3("https://gitlab.com/api/v4/projects/", repo, "/releases"),
        Providers::Gitee => concat3("https://gitee.com/api/v5/repos/", repo, "/releases"),
    }
}

/// The name a URL path gives a download: its last segment, or `tmp.bin`
/// where that segment is empty.
pub open spec fn name_from_path(path: Seq<char>) -> Seq<char> {
    if after_last_slash(path).len() == 0 {
        "tmp.bin"@
    } else {
        after_last_slash(path)
    }
}

/// The saved name of a download whose URL has path `url_path`.
pub fn get_resource_name_from_url(url_path: &str) -> (r: String)
    ensures
        r@ == name_from_path(url_path@),
{
    let name = file_name(url_path);
    if name.as_str().unicode_len() == 0 {
        "tmp.bin".to_owned()
    } else {
        name
    }
}

/// The pattern that finds the file name in a `Content-Disposition` header.
pub open spec fn disposition_pattern() -> Seq<char> {
    "filename=(.*$)"@
}

/// The saved name given what the disposition pattern captured, if anything:
/// the capture, else the URL's last path segment, else `tmp.bin`.
pub fn resource_name_from_capture(captured: Option<&str>, url_path: &str) -> (r: String)
    ensures
        r@ == match captured {
            Some(c) => c@,
            None => name_from_path(url_path@),
        },
{
    match captured {
        Some(c) => c.to_owned(),
        None => get_resource_name_from_url(url_path),
    }
}

/// The saved name of a response with disposition header `disposition`, if
/// any, and URL path `path`; an error where the disposition pattern does not
/// compile.
pub open spec fn resource_name_spec(disposition: Option<Seq<char>>, path: Seq<char>) -> Result<
    Seq<char>,
    AcquireError,
> {
    match disposition {
        None => Ok(name_from_path(path)),
        Some(d) => if !pattern_compiles(disposition_pattern()) {
            Err(AcquireError::InvalidPattern)
        } else {
            match pattern_group_one(disposition_pattern(), d) {
                Some(c) => Ok(c),
                None => Ok(name_from_path(path)),
            }
        },
    }
}

/// The saved name of a response, from its `Content-Disposition` header where
/// present and matched, else from its URL's path.
pub fn get_resource_name(content_disposition: Option<&str>, url_path: &str) -> (r: Result<
    String,
    AcquireError,
>)
    ensures
        match r {
            Ok(n) => resource_name_spec(
                match content_disposition {
                    Some(d) => Some(d@),
                    None => None,
                },
                url_path@,
            ) == Ok::<Seq<char>, AcquireError>(n@),
            Err(e) => resource_name_spec(
                match content_disposition {
                    Some(d) => Some(d@),
                    None => None,
                },
                url_path@,
            ) == Err::<Seq<char>, AcquireError>(e),
        },
{
    match content_disposition {
        None => Ok(get_resource_name_from_url(url_path)),
        Some(d) => {
            let pattern = "filename=(.*$)";
            match regex_group_one(pattern, d) {
                Ok(Some(c)) => Ok(resource_name_from_capture(Some(c.as_str()), url_path)),
                Ok(None) => Ok(resource_name_from_capture(None, url_path)),
                Err(_) => Err(AcquireError::InvalidPattern),
            }
        },
    }
}

/// A file name found in the disposition header decides the saved name
/// whatever the URL's path; without the header the name is the path's last
/// segment, or `tmp.bin` where that segment is empty.
pub proof fn lemma_download_name(disposition: Option<Seq<char>>, path1: Seq<char>, path2: Seq<char>)
    ensures
        disposition matches Some(d) && pattern_group_one(disposition_pattern(), d) is Some
            ==> resource_name_spec(disposition, path1) == resource_name_spec(disposition, path2),
        disposition is None ==> resource_name_spec(disposition, path1) == Ok::<
            Seq<char>,
            AcquireError,
        >(if after_last_slash(path1).len() == 0 {
            "tmp.bin"@
        } else {
            after_last_slash(path1)
        }),
{
}

/// `<dir>/<name>`: where a download is staged, or where it is moved to.
pub fn get_asset_path(dir: &str, name: &str) -> (r: String)
    ensures
        r@ == dir@ + "/"@ + name@,
{
    concat3(dir, "/", name)
}

/// The download URL of a location: each `{init}` replaced by the trimmed init
/// output, where there is one.
pub open spec fn location_url(url: Seq<char>, init_output: Option<Seq<char>>) -> Seq<char> {
    match init_output {
        Some(o) => replace_spec(url, "{init}"@, trimmed_of(o)),
        None => url,
    }
}

/// Whether a repository is read for a release asset rather than cloned.
pub open spec fn reads_release(repo: Repo) -> bool {
    repo.from_release == Some(true)
}

/// `a` is how `resource` is fetched, given the init output.
pub open spec fn acquires(resource: Resource, init_output: Option<Seq<char>>, a: Acquisition) -> bool {
    match resource {
        Resource::Location(url) => match a {
            Acquisition::Download { url: u } => u@ == location_url(url@, init_output),
            _ => false,
        },
        Resource::Repo(repo) => {
            let p = provider_or_default(repo.provider);
            if reads_release(repo) {
                match a {
                    Acquisition::ReleaseAsset { api_url, ver, binary_pattern } => api_url@
                        == releases_url_spec(p, repo.repo@) && ver == repo.ver && binary_pattern
                        == repo.binary_pattern,
                    _ => false,
                }
            } else {
                match a {
                    Acquisition::CloneRepo { url, dir_name, ver } => url@ == clone_url_spec(
                        p,
                        repo.repo@,
                    ) && dir_name@ == name_from_path(url@) && ver == repo.ver,
                    _ => false,
                }
            }
        },
    }
}

/// How to fetch a location: download it, with each `{init}` replaced by the
/// trimmed init output where there is one.
pub fn get_resource_location(url: &str, init_output: Option<&str>) -> (r: Acquisition)
    ensures
        match r {
            Acquisition::Download { url: u } => u@ == location_url(
                url@,
                match init_output {
                    Some(o) => Some(o@),
                    None => None,
                },
            ),
            _ => false,
        },
{
    match init_output {
        Some(o) => {
            let t = trim(o);
            proof {
                reveal_strlit("{init}");
            }
            Acquisition::Download { url: replace_token(url, "{init}", t) }
        },
        None => Acquisition::Download { url: url.to_owned() },
    }
}

/// How to fetch a repository: read its release list where it asks for a
/// release asset, else clone it.
pub fn get_resource_repo(repo: &Repo) -> (r: Acquisition)
    ensures
        acquires(Resource::Repo(*repo), None, r),
{
    let p = Providers::from_option(&repo.provider);
    if repo.from_release == Some(true) {
        Acquisition::ReleaseAsset {
            api_url: releases_url(p, repo.repo.as_str()),
            ver: copy_opt_string(&repo.ver),
            binary_pattern: copy_opt_string(&repo.binary_pattern),
        }
    } else {
        let url = clone_url(p, repo.repo.as_str());
        let dir_name = get_resource_name_from_url(url.as_str());
        Acquisition::CloneRepo { url, dir_name, ver: copy_opt_string(&repo.ver) }
    }
}

/// How to fetch a concrete resource.
pub fn get_resource(resource: &Resource, init_output: Option<&str>) -> (r: Acquisition)
    ensures
        acquires(
            *resource,
            match init_output {
                Some(o) => Some(o@),
                None => None,
            },
            r,
        ),
{
    match resource {
        Resource::Location(url) => get_resource_location(url.as_str(), init_output),
        Resource::Repo(repo) => get_resource_repo(repo),
    }
}

/// How to fetch a payload's resource on this OS and architecture; `None`
/// where the selected branch is absent.
pub fn get_adaptive_resource(payload: &Payload, init_output: Option<&str>, os: &str, arch: &str) -> (r:
    Option<Acquisition>)
    ensures
        match resolve_resource_spec(payload.resource, os@, arch@) {
            Some(res) => r is Some && acquires(
                res,
                match init_output {
                    Some(o) => Some(o@),
                    None => None,
                },
                r->0,
            ),
            None => r is None,
        },
{
    match resolve_resource(&payload.resource, os, arch) {
        Some(res) => Some(get_resource(&res, init_output)),
        None => None,
    }
}

} // verus!
