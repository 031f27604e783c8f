use orbiter::acquire::{
    clone_url, get_adaptive_resource, get_resource_location, get_resource_repo, get_asset_path, get_resource, get_resource_name,
    get_resource_name_from_url, releases_url, resource_name_from_capture, Acquisition,
};
use orbiter::config::{AdaptiveResource, Payload, Providers, Repo, Resource};

fn repo(from_release: Option<bool>, provider: Option<Providers>) -> Repo {
    Repo {
        repo: "neovim/neovim".to_string(),
        provider,
        from_release,
        ver: Some("v0.9.5".to_string()),
        binary_pattern: Some("*.tar.gz".to_string()),
    }
}

#[test]
fn disposition_header_names_the_file() {
    assert_eq!(
        get_resource_name(Some("attachment; filename=tool.tar.gz"), "/releases/download/latest"),
        Ok("tool.tar.gz".to_string())
    );
    assert_eq!(get_resource_name(Some("inline"), "/a/b/tool.zip"), Ok("tool.zip".to_string()));
}

#[test]
fn url_path_names_the_file() {
    assert_eq!(get_resource_name(None, "/minikube/releases/latest/minikube-linux-amd64"), Ok("minikube-linux-amd64".to_string()));
    assert_eq!(get_resource_name(None, "/"), Ok("tmp.bin".to_string()));
    assert_eq!(get_resource_name_from_url(""), "tmp.bin");
    assert_eq!(get_resource_name_from_url("/dir/"), "tmp.bin");
    assert_eq!(resource_name_from_capture(Some("x.deb"), "/a/b"), "x.deb");
    assert_eq!(resource_name_from_capture(None, "/a/b"), "b");
}

#[test]
fn location_substitutes_trimmed_init_output() {
    let r = Resource::Location("https://example.com/{init}/tool-{init}.tar.gz".to_string());
    assert_eq!(
        get_resource(&r, Some(" 1.2.3\n")),
        Acquisition::Download { url: "https://example.com/1.2.3/tool-1.2.3.tar.gz".to_string() }
    );
    assert_eq!(
        get_resource(&r, None),
        Acquisition::Download { url: "https://example.com/{init}/tool-{init}.tar.gz".to_string() }
    );
}

#[test]
fn repositories_clone_or_read_releases() {
    assert_eq!(
        get_resource(&Resource::Repo(repo(None, None)), None),
        Acquisition::CloneRepo {
            url: "https://github.com/neovim/neovim".to_string(),
            dir_name: "neovim".to_string(),
            ver: Some("v0.9.5".to_string())
        }
    );
    assert_eq!(
        get_resource(&Resource::Repo(repo(Some(false), Some(Providers::Gitee))), None),
        Acquisition::CloneRepo {
            url: "https://gitee.com/neovim/neovim".to_string(),
            dir_name: "neovim".to_string(),
            ver: Some("v0.9.5".to_string())
        }
    );
    assert_eq!(
        get_resource(&Resource::Repo(repo(Some(true), Some(Providers::GitLab))), Some("ignored")),
        Acquisition::ReleaseAsset {
            api_url: "https://gitlab.com/api/v4/projects/neovim/neovim/releases".to_string(),
            ver: Some("v0.9.5".to_string()),
            binary_pattern: Some("*.tar.gz".to_string())
        }
    );
    assert_eq!(clone_url(Providers::GitLab, "a/b"), "https://gitlab.com/a/b");
    assert_eq!(releases_url(Providers::GitHub, "a/b"), "https://api.github.com/repos/a/b/releases");
    assert_eq!(releases_url(Providers::Gitee, "a/b"), "https://gitee.com/api/v5/repos/a/b/releases");
    assert_eq!(Providers::from_name("gitlab"), Providers::GitLab);
    assert_eq!(Providers::from_name("bitbucket"), Providers::GitHub);
    assert_eq!(Providers::from_option(&None), Providers::GitHub);
}

#[test]
fn absent_branch_acquires_nothing() {
    let p = Payload {
        id: "x".to_string(),
        init: None,
        resource: AdaptiveResource::OSSpecific(orbiter::config::SupportedOSSpecificResource {
            linux: None,
            macos: Some(orbiter::config::OSSpecificResource::Standard(Resource::Location("https://e/x".to_string()))),
            windows: None,
        }),
        extract: None,
        install: None,
        update: None,
        src: None,
        load: None,
        executable: None,
        menu: None,
    };
    assert_eq!(get_adaptive_resource(&p, None, "linux", "x86_64"), None);
    assert_eq!(
        get_adaptive_resource(&p, None, "macos", "x86_64"),
        Some(Acquisition::Download { url: "https://e/x".to_string() })
    );
    assert_eq!(get_asset_path("/stage", "x.zip"), "/stage/x.zip");
}

#[test]
fn location_and_repo_plans() {
    assert_eq!(
        get_resource_location("https://e/{init}.zip", Some("v2\n")),
        Acquisition::Download { url: "https://e/v2.zip".to_string() }
    );
    assert_eq!(
        get_resource_repo(&repo(Some(true), None)),
        Acquisition::ReleaseAsset {
            api_url: "https://api.github.com/repos/neovim/neovim/releases".to_string(),
            ver: Some("v0.9.5".to_string()),
            binary_pattern: Some("*.tar.gz".to_string())
        }
    );
}
