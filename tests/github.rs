use orbiter::github::{
    get_binary_pattern_by_arch, get_binary_pattern_by_os, get_matched_asset_url,
    get_repo_release_asset_url, pick_asset, select_asset, select_release, AcquireError, GitHubRelease,
    GitHubReleaseAsset,
};

fn asset(name: &str) -> GitHubReleaseAsset {
    GitHubReleaseAsset {
        name: name.to_string(),
        content_type: "application/octet-stream".to_string(),
        browser_download_url: format!("https://example.com/dl/{}", name),
    }
}

fn release(tag: &str, names: &[&str]) -> GitHubRelease {
    GitHubRelease { tag_name: tag.to_string(), assets: names.iter().map(|n| asset(n)).collect() }
}

#[test]
fn picks_linux_x86_64_asset() {
    let r = release("v1.0", &["tool-linux-x86_64.tar.gz", "tool-darwin-arm64.tar.gz", "tool.sha256"]);
    assert_eq!(
        get_matched_asset_url(&None, &r, "linux", "x86_64"),
        Ok("https://example.com/dl/tool-linux-x86_64.tar.gz".to_string())
    );
    assert_eq!(
        get_matched_asset_url(&None, &r, "macos", "aarch64"),
        Ok("https://example.com/dl/tool-darwin-arm64.tar.gz".to_string())
    );
}

#[test]
fn checksum_file_is_never_selected() {
    let r = release("v1.0", &["tool.sha256", "tool-linux-x86_64.tar.gz"]);
    assert_eq!(select_asset(&r.assets, &Some("tool".to_string()), "linux", "x86_64"), Ok(1));
    assert_eq!(select_asset(&r.assets, &Some("sha256".to_string()), "linux", "x86_64"), Err(AcquireError::NoAsset));
    let only = release("v1.0", &["tool-linux-x86_64.sha256"]);
    assert_eq!(select_asset(&only.assets, &None, "linux", "x86_64"), Err(AcquireError::NoAsset));
}

#[test]
fn user_pattern_alone_decides() {
    let r = release("v1.0", &["nvim-linux64.tar.gz", "nvim-macos.tar.gz", "nvim.appimage"]);
    let p = Some(r"appimage$".to_string());
    assert_eq!(select_asset(&r.assets, &p, "linux", "x86_64"), Ok(2));
    assert_eq!(select_asset(&r.assets, &p, "plan9", "mips"), Ok(2));
    let none = Some("\\.msi$".to_string());
    assert_eq!(select_asset(&r.assets, &none, "linux", "x86_64"), Err(AcquireError::NoAsset));
    let bad = Some("(unclosed".to_string());
    assert_eq!(select_asset(&r.assets, &bad, "linux", "x86_64"), Err(AcquireError::InvalidPattern));
}

#[test]
fn falls_back_to_first_non_checksum_asset() {
    let r = release("v1.0", &["SHA256SUMS.sha256", "source.tar.gz", "docs.zip"]);
    assert_eq!(select_asset(&r.assets, &None, "linux", "x86_64"), Ok(1));
    assert_eq!(
        get_matched_asset_url(&None, &r, "windows", "aarch64"),
        Ok("https://example.com/dl/source.tar.gz".to_string())
    );
}

#[test]
fn os_or_arch_match_is_enough() {
    let r = release("v1.0", &["tool-darwin-amd64.zip", "tool-linux-arm64.zip"]);
    assert_eq!(select_asset(&r.assets, &None, "linux", "x86_64"), Ok(0));
    let upper = release("v1.0", &["Tool-Windows.zip", "Tool-Linux.zip"]);
    assert_eq!(select_asset(&upper.assets, &None, "linux", "riscv"), Err(AcquireError::UnsupportedArch));
    assert_eq!(select_asset(&upper.assets, &None, "linux", "aarch64"), Ok(1));
}

#[test]
fn unsupported_platform_is_an_error() {
    let r = release("v1.0", &["a.tar.gz"]);
    assert_eq!(select_asset(&r.assets, &None, "freebsd", "x86_64"), Err(AcquireError::UnsupportedOs));
    assert_eq!(get_binary_pattern_by_os("freebsd"), Err(AcquireError::UnsupportedOs));
    assert_eq!(get_binary_pattern_by_os("windows"), Ok("(windows|cygwin|[-_]win|win64|win32)"));
    assert_eq!(get_binary_pattern_by_arch("amd64"), Ok("(x86_64|amd64|intel|linux64)"));
    assert_eq!(get_binary_pattern_by_arch("sparc"), Err(AcquireError::UnsupportedArch));
}

#[test]
fn release_is_chosen_by_tag_or_skips_nightly() {
    let rs = vec![
        release("nightly", &["n-linux.tar.gz"]),
        release("V0.9.5", &["s-linux.tar.gz"]),
        release("v0.9.4", &["o-linux.tar.gz"]),
    ];
    assert_eq!(select_release(&rs, &None), Ok(1));
    assert_eq!(select_release(&rs, &Some("v0.9.5".to_string())), Ok(1));
    assert_eq!(select_release(&rs, &Some("v0.9.4".to_string())), Ok(2));
    assert_eq!(select_release(&rs, &Some("v1.0".to_string())), Err(AcquireError::NoRelease));
    assert_eq!(select_release(&rs[..1].to_vec(), &None), Err(AcquireError::NoRelease));
    assert_eq!(
        get_repo_release_asset_url(&rs, &Some("V0.9.4".to_string()), &None, "linux", "x86_64"),
        Ok("https://example.com/dl/o-linux.tar.gz".to_string())
    );
}

#[test]
fn pick_asset_takes_first_flagged_or_falls_back() {
    let r = release("v1", &["a.sha256", "b.tar.gz", "c.zip", "d.deb"]);
    assert_eq!(pick_asset(&r.assets, &vec![false, false, true, true], false), Some(2));
    assert_eq!(pick_asset(&r.assets, &vec![true, false, false, false], false), None);
    assert_eq!(pick_asset(&r.assets, &vec![true, false, false, false], true), Some(1));
    assert_eq!(pick_asset(&r.assets, &vec![false, false, false, false], true), Some(1));
    let only_sums = release("v1", &["a.sha256"]);
    assert_eq!(pick_asset(&only_sums.assets, &vec![true], true), None);
}

#[test]
fn empty_lists_give_errors() {
    let empty = release("v1", &[]);
    assert_eq!(select_asset(&empty.assets, &None, "linux", "x86_64"), Err(AcquireError::NoAsset));
    assert_eq!(select_asset(&empty.assets, &Some("x".to_string()), "linux", "x86_64"), Err(AcquireError::NoAsset));
    assert_eq!(select_release(&vec![], &None), Err(AcquireError::NoRelease));
    assert_eq!(
        get_repo_release_asset_url(&vec![], &None, &None, "linux", "x86_64"),
        Err(AcquireError::NoRelease)
    );
}
