//! Choosing a release, and an asset of it, from a provider's release list.
use vstd::prelude::*;
use crate::pattern::{pattern_compiles, pattern_matches, regex_is_match};
use crate::shells::{arch_of, os_of, Arch, Os};
use crate::text::{contains, contains_spec, eq_ignore_ascii_case, eq_ignore_ascii_case_spec, lower_of, lowercase};

verus! {

/// One downloadable file of a release.
#[derive(Debug, PartialEq, Clone)]
pub struct GitHubReleaseAsset {
    pub name: String,
    pub content_type: String,
    pub browser_download_url: String,
}

/// A tagged release and its assets, as the release list gives them.
#[derive(Debug, PartialEq, Clone)]
pub struct GitHubRelease {
    pub tag_name: String,
    pub assets: Vec<GitHubReleaseAsset>,
}

/// Why no asset could be chosen.
#[derive(Debug, PartialEq, Eq, Structural, Clone, Copy)]
pub enum AcquireError {
    /// No release carries the requested tag, or every release is a nightly.
    NoRelease,
    /// No asset survives the filters.
    NoAsset,
    /// A pattern does not compile.
    InvalidPattern,
    /// The OS has no built-in asset pattern.
    UnsupportedOs,
    /// The architecture has no built-in asset pattern.
    UnsupportedArch,
}

/// The first position at or after `i` whose element satisfies `f`.
pub open spec fn first_from<A>(s: Seq<A>, f: spec_fn(A) -> bool, i: int) -> Option<int>
    decreases s.len() - i,
{
    if i < 0 || i >= s.len() {
        None
    } else if f(s[i]) {
        Some(i)
    } else {
        first_from(s, f, i + 1)
    }
}

proof fn lemma_first_from_found<A>(s: Seq<A>, f: spec_fn(A) -> bool, i: int)
    requires
        0 <= i,
    ensures
        first_from(s, f, i) matches Some(k) ==> i <= k < s.len() && f(s[k]) && forall|j: int|
            i <= j < k ==> !f(s[j]),
        first_from(s, f, i) is None ==> forall|j: int| i <= j < s.len() ==> !f(s[j]),
    decreases s.len() - i,
{
    if i < s.len() && !f(s[i]) {
        lemma_first_from_found(s, f, i + 1);
    }
}

proof fn lemma_first_from_is<A>(s: Seq<A>, f: spec_fn(A) -> bool, i: int, k: int)
    requires
        0 <= i <= k < s.len(),
        f(s[k]),
        forall|j: int| i <= j < k ==> !f(s[j]),
    ensures
        first_from(s, f, i) == Some(k),
    decreases k - i,
{
    if i < k {
        lemma_first_from_is(s, f, i + 1, k);
    }
}

proof fn lemma_first_from_none<A>(s: Seq<A>, f: spec_fn(A) -> bool, i: int)
    requires
        0 <= i,
        forall|j: int| i <= j < s.len() ==> !f(s[j]),
    ensures
        first_from(s, f, i) is None,
    decreases s.len() - i,
{
    if i < s.len() {
        lemma_first_from_none(s, f, i + 1);
    }
}

/// A checksum file, never chosen.
pub open spec fn is_checksum(a: GitHubReleaseAsset) -> bool {
    contains_spec(a.name@, "sha256"@)
}

/// Not a checksum file.
pub open spec fn eligible() -> spec_fn(GitHubReleaseAsset) -> bool {
    |a: GitHubReleaseAsset| !is_checksum(a)
}

/// Eligible and matched by a user pattern.
pub open spec fn user_hit(p: Seq<char>) -> spec_fn(GitHubReleaseAsset) -> bool {
    |a: GitHubReleaseAsset| !is_checksum(a) && pattern_matches(p, a.name@)
}

/// Eligible, with a lower-cased name matched by the OS or the architecture
/// pattern.
pub open spec fn builtin_hit(op: Seq<char>, ap: Seq<char>) -> spec_fn(GitHubReleaseAsset) -> bool {
    |a: GitHubReleaseAsset|
        !is_checksum(a) && (pattern_matches(op, lower_of(a.name@)) || pattern_matches(
            ap,
            lower_of(a.name@),
        ))
}

/// Built-in asset-name pattern of an OS.
pub open spec fn os_pattern(os: Seq<char>) -> Option<Seq<char>> {
    match os_of(os) {
        Some(Os::Linux) => Some("(linux|linux-gnu)"@),
        Some(Os::MacOs) => Some("(darwin|mac|macos|osx|os-x)"@),
        Some(Os::Windows) => Some("(windows|cygwin|[-_]win|win64|win32)"@),
        None => None,
    }
}

/// Built-in asset-name pattern of an architecture.
pub open spec fn arch_pattern(arch: Seq<char>) -> Option<Seq<char>> {
    match arch_of(arch) {
        Some(Arch::X86_64) => Some("(x86_64|amd64|intel|linux64)"@),
        Some(Arch::Aarch64) => Some("(arm64|aarch64)"@),
        None => None,
    }
}

/// The position of the asset chosen from `assets`, or why none is.
pub open spec fn asset_choice(
    assets: Seq<GitHubReleaseAsset>,
    pattern: Option<Seq<char>>,
    os: Seq<char>,
    arch: Seq<char>,
) -> Result<int, AcquireError> {
    match pattern {
        Some(p) => if first_from(assets, eligible(), 0) is None {
            Err(AcquireError::NoAsset)
        } else if !pattern_compiles(p) {
            Err(AcquireError::InvalidPattern)
        } else {
            match first_from(assets, user_hit(p), 0) {
                Some(i) => Ok(i),
                None => Err(AcquireError::NoAsset),
            }
        },
        None => if os_pattern(os) is None {
            Err(AcquireError::UnsupportedOs)
        } else if arch_pattern(arch) is None {
            Err(AcquireError::UnsupportedArch)
        } else {
            let op = os_pattern(os)->0;
            let ap = arch_pattern(arch)->0;
            match first_from(assets, eligible(), 0) {
                None => Err(AcquireError::NoAsset),
                Some(k) => if !(pattern_compiles(op) && pattern_compiles(ap)) {
                    Err(AcquireError::InvalidPattern)
                } else {
                    match first_from(assets, builtin_hit(op, ap), 0) {
                        Some(i) => Ok(i),
                        None => Ok(k),
                    }
                },
            }
        },
    }
}

/// The view of an optional string.
pub open spec fn opt_view(s: Option<String>) -> Option<Seq<char>> {
    match s {
        Some(x) => Some(x@),
        None => None,
    }
}

/// Built-in asset-name pattern of the OS named `os`.
pub fn get_binary_pattern_by_os(os: &str) -> (r: Result<&'static str, AcquireError>)
    ensures
        r is Ok <==> os_pattern(os@) is Some,
        r is Ok ==> r->Ok_0@ == os_pattern(os@)->0,
        r is Err ==> r->Err_0 == AcquireError::UnsupportedOs,
{
    match Os::from_name(os) {
        Some(Os::Linux) => Ok("(linux|linux-gnu)"),
        Some(Os::MacOs) => Ok("(darwin|mac|macos|osx|os-x)"),
        Some(Os::Windows) => Ok("(windows|cygwin|[-_]win|win64|win32)"),
        None => Err(AcquireError::UnsupportedOs),
    }
}

/// Built-in asset-name pattern of the architecture named `arch`.
pub fn get_binary_pattern_by_arch(arch: &str) -> (r: Result<&'static str, AcquireError>)
    ensures
        r is Ok <==> arch_pattern(arch@) is Some,
        r is Ok ==> r->Ok_0@ == arch_pattern(arch@)->0,
        r is Err ==> r->Err_0 == AcquireError::UnsupportedArch,
{
    match Arch::from_name(arch) {
        Some(Arch::X86_64) => Ok("(x86_64|amd64|intel|linux64)"),
        Some(Arch::Aarch64) => Ok("(arm64|aarch64)"),
        None => Err(AcquireError::UnsupportedArch),
    }
}

/// The first position at or after `i` of a non-checksum asset whose flag in
/// `hits` is set.
pub open spec fn first_flagged(assets: Seq<GitHubReleaseAsset>, hits: Seq<bool>, i: int) -> Option<
    int,
>
    decreases assets.len() - i,
{
    if i < 0 || i >= assets.len() {
        None
    } else if !is_checksum(assets[i]) && hits[i] {
        Some(i)
    } else {
        first_flagged(assets, hits, i + 1)
    }
}

/// The position `pick_asset` returns.
pub open spec fn pick_spec(assets: Seq<GitHubReleaseAsset>, hits: Seq<bool>, fallback: bool) -> Option<
    int,
> {
    match first_flagged(assets, hits, 0) {
        Some(i) => Some(i),
        None => if fallback {
            first_from(assets, eligible(), 0)
        } else {
            None
        },
    }
}

proof fn lemma_first_flagged_is_first_from(
    assets: Seq<GitHubReleaseAsset>,
    hits: Seq<bool>,
    f: spec_fn(GitHubReleaseAsset) -> bool,
    i: int,
)
    requires
        0 <= i,
        hits.len() == assets.len(),
        forall|j: int|
            #![trigger assets[j]]
            0 <= j < assets.len() ==> (!is_checksum(assets[j]) && hits[j]) == f(assets[j]),
    ensures
        first_flagged(assets, hits, i) == first_from(assets, f, i),
    decreases assets.len() - i,
{
    if i < assets.len() {
        lemma_first_flagged_is_first_from(assets, hits, f, i + 1);
    }
}

proof fn lemma_first_flagged_found(assets: Seq<GitHubReleaseAsset>, hits: Seq<bool>, i: int)
    requires
        0 <= i,
    ensures
        first_flagged(assets, hits, i) matches Some(k) ==> i <= k < assets.len(),
    decreases assets.len() - i,
{
    if i < assets.len() {
        lemma_first_flagged_found(assets, hits, i + 1);
    }
}

/// Position of the first non-checksum asset flagged in `hits`; where none is
/// and `fallback` holds, the first non-checksum asset.
pub fn pick_asset(assets: &Vec<GitHubReleaseAsset>, hits: &Vec<bool>, fallback: bool) -> (r: Option<
    usize,
>)
    requires
        hits@.len() == assets@.len(),
    ensures
        match r {
            Some(i) => pick_spec(assets@, hits@, fallback) == Some(i as int),
            None => pick_spec(assets@, hits@, fallback) is None,
        },
        r matches Some(i) ==> i < assets@.len(),
{
    proof {
        lemma_first_from_found(assets@, eligible(), 0);
        lemma_first_flagged_found(assets@, hits@, 0);
    }
    let mut first_plain: Option<usize> = None;
    let mut i: usize = 0;
    while i < assets.len()
        invariant
            i <= assets@.len(),
            hits@.len() == assets@.len(),
            first_flagged(assets@, hits@, 0) == first_flagged(assets@, hits@, i as int),
            match first_plain {
                Some(k) => first_from(assets@, eligible(), 0) == Some(k as int),
                None => first_from(assets@, eligible(), 0) == first_from(
                    assets@,
                    eligible(),
                    i as int,
                ),
            },
        decreases assets@.len() - i,
    {
        if !contains(&assets[i].name, "sha256") {
            if hits[i] {
                return Some(i);
            }
            if first_plain.is_none() {
                first_plain = Some(i);
            }
        }
        i += 1;
    }
    if fallback {
        first_plain
    } else {
        None
    }
}

/// Whether a non-checksum asset of the list comes at or after `i`.
pub open spec fn eligible_from(assets: Seq<GitHubReleaseAsset>, i: int) -> bool {
    exists|j: int| i <= j < assets.len() && !is_checksum(#[trigger] assets[j])
}

/// Match flags of a user pattern over the assets; checksum files are never
/// flagged, and the pattern is only tried on the others.
fn user_hits(assets: &Vec<GitHubReleaseAsset>, p: &str) -> (r: Result<Vec<bool>, AcquireError>)
    ensures
        match r {
            Ok(h) => h@.len() == assets@.len() && (eligible_from(assets@, 0) ==> pattern_compiles(
                p@,
            )) && forall|j: int|
                0 <= j < assets@.len() ==> h@[j] == user_hit(p@)(#[trigger] assets@[j]),
            Err(e) => e == AcquireError::InvalidPattern && !pattern_compiles(p@) && eligible_from(
                assets@,
                0,
            ),
        },
{
    let mut hits: Vec<bool> = Vec::new();
    let mut i: usize = 0;
    while i < assets.len()
        invariant
            i <= assets@.len(),
            hits@.len() == i,
            forall|j: int| 0 <= j < i ==> hits@[j] == user_hit(p@)(#[trigger] assets@[j]),
            (exists|j: int| 0 <= j < i && !is_checksum(#[trigger] assets@[j])) ==> pattern_compiles(
                p@,
            ),
        decreases assets@.len() - i,
    {
        if contains(&assets[i].name, "sha256") {
            hits.push(false);
        } else {
            match regex_is_match(p, &assets[i].name) {
                Ok(b) => hits.push(b),
                Err(_) => {
                    assert(!is_checksum(assets@[i as int]));
                    return Err(AcquireError::InvalidPattern);
                },
            }
        }
        i += 1;
    }
    Ok(hits)
}

/// Match flags of the built-in OS and architecture patterns over the assets'
/// lower-cased names; checksum files are never flagged.
fn builtin_hits(assets: &Vec<GitHubReleaseAsset>, op: &str, ap: &str) -> (r: Result<
    Vec<bool>,
    AcquireError,
>)
    ensures
        match r {
            Ok(h) => h@.len() == assets@.len() && (eligible_from(assets@, 0) ==> (pattern_compiles(
                op@,
            ) && pattern_compiles(ap@))) && forall|j: int|
                0 <= j < assets@.len() ==> h@[j] == builtin_hit(op@, ap@)(#[trigger] assets@[j]),
            Err(e) => e == AcquireError::InvalidPattern && !(pattern_compiles(op@)
                && pattern_compiles(ap@)) && eligible_from(assets@, 0),
        },
{
    let mut hits: Vec<bool> = Vec::new();
    let mut i: usize = 0;
    while i < assets.len()
        invariant
            i <= assets@.len(),
            hits@.len() == i,
            forall|j: int| 0 <= j < i ==> hits@[j] == builtin_hit(op@, ap@)(#[trigger] assets@[j]),
            (exists|j: int| 0 <= j < i && !is_checksum(#[trigger] assets@[j])) ==> (
            pattern_compiles(op@) && pattern_compiles(ap@)),
        decreases assets@.len() - i,
    {
        if contains(&assets[i].name, "sha256") {
            hits.push(false);
        } else {
            let lower = lowercase(&assets[i].name);
            match (regex_is_match(op, &lower), regex_is_match(ap, &lower)) {
                (Ok(x), Ok(y)) => hits.push(x || y),
                _ => {
                    assert(!is_checksum(assets@[i as int]));
                    return Err(AcquireError::InvalidPattern);
                },
            }
        }
        i += 1;
    }
    Ok(hits)
}

proof fn lemma_eligible_from_first(assets: Seq<GitHubReleaseAsset>)
    ensures
        eligible_from(assets, 0) <==> first_from(assets, eligible(), 0) is Some,
{
    lemma_first_from_found(assets, eligible(), 0);
    if eligible_from(assets, 0) && first_from(assets, eligible(), 0) is None {
        let j = choose|j: int| 0 <= j < assets.len() && !is_checksum(#[trigger] assets[j]);
        assert(eligible()(assets[j]));
    }
}

/// Position of the asset to download from `assets`: with a user pattern, the
/// first non-checksum asset it matches; otherwise the first non-checksum asset
/// whose lower-cased name the built-in OS or architecture pattern matches,
/// falling back to the first non-checksum asset.
pub fn select_asset(
    assets: &Vec<GitHubReleaseAsset>,
    binary_pattern: &Option<String>,
    os: &str,
    arch: &str,
) -> (r: Result<usize, AcquireError>)
    ensures
        match r {
            Ok(i) => asset_choice(assets@, opt_view(*binary_pattern), os@, arch@) == Ok::<
                int,
                AcquireError,
            >(i as int),
            Err(e) => asset_choice(assets@, opt_view(*binary_pattern), os@, arch@) == Err::<
                int,
                AcquireError,
            >(e),
        },
        r matches Ok(i) ==> i < assets@.len(),
{
    proof {
        lemma_eligible_from_first(assets@);
    }
    match binary_pattern {
        Some(p) => {
            let hits = user_hits(assets, p.as_str())?;
            proof {
                lemma_first_flagged_is_first_from(assets@, hits@, user_hit(p@), 0);
                lemma_first_from_found(assets@, user_hit(p@), 0);
            }
            match pick_asset(assets, &hits, false) {
                Some(i) => {
                    assert(!is_checksum(assets@[i as int]));
                    assert(eligible_from(assets@, 0));
                    Ok(i)
                },
                None => Err(AcquireError::NoAsset),
            }
        },
        None => {
            let op = get_binary_pattern_by_os(os)?;
            let ap = get_binary_pattern_by_arch(arch)?;
            let hits = builtin_hits(assets, op, ap)?;
            proof {
                lemma_first_flagged_is_first_from(assets@, hits@, builtin_hit(op@, ap@), 0);
            }
            match pick_asset(assets, &hits, true) {
                Some(i) => {
                    proof {
                        lemma_first_from_found(assets@, builtin_hit(op@, ap@), 0);
                        lemma_first_from_found(assets@, eligible(), 0);
                    }
                    assert(!is_checksum(assets@[i as int]));
                    assert(eligible_from(assets@, 0));
                    Ok(i)
                },
                None => Err(AcquireError::NoAsset),
            }
        },
    }
}

/// The chosen asset is one of the listed assets and never a checksum file,
/// whatever the patterns would match.
pub proof fn lemma_chosen_asset_is_listed_and_not_checksum(
    assets: Seq<GitHubReleaseAsset>,
    pattern: Option<Seq<char>>,
    os: Seq<char>,
    arch: Seq<char>,
)
    ensures
        asset_choice(assets, pattern, os, arch) matches Ok(i) ==> 0 <= i < assets.len()
            && !is_checksum(assets[i]),
{
    lemma_first_from_found(assets, eligible(), 0);
    match pattern {
        Some(p) => lemma_first_from_found(assets, user_hit(p), 0),
        None => {
            if os_pattern(os) is Some && arch_pattern(arch) is Some {
                lemma_first_from_found(
                    assets,
                    builtin_hit(os_pattern(os)->0, arch_pattern(arch)->0),
                    0,
                );
            }
        },
    }
}

/// A user pattern alone decides the choice: the OS and architecture play no
/// part, the chosen asset matches the pattern, and when no asset matches there
/// is no fallback.
pub proof fn lemma_user_pattern_alone_decides(
    assets: Seq<GitHubReleaseAsset>,
    p: Seq<char>,
    os1: Seq<char>,
    arch1: Seq<char>,
    os2: Seq<char>,
    arch2: Seq<char>,
)
    ensures
        asset_choice(assets, Some(p), os1, arch1) == asset_choice(assets, Some(p), os2, arch2),
        asset_choice(assets, Some(p), os1, arch1) matches Ok(i) ==> pattern_matches(
            p,
            assets[i].name@,
        ),
        (forall|j: int| 0 <= j < assets.len() ==> !pattern_matches(p, #[trigger] assets[j].name@))
            ==> asset_choice(assets, Some(p), os1, arch1) is Err,
{
    lemma_first_from_found(assets, user_hit(p), 0);
    if forall|j: int| 0 <= j < assets.len() ==> !pattern_matches(p, #[trigger] assets[j].name@) {
        assert forall|j: int| 0 <= j < assets.len() implies !user_hit(p)(assets[j]) by {
            assert(!pattern_matches(p, assets[j].name@));
        }
        lemma_first_from_none(assets, user_hit(p), 0);
    }
}

/// Without a user pattern, when no non-checksum asset matches the OS or the
/// architecture pattern, the first non-checksum asset in list order is chosen.
pub proof fn lemma_fallback_is_first_non_checksum(
    assets: Seq<GitHubReleaseAsset>,
    os: Seq<char>,
    arch: Seq<char>,
    k: int,
)
    requires
        os_pattern(os) is Some,
        arch_pattern(arch) is Some,
        pattern_compiles(os_pattern(os)->0),
        pattern_compiles(arch_pattern(arch)->0),
        0 <= k < assets.len(),
        !is_checksum(assets[k]),
        forall|j: int| 0 <= j < k ==> is_checksum(#[trigger] assets[j]),
        forall|j: int|
            0 <= j < assets.len() ==> !pattern_matches(os_pattern(os)->0, lower_of(#[trigger] assets[j].name@))
                && !pattern_matches(arch_pattern(arch)->0, lower_of(assets[j].name@)),
    ensures
        asset_choice(assets, None, os, arch) == Ok::<int, AcquireError>(k),
{
    let op = os_pattern(os)->0;
    let ap = arch_pattern(arch)->0;
    assert(eligible()(assets[k]));
    assert forall|j: int| 0 <= j < k implies !eligible()(assets[j]) by {
        assert(is_checksum(assets[j]));
    }
    lemma_first_from_is(assets, eligible(), 0, k);
    assert forall|j: int| 0 <= j < assets.len() implies !builtin_hit(op, ap)(assets[j]) by {
        assert(!pattern_matches(op, lower_of(assets[j].name@)));
    }
    lemma_first_from_none(assets, builtin_hit(op, ap), 0);
}

/// The release to read: the first whose tag equals `ver` up to ASCII case, or,
/// without `ver`, the first whose tag does not mention `nightly`.
pub open spec fn release_pred(ver: Option<Seq<char>>) -> spec_fn(GitHubRelease) -> bool {
    match ver {
        Some(v) => |r: GitHubRelease| eq_ignore_ascii_case_spec(r.tag_name@, v),
        None => |r: GitHubRelease| !contains_spec(r.tag_name@, "nightly"@),
    }
}

/// Position of the release to read in a newest-first release list.
pub fn select_release(releases: &Vec<GitHubRelease>, ver: &Option<String>) -> (r: Result<
    usize,
    AcquireError,
>)
    ensures
        match r {
            Ok(i) => first_from(releases@, release_pred(opt_view(*ver)), 0) == Some(i as int),
            Err(e) => e == AcquireError::NoRelease && first_from(
                releases@,
                release_pred(opt_view(*ver)),
                0,
            ) is None,
        },
        r matches Ok(i) ==> i < releases@.len(),
{
    let mut i: usize = 0;
    while i < releases.len()
        invariant
            i <= releases@.len(),
            first_from(releases@, release_pred(opt_view(*ver)), 0) == first_from(
                releases@,
                release_pred(opt_view(*ver)),
                i as int,
            ),
        decreases releases@.len() - i,
    {
        let tag = &releases[i].tag_name;
        let hit = match ver {
            Some(v) => eq_ignore_ascii_case(tag.as_str(), v.as_str()),
            None => !contains(tag.as_str(), "nightly"),
        };
        if hit {
            return Ok(i);
        }
        i += 1;
    }
    Err(AcquireError::NoRelease)
}

/// The download URL of the asset chosen from a release, or why none is.
pub open spec fn matched_url_spec(
    release: GitHubRelease,
    pattern: Option<Seq<char>>,
    os: Seq<char>,
    arch: Seq<char>,
) -> Result<Seq<char>, AcquireError> {
    match asset_choice(release.assets@, pattern, os, arch) {
        Ok(i) => Ok(release.assets@[i].browser_download_url@),
        Err(e) => Err(e),
    }
}

/// The download URL of the asset chosen from `release`.
pub fn get_matched_asset_url(
    binary_pattern: &Option<String>,
    release: &GitHubRelease,
    os: &str,
    arch: &str,
) -> (r: Result<String, AcquireError>)
    ensures
        match r {
            Ok(u) => matched_url_spec(*release, opt_view(*binary_pattern), os@, arch@) == Ok::<
                Seq<char>,
                AcquireError,
            >(u@),
            Err(e) => matched_url_spec(*release, opt_view(*binary_pattern), os@, arch@) == Err::<
                Seq<char>,
                AcquireError,
            >(e),
        },
{
    let i = select_asset(&release.assets, binary_pattern, os, arch)?;
    Ok(release.assets[i].browser_download_url.clone())
}

/// The download URL of the asset to install from a newest-first release list:
/// the release is chosen by `ver`, then the asset by pattern, OS and
/// architecture.
pub fn get_repo_release_asset_url(
    releases: &Vec<GitHubRelease>,
    ver: &Option<String>,
    binary_pattern: &Option<String>,
    os: &str,
    arch: &str,
) -> (r: Result<String, AcquireError>)
    ensures
        match first_from(releases@, release_pred(opt_view(*ver)), 0) {
            None => r == Err::<String, AcquireError>(AcquireError::NoRelease),
            Some(k) => match r {
                Ok(u) => matched_url_spec(releases@[k], opt_view(*binary_pattern), os@, arch@)
                    == Ok::<Seq<char>, AcquireError>(u@),
                Err(e) => matched_url_spec(releases@[k], opt_view(*binary_pattern), os@, arch@)
                    == Err::<Seq<char>, AcquireError>(e),
            },
        },
{
    let k = select_release(releases, ver)?;
    get_matched_asset_url(binary_pattern, &releases[k], os, arch)
}

} // verus!
