//! Resolving the release that matches the running platform.
use vstd::prelude::*;
use crate::text::{concat3, strip_leading_char, trim_start_char};

verus! {

/// CPU architectures that releases are published for.
#[derive(Debug, Clone, Copy, PartialEq, Eq, Structural)]
pub enum Arch {
    X86_64,
    Aarch64,
}

/// Operating systems that releases are published for.
#[derive(Debug, Clone, Copy, PartialEq, Eq, Structural)]
pub enum Os {
    MacOs,
    Linux,
}

/// The platform the launcher runs on, resolved once at startup.
#[derive(Debug, Clone, Copy, PartialEq, Eq, Structural)]
pub struct Platform {
    pub arch: Arch,
    pub os: Os,
}

pub open spec fn arch_name(arch: Arch) -> Seq<char> {
    match arch {
        Arch::X86_64 => "x86_64"@,
        Arch::Aarch64 => "aarch64"@,
    }
}

pub open spec fn target_suffix(os: Os) -> Seq<char> {
    match os {
        Os::MacOs => "apple-darwin"@,
        Os::Linux => "unknown-linux-musl"@,
    }
}

/// The name of the release asset built for `p`.
pub open spec fn asset_name_of(p: Platform) -> Seq<char> {
    "concierge-"@ + arch_name(p.arch) + "-"@ + target_suffix(p.os)
}

/// The architecture's name in asset names.
pub fn arch_str(arch: Arch) -> (r: &'static str)
    ensures
        r@ == arch_name(arch),
{
    match arch {
        Arch::X86_64 => "x86_64",
        Arch::Aarch64 => "aarch64",
    }
}

/// The target part of asset names: macOS builds are `apple-darwin`, all
/// others the static Linux build.
pub fn asset_target_suffix(os: Os) -> (r: &'static str)
    ensures
        r@ == target_suffix(os),
{
    match os {
        Os::MacOs => "apple-darwin",
        Os::Linux => "unknown-linux-musl",
    }
}

/// `concierge-{arch}-{target}`.
pub fn asset_name(p: Platform) -> (r: String)
    ensures
        r@ == asset_name_of(p),
{
    let mut r = concat3("concierge-", arch_str(p.arch), "-");
    r.append(asset_target_suffix(p.os));
    r
}

/// A release chosen for installation.
#[derive(Debug, Clone)]
pub struct ReleaseInfo {
    /// The release's version, without the tag's leading `v`.
    pub version: String,
    /// Where the binary asset is downloaded from.
    pub download_url: String,
}

/// One asset of a published release.
#[derive(Debug, Clone)]
pub struct GitHubAsset {
    pub name: String,
    pub browser_download_url: String,
}

/// The release registry's description of its latest release.
#[derive(Debug, Clone)]
pub struct GitHubRelease {
    pub tag_name: String,
    pub assets: Vec<GitHubAsset>,
}

/// The first asset of `assets` whose name is `name`.
pub open spec fn first_asset_named(assets: Seq<GitHubAsset>, name: Seq<char>) -> Option<GitHubAsset>
    decreases assets.len(),
{
    if assets.len() == 0 {
        None
    } else if assets[0].name@ == name {
        Some(assets[0])
    } else {
        first_asset_named(assets.drop_first(), name)
    }
}

/// The release that the registry's answer offers for `p`, as version and URL.
pub open spec fn release_for(r: GitHubRelease, p: Platform) -> Option<(Seq<char>, Seq<char>)> {
    match first_asset_named(r.assets@, asset_name_of(p)) {
        Some(a) => Some((trim_start_char(r.tag_name@, 'v'), a.browser_download_url@)),
        None => None,
    }
}

pub open spec fn info_view(i: ReleaseInfo) -> (Seq<char>, Seq<char>) {
    (i.version@, i.download_url@)
}

pub open spec fn opt_info_view(o: Option<ReleaseInfo>) -> Option<(Seq<char>, Seq<char>)> {
    match o {
        Some(i) => Some(info_view(i)),
        None => None,
    }
}

/// Picks, from the registry's latest release, the asset built for `platform`.
pub fn select_release(release: &GitHubRelease, platform: Platform) -> (r: Option<ReleaseInfo>)
    ensures
        opt_info_view(r) == release_for(*release, platform),
{
    let target = asset_name(platform);
    let n = release.assets.len();
    let mut i: usize = 0;
    assert(release.assets@.subrange(0, n as int) =~= release.assets@);
    while i < n
        invariant
            n == release.assets@.len(),
            i <= n,
            target@ == asset_name_of(platform),
            first_asset_named(release.assets@, target@) == first_asset_named(
                release.assets@.subrange(i as int, n as int),
                target@,
            ),
        decreases n - i,
    {
        let a = &release.assets[i];
        assert(release.assets@.subrange(i as int, n as int).drop_first() =~= release.assets@.subrange(
            i as int + 1,
            n as int,
        ));
        if a.name == target {
            let version = strip_leading_char(release.tag_name.as_str(), 'v');
            return Some(ReleaseInfo { version, download_url: a.browser_download_url.clone() });
        }
        i = i + 1;
    }
    assert(release.assets@.subrange(n as int, n as int).len() == 0);
    None
}

/// Why a download did not deliver a body.
#[derive(Debug, Clone, Copy, PartialEq, Eq, Structural)]
pub enum FetchError {
    /// Connection, name resolution or timeout failure.
    Network,
    /// The server answered with a status outside 200..=299.
    HttpStatus(u16),
    /// The body could not be decoded as the expected document.
    Decode,
}

pub open spec fn is_success_status(status: u16) -> bool {
    200 <= status <= 299
}

/// What a completed HTTP exchange yields: the body on a 2xx status, the
/// status as an error otherwise.
pub fn fetch_outcome(status: u16, body: Vec<u8>) -> (r: Result<Vec<u8>, FetchError>)
    ensures
        is_success_status(status) ==> r == Ok::<Vec<u8>, FetchError>(body),
        !is_success_status(status) ==> r == Err::<Vec<u8>, FetchError>(FetchError::HttpStatus(status)),
{
    if 200 <= status && status <= 299 {
        Ok(body)
    } else {
        Err(FetchError::HttpStatus(status))
    }
}

pub open spec fn resolve_outcome(
    metadata: Result<GitHubRelease, FetchError>,
    p: Platform,
) -> Result<Option<(Seq<char>, Seq<char>)>, FetchError> {
    match metadata {
        Ok(r) => Ok(release_for(r, p)),
        Err(FetchError::HttpStatus(_)) => Ok(None),
        Err(e) => Err(e),
    }
}

/// Resolves the release for `platform` from the registry's answer. A
/// non-success status means that no release is published; network and
/// decoding failures are reported.
pub fn check_latest_release_inner(
    metadata: Result<GitHubRelease, FetchError>,
    platform: Platform,
) -> (r: Result<Option<ReleaseInfo>, FetchError>)
    ensures
        match r {
            Ok(o) => resolve_outcome(metadata, platform) == Ok::<
                Option<(Seq<char>, Seq<char>)>,
                FetchError,
            >(opt_info_view(o)),
            Err(e) => resolve_outcome(metadata, platform) == Err::<
                Option<(Seq<char>, Seq<char>)>,
                FetchError,
            >(e),
        },
{
    match metadata {
        Ok(release) => Ok(select_release(&release, platform)),
        Err(FetchError::HttpStatus(_)) => Ok(None),
        Err(e) => Err(e),
    }
}

/// The passive check's view of the registry: any failure reads as "no
/// release available".
pub fn check_latest_release(
    metadata: Result<GitHubRelease, FetchError>,
    platform: Platform,
) -> (r: Option<ReleaseInfo>)
    ensures
        opt_info_view(r) == match resolve_outcome(metadata, platform) {
            Ok(o) => o,
            Err(_) => None,
        },
{
    match check_latest_release_inner(metadata, platform) {
        Ok(o) => o,
        Err(_) => None,
    }
}

} // verus!
