//! Comparing release versions under semantic-versioning precedence.
use vstd::prelude::*;
use crate::release::ReleaseInfo;

verus! {

/// The version of this launcher.
pub const LAUNCHER_VERSION: &'static str = "0.1.0";

#[verifier::external_type_specification]
#[verifier::external_body]
pub struct ExSemverVersion(semver::Version);

/// What a version text parses to: major, minor, patch and the pre-release
/// part, or `None` where the text is no semantic version.
pub uninterp spec fn semver_parse(text: Seq<char>) -> Option<(u64, u64, u64, Seq<char>)>;

/// Whether the first version takes precedence over the second.
pub uninterp spec fn semver_precedes(a: (u64, u64, u64, Seq<char>), b: (u64, u64, u64, Seq<char>)) -> bool;

/// Whether `(a0, a1, a2)` is above `(b0, b1, b2)` in numeric lexicographic order.
pub open spec fn triple_gt(a: (u64, u64, u64, Seq<char>), b: (u64, u64, u64, Seq<char>)) -> bool {
    a.0 > b.0 || (a.0 == b.0 && (a.1 > b.1 || (a.1 == b.1 && a.2 > b.2)))
}

/// A parsed semantic version.
struct SemVer {
    major: u64,
    minor: u64,
    patch: u64,
    pre: String,
    version: semver::Version,
}

impl View for SemVer {
    type V = (u64, u64, u64, Seq<char>);

    closed spec fn view(&self) -> (u64, u64, u64, Seq<char>) {
        (self.major, self.minor, self.patch, self.pre@)
    }
}

/// Relies on semver::Version::parse: the version's numeric parts and its
/// pre-release identifiers, or an error where the text is no semantic version.
#[verifier::external_body]
fn parse_semver(text: &str) -> (r: Option<SemVer>)
    ensures
        r is Some <==> semver_parse(text@) is Some,
        r matches Some(v) ==> semver_parse(text@) == Some(v@),
{
    match semver::Version::parse(text) {
        Ok(v) => Some(SemVer {
            major: v.major,
            minor: v.minor,
            patch: v.patch,
            pre: v.pre.as_str().to_string(),
            version: v,
        }),
        Err(_) => None,
    }
}

/// Relies on semver::Version::cmp_precedence: numeric order of major, minor
/// and patch first; on a tie, a version without pre-release part comes after
/// one with it; build metadata is disregarded.
#[verifier::external_body]
fn precedes(a: &SemVer, b: &SemVer) -> (r: bool)
    ensures
        r == semver_precedes(a@, b@),
        (a.major, a.minor, a.patch) != (b.major, b.minor, b.patch) ==> r == triple_gt(a@, b@),
        a@ == b@ ==> !r,
        (a.major, a.minor, a.patch) == (b.major, b.minor, b.patch) && a.pre@.len() == 0
            && b.pre@.len() > 0 ==> r,
        (a.major, a.minor, a.patch) == (b.major, b.minor, b.patch) && a.pre@.len() > 0
            && b.pre@.len() == 0 ==> !r,
{
    a.version.cmp_precedence(&b.version) == std::cmp::Ordering::Greater
}

/// Whether `candidate` is a newer version than `current`: both parse, and the
/// candidate takes precedence.
pub open spec fn newer_than(candidate: Seq<char>, current: Seq<char>) -> bool {
    match (semver_parse(candidate), semver_parse(current)) {
        (Some(a), Some(b)) => semver_precedes(a, b),
        _ => false,
    }
}

/// Whether version text `candidate` is newer than `current`; an unparsable
/// text on either side is never newer.
pub fn version_is_newer(candidate: &str, current: &str) -> (r: bool)
    ensures
        r == newer_than(candidate@, current@),
{
    let latest = match parse_semver(candidate) {
        Some(v) => v,
        None => return false,
    };
    let installed = match parse_semver(current) {
        Some(v) => v,
        None => return false,
    };
    precedes(&latest, &installed)
}

/// Whether `release` is newer than the `current` version.
pub fn is_newer(release: &ReleaseInfo, current: &str) -> (r: bool)
    ensures
        r == newer_than(release.version@, current@),
{
    version_is_newer(release.version.as_str(), current)
}

} // verus!
