//! What the launcher does on startup, from its arguments and settings.
use vstd::prelude::*;
use crate::release::ReleaseInfo;
use crate::text::{concat3, str_eq};
use crate::version::{is_newer, newer_than};

verus! {

/// The launcher's own flag, which asks for a forced self-update.
pub open spec fn is_self_update_flag(a: Seq<char>) -> bool {
    a == "--self-update"@
}

/// Whether the launcher's own flag is among `args` (the program name excluded).
pub fn parse_launcher_args(args: &Vec<String>) -> (r: bool)
    ensures
        r == exists|i: int| 0 <= i < args@.len() && is_self_update_flag(#[trigger] args@[i]@),
{
    let mut i: usize = 0;
    while i < args.len()
        invariant
            i <= args@.len(),
            forall|j: int| 0 <= j < i ==> !is_self_update_flag(#[trigger] args@[j]@),
        decreases args@.len() - i,
    {
        if str_eq(args[i].as_str(), "--self-update") {
            return true;
        }
        i = i + 1;
    }
    false
}

/// `args` without the launcher's own flag, in their order.
pub open spec fn forwarded(args: Seq<Seq<char>>) -> Seq<Seq<char>> {
    args.filter(|a: Seq<char>| !is_self_update_flag(a))
}

/// The arguments handed on to the Python entry point: all but the launcher's own flag.
pub fn forwarded_args(args: &Vec<String>) -> (r: Vec<String>)
    ensures
        r@.map_values(|s: String| s@) == forwarded(args@.map_values(|s: String| s@)),
{
    let ghost all = args@.map_values(|s: String| s@);
    let mut r: Vec<String> = Vec::new();
    let mut i: usize = 0;
    assert(all.subrange(0, 0) =~= Seq::<Seq<char>>::empty());
    while i < args.len()
        invariant
            i <= args@.len(),
            all == args@.map_values(|s: String| s@),
            r@.map_values(|s: String| s@) == forwarded(all.subrange(0, i as int)),
        decreases args@.len() - i,
    {
        let ghost prev = r@.map_values(|s: String| s@);
        assert(all.subrange(0, i + 1).drop_last() =~= all.subrange(0, i as int));
        assert(all.subrange(0, i + 1).last() == all[i as int]);
        assert(all[i as int] == args@[i as int]@);
        proof {
            reveal(Seq::filter);
        }
        if !str_eq(args[i].as_str(), "--self-update") {
            r.push(args[i].clone());
            assert(r@.map_values(|s: String| s@) =~= prev.push(all[i as int]));
        } else {
            assert(r@.map_values(|s: String| s@) =~= prev);
        }
        i = i + 1;
    }
    assert(all.subrange(0, args@.len() as int) =~= all);
    r
}

/// What startup does about updates.
#[derive(Debug, Clone, Copy, PartialEq, Eq, Structural)]
pub enum UpdateMode {
    /// Install the latest release now, and report every failure.
    Forced,
    /// Look for a newer release and only advise; never fail.
    Passive,
    /// Do not look.
    Off,
}

/// The flag forces an update whatever the settings; otherwise the passive
/// check runs unless it is switched off.
pub fn update_mode(self_update: bool, skip_update: bool) -> (r: UpdateMode)
    ensures
        self_update ==> r == UpdateMode::Forced,
        !self_update && !skip_update ==> r == UpdateMode::Passive,
        !self_update && skip_update ==> r == UpdateMode::Off,
{
    if self_update {
        UpdateMode::Forced
    } else if skip_update {
        UpdateMode::Off
    } else {
        UpdateMode::Passive
    }
}

/// The advice printed when a newer release is found.
pub open spec fn advisory_text(version: Seq<char>) -> Seq<char> {
    "[concierge] update available: v"@ + version + " \u{2014} run --self-update"@
}

/// The passive check's conclusion: advice to update where a release was
/// found and it is newer than `current`; nothing otherwise. Nothing is
/// downloaded or installed on this path.
pub fn update_advisory(release: &Option<ReleaseInfo>, current: &str) -> (r: Option<String>)
    ensures
        match release {
            Some(rel) => if newer_than(rel.version@, current@) {
                r matches Some(m) && m@ == advisory_text(rel.version@)
            } else {
                r is None
            },
            None => r is None,
        },
{
    match release {
        Some(rel) => {
            if is_newer(rel, current) {
                Some(concat3(
                    "[concierge] update available: v",
                    rel.version.as_str(),
                    " \u{2014} run --self-update",
                ))
            } else {
                None
            }
        },
        None => None,
    }
}

/// The message after a successful forced update.
pub fn updated_message(version: &str) -> (r: String)
    ensures
        r@ == "[concierge] updated to v"@ + version@,
{
    let mut r = String::from_str("[concierge] updated to v");
    r.append(version);
    r
}

} // verus!
