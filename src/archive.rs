//! Locating one named member of a gzip-compressed tar stream.
use vstd::prelude::*;
use crate::text::{join_path, path_join};

verus! {

/// One member of a tar stream: its path and its contents.
pub struct TarMember {
    pub path: Vec<u8>,
    pub contents: Vec<u8>,
}

pub open spec fn member_view(m: TarMember) -> (Seq<u8>, Seq<u8>) {
    (m.path@, m.contents@)
}

pub open spec fn members_view(ms: Seq<TarMember>) -> Seq<(Seq<u8>, Seq<u8>)> {
    ms.map_values(|m: TarMember| member_view(m))
}

/// The members that a gzip-compressed tar stream holds, as path and contents,
/// in stream order, up to the first decoding or framing error; and whether the
/// tar stream reached its end without one.
pub uninterp spec fn tar_gz_members(data: Seq<u8>) -> (Seq<(Seq<u8>, Seq<u8>)>, bool);

/// Relies on tar::Archive::entries over flate2::read::GzDecoder: each entry's
/// raw path bytes and contents, in stream order, and whether the entries were
/// read up to the end of the archive without a decompression or framing error.
#[verifier::external_body]
fn read_tar_gz(data: &[u8]) -> (r: (Vec<TarMember>, bool))
    ensures
        members_view(r.0@) == tar_gz_members(data@).0,
        r.1 == tar_gz_members(data@).1,
{
    let mut archive = tar::Archive::new(flate2::read::GzDecoder::new(data));
    let mut members = Vec::new();
    let Ok(entries) = archive.entries() else { return (members, false) };
    for entry in entries {
        let Ok(mut entry) = entry else { return (members, false) };
        let mut contents = Vec::new();
        if std::io::Read::read_to_end(&mut entry, &mut contents).is_err() {
            return (members, false);
        }
        members.push(TarMember { path: entry.path_bytes().into_owned(), contents });
    }
    (members, true)
}

pub open spec fn is_slash(b: u8) -> bool {
    b == 47
}

pub open spec fn is_dot(b: u8) -> bool {
    b == 46
}

/// The index just past the last `/` of `p` before `end`, or 0.
pub open spec fn component_start(p: Seq<u8>, end: int) -> int
    decreases end,
{
    if end <= 0 {
        0
    } else if is_slash(p[end - 1]) {
        end
    } else {
        component_start(p, end - 1)
    }
}

proof fn lemma_component_start_bounds(p: Seq<u8>, end: int)
    requires
        0 <= end,
    ensures
        0 <= component_start(p, end) <= end,
    decreases end,
{
    if end > 0 && !is_slash(p[end - 1]) {
        lemma_component_start_bounds(p, end - 1);
    }
}

/// Where the last file name of `p[..end]` lies: trailing separators and `.`
/// components are skipped, and a path that ends in `..`, or holds no name,
/// has none.
pub open spec fn file_name_range(p: Seq<u8>, end: int) -> Option<(int, int)>
    decreases end,
{
    if end <= 0 {
        None
    } else if is_slash(p[end - 1]) {
        file_name_range(p, end - 1)
    } else {
        let s = component_start(p, end - 1);
        if !(0 <= s < end) {
            None
        } else if end - s == 1 && is_dot(p[s]) {
            file_name_range(p, s)
        } else if end - s == 2 && is_dot(p[s]) && is_dot(p[s + 1]) {
            None
        } else {
            Some((s, end))
        }
    }
}

/// The last component of a path, as a file name.
pub open spec fn file_name(p: Seq<u8>) -> Option<Seq<u8>> {
    match file_name_range(p, p.len() as int) {
        Some((s, e)) => Some(p.subrange(s, e)),
        None => None,
    }
}

/// Finds where the file name of `p[..end]` lies.
fn find_file_name(p: &[u8], end: usize) -> (r: Option<(usize, usize)>)
    requires
        end <= p@.len(),
    ensures
        match r {
            Some((s, e)) => file_name_range(p@, end as int) == Some((s as int, e as int)),
            None => file_name_range(p@, end as int) is None,
        },
        r matches Some((s, e)) ==> s < e <= end,
    decreases end,
{
    if end == 0 {
        return None;
    }
    if p[end - 1] == 47 {
        return find_file_name(p, end - 1);
    }
    let mut s: usize = end - 1;
    while s > 0 && p[s - 1] != 47
        invariant
            s <= end - 1,
            end <= p@.len(),
            component_start(p@, end - 1) == component_start(p@, s as int),
        decreases s,
    {
        s = s - 1;
    }
    proof {
        lemma_component_start_bounds(p@, end - 1);
    }
    if end - s == 1 && p[s] == 46 {
        return find_file_name(p, s);
    }
    if end - s == 2 && p[s] == 46 && p[s + 1] == 46 {
        return None;
    }
    Some((s, end))
}

/// Whether the file name of `path` is `name`.
fn file_name_is(path: &[u8], name: &[u8]) -> (r: bool)
    ensures
        r == (file_name(path@) == Some(name@)),
{
    match find_file_name(path, path.len()) {
        None => false,
        Some((s, e)) => {
            if e - s != name.len() {
                assert(path@.subrange(s as int, e as int).len() != name@.len());
                return false;
            }
            let mut i: usize = 0;
            while i < name.len()
                invariant
                    file_name_range(path@, path@.len() as int) == Some((s as int, e as int)),
                    s <= e <= path@.len(),
                    e - s == name@.len(),
                    i <= name@.len(),
                    forall|j: int| 0 <= j < i ==> path@[s + j] == name@[j],
                decreases name@.len() - i,
            {
                if path[s + i] != name[i] {
                    assert(path@.subrange(s as int, e as int)[i as int] != name@[i as int]);
                    assert(path@.subrange(s as int, e as int) != name@);
                    return false;
                }
                i = i + 1;
            }
            assert(path@.subrange(s as int, e as int) =~= name@);
            true
        },
    }
}

/// Why no member could be extracted.
#[derive(Debug, Clone, Copy, PartialEq, Eq, Structural)]
pub enum ArchiveError {
    /// The gzip or tar framing is invalid before a matching member was met.
    CorruptArchive,
    /// The stream ended without a member of the wanted name.
    EntryNotFound,
}

impl ArchiveError {
    /// A message naming the entry that was looked for.
    pub fn message(&self, entry_name: &str) -> (r: String)
        ensures
            *self == ArchiveError::EntryNotFound ==> r@ == entry_name@
                + " binary not found in archive"@,
            *self == ArchiveError::CorruptArchive ==> r@ == "corrupt archive while looking for "@
                + entry_name@,
    {
        match self {
            ArchiveError::EntryNotFound => {
                let mut r = String::from_str(entry_name);
                r.append(" binary not found in archive");
                r
            },
            ArchiveError::CorruptArchive => {
                let mut r = String::from_str("corrupt archive while looking for ");
                r.append(entry_name);
                r
            },
        }
    }
}

/// The contents of the first member, in stream order, whose file name is `name`.
pub open spec fn first_named(ms: Seq<(Seq<u8>, Seq<u8>)>, name: Seq<u8>) -> Option<Seq<u8>>
    decreases ms.len(),
{
    if ms.len() == 0 {
        None
    } else if file_name(ms[0].0) == Some(name) {
        Some(ms[0].1)
    } else {
        first_named(ms.drop_first(), name)
    }
}

/// What extraction of `name` from `data` yields.
pub open spec fn extraction(data: Seq<u8>, name: Seq<u8>) -> Result<Seq<u8>, ArchiveError> {
    let (ms, complete) = tar_gz_members(data);
    match first_named(ms, name) {
        Some(c) => Ok(c),
        None => if complete {
            Err(ArchiveError::EntryNotFound)
        } else {
            Err(ArchiveError::CorruptArchive)
        },
    }
}

/// The contents of the first member of the gzip-compressed tar stream
/// `archive` whose file name, without its directories, is `entry_name`.
pub fn extract_named(archive: &[u8], entry_name: &[u8]) -> (r: Result<Vec<u8>, ArchiveError>)
    ensures
        match r {
            Ok(c) => extraction(archive@, entry_name@) == Ok::<Seq<u8>, ArchiveError>(c@),
            Err(e) => extraction(archive@, entry_name@) == Err::<Seq<u8>, ArchiveError>(e),
        },
{
    let (members, complete) = read_tar_gz(archive);
    let ghost ms = members_view(members@);
    let n = members.len();
    let mut i: usize = 0;
    assert(ms.subrange(0, n as int) =~= ms);
    while i < n
        invariant
            n == members@.len(),
            ms == members_view(members@),
            ms == tar_gz_members(archive@).0,
            complete == tar_gz_members(archive@).1,
            ms.len() == n,
            i <= n,
            first_named(ms, entry_name@) == first_named(ms.subrange(i as int, n as int), entry_name@),
        decreases n - i,
    {
        let m = &members[i];
        assert(ms.subrange(i as int, n as int).drop_first() =~= ms.subrange(i as int + 1, n as int));
        assert(ms[i as int] == member_view(members@[i as int]));
        assert(ms.subrange(i as int, n as int)[0] == ms[i as int]);
        if file_name_is(m.path.as_slice(), entry_name) {
            return Ok(vstd::slice::slice_to_vec(m.contents.as_slice()));
        }
        i = i + 1;
    }
    assert(ms.subrange(n as int, n as int).len() == 0);
    if complete {
        Err(ArchiveError::EntryNotFound)
    } else {
        Err(ArchiveError::CorruptArchive)
    }
}

/// A file to be written: where, and what.
pub struct ExtractedFile {
    pub path: String,
    pub contents: Vec<u8>,
}

/// The helper tool's binary name, as bytes (`uv`).
pub open spec fn helper_tool_name() -> Seq<u8> {
    seq![117u8, 118u8]
}

/// Extracts the helper tool's binary (`uv`) from a gzip-compressed tar
/// stream, as the file `dest_dir/uv` to be written.
pub fn extract_uv(archive: &[u8], dest_dir: &str) -> (r: Result<ExtractedFile, ArchiveError>)
    ensures
        match r {
            Ok(f) => extraction(archive@, helper_tool_name()) == Ok::<Seq<u8>, ArchiveError>(
                f.contents@,
            ) && f.path@ == path_join(dest_dir@, "uv"@),
            Err(e) => extraction(archive@, helper_tool_name()) == Err::<Seq<u8>, ArchiveError>(e),
        },
{
    let name: Vec<u8> = vec![117u8, 118u8];
    assert(name@ =~= helper_tool_name());
    match extract_named(archive, name.as_slice()) {
        Ok(contents) => Ok(ExtractedFile { path: join_path(dest_dir, "uv"), contents }),
        Err(e) => Err(e),
    }
}

} // verus!
