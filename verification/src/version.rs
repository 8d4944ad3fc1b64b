//! Version identifiers and the upstream release record. A version is an
//! opaque identifier string; equality is string equality after stripping
//! the conventional `go` prefix.

use vstd::prelude::*;

use crate::strutil::str_eq;

verus! {

/// A locally installed version and whether it is the active one.
#[derive(Clone, Debug, PartialEq, Eq, PartialOrd, Ord)]
pub struct Version {
    /// The normalized version identifier.
    pub version: String,
    /// Whether the active-version link points at this version.
    pub active: bool,
}

/// One record of the upstream release list: the downloadable file of one
/// version for one platform. Produced by the external version-resolution
/// collaborator; the core only carries its plain fields.
#[derive(Clone, Debug, PartialEq, Eq)]
pub struct GoFile {
    /// Architecture identifier, e.g. `amd64`.
    pub arch: String,
    /// The downloadable file's name.
    pub filename: String,
    /// What the file is, e.g. `archive` or `installer`.
    pub kind: String,
    /// OS identifier, e.g. `linux`.
    pub os: String,
    /// Expected hex digest of the file.
    pub sha256: String,
    /// Advertised size in bytes.
    pub size: isize,
    /// The release the file belongs to.
    pub version: String,
}

/// `s` with every leading `go` removed.
pub open spec fn spec_strip_go(s: Seq<char>) -> Seq<char>
    decreases s.len(),
{
    if s.len() >= 2 && s[0] == 'g' && s[1] == 'o' {
        spec_strip_go(s.subrange(2, s.len() as int))
    } else {
        s
    }
}

/// The normalized form of a version identifier: the conventional `go`
/// prefix is stripped, repeatedly, so `go1.21.5` and `1.21.5` name the
/// same version.
pub fn normalize_version(version: &str) -> (r: String)
    ensures
        r@ == spec_strip_go(version@),
{
    let mut cur: &str = version;
    while cur.unicode_len() >= 2 && cur.get_char(0) == 'g' && cur.get_char(1) == 'o'
        invariant
            spec_strip_go(version@) == spec_strip_go(cur@),
        decreases cur@.len(),
    {
        let n = cur.unicode_len();
        cur = cur.substring_char(2, n);
    }
    String::from_str(cur)
}

/// Whether a home-directory entry counts as an installed version: the
/// nightly toolchain's directory always does, every other one only with
/// its success marker present.
pub open spec fn spec_entry_installed(name: Seq<char>, has_marker: bool) -> bool {
    name == "gotip"@ || has_marker
}

/// Whether a version identifier is the active one.
pub open spec fn spec_entry_active(version: Seq<char>, current: Option<Seq<char>>) -> bool {
    current matches Some(c) && c == version
}

/// The versions a listing shows, in the order given, each as its
/// normalized identifier paired with whether it is active: an entry is a
/// directory name and whether its success marker exists.
pub open spec fn spec_installed_versions(
    entries: Seq<(Seq<char>, bool)>,
    current: Option<Seq<char>>,
) -> Seq<(Seq<char>, bool)>
    decreases entries.len(),
{
    if entries.len() == 0 {
        Seq::empty()
    } else {
        let rest = spec_installed_versions(entries.drop_last(), current);
        let (name, has_marker) = entries.last();
        if spec_entry_installed(name, has_marker) {
            rest.push(
                (spec_strip_go(name), spec_entry_active(spec_strip_go(name), current)),
            )
        } else {
            rest
        }
    }
}

/// The view of a listed version: its identifier and whether it is active.
pub open spec fn version_view(v: Version) -> (Seq<char>, bool) {
    (v.version@, v.active)
}

/// The views of a sequence of listed versions.
pub open spec fn versions_view(s: Seq<Version>) -> Seq<(Seq<char>, bool)> {
    Seq::new(s.len(), |i: int| version_view(s[i]))
}

/// The view of a directory entry: the name and whether its marker exists.
pub open spec fn entry_view(e: (String, bool)) -> (Seq<char>, bool) {
    (e.0@, e.1)
}

/// The views of a sequence of directory entries.
pub open spec fn entries_view(s: Seq<(String, bool)>) -> Seq<(Seq<char>, bool)> {
    Seq::new(s.len(), |i: int| entry_view(s[i]))
}

/// One listing entry: the normalized identifier, marked active when it is
/// the current one.
fn listed_version(name: &str, current: Option<&str>) -> (v: Version)
    ensures
        v.version@ == spec_strip_go(name@),
        v.active == spec_entry_active(
            spec_strip_go(name@),
            match current {
                Some(c) => Some(c@),
                None => None,
            },
        ),
{
    let version = normalize_version(name);
    let active = match current {
        Some(c) => str_eq(c, version.as_str()),
        None => false,
    };
    Version { version, active }
}

/// Selects the installed versions among the home directory's entries:
/// each entry is a directory name and whether its success marker exists,
/// and `current` is the active version, if any. An entry is kept when the
/// marker says a complete, verified extraction happened (the nightly
/// toolchain's directory is kept regardless); its identifier is
/// normalized, and marked active when it is the current one.
pub fn select_installed(entries: &Vec<(String, bool)>, current: Option<&str>) -> (r: Vec<Version>)
    ensures
        versions_view(r@) == spec_installed_versions(
            entries_view(entries@),
            match current {
                Some(c) => Some(c@),
                None => None,
            },
        ),
{
    let ghost cur: Option<Seq<char>> = match current {
        Some(c) => Some(c@),
        None => None,
    };
    let mut r: Vec<Version> = Vec::new();
    let n = entries.len();
    let mut i: usize = 0;
    while i < n
        invariant
            n == entries@.len(),
            0 <= i <= n,
            cur == match current {
                Some(c) => Some(c@),
                None => None,
            },
            versions_view(r@) == spec_installed_versions(
                entries_view(entries@.subrange(0, i as int)),
                cur,
            ),
        decreases n - i,
    {
        let entry = &entries[i];
        let name = &entry.0;
        let has_marker = entry.1;
        let keep = str_eq(name.as_str(), "gotip") || has_marker;
        let ghost r_prev = r@;
        if keep {
            let v = listed_version(name.as_str(), current);
            r.push(v);
            proof {
                assert(r@.last().version@ == spec_strip_go(entries@[i as int].0@));
                assert(r@.last().active == spec_entry_active(r@.last().version@, cur));
                assert(r@.drop_last() == r_prev);
            }
        }
        proof {
            let sub = entries_view(entries@.subrange(0, i + 1));
            assert(sub.drop_last() =~= entries_view(entries@.subrange(0, i as int)));
            assert(sub.last() == entry_view(entries@[i as int]));
            assert(versions_view(r@) =~= spec_installed_versions(sub, cur));
        }
        i = i + 1;
    }
    proof {
        assert(entries@.subrange(0, n as int) =~= entries@);
    }
    r
}

} // verus!
