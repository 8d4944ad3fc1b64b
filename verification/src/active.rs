//! Active-version switching: one well-known location either does not
//! exist or links to exactly one installed version's directory. Switching
//! is a destructive replace, planned here and performed by the caller;
//! reading the active version derives the identifier from the link
//! target's leaf component.

use vstd::prelude::*;

use crate::error::InstallError;
use crate::strutil::{concat2, concat3, str_eq};
use crate::version::{normalize_version, spec_strip_go};

verus! {

/// The two platform-appropriate atomic link primitives. They are
/// interchangeable from the reader's point of view.
#[derive(Clone, Copy, PartialEq, Eq, Structural, Debug)]
pub enum LinkKind {
    /// A symbolic link, on POSIX-like systems.
    Symlink,
    /// A directory junction, on the one platform lacking usable
    /// unprivileged symlinks for directories.
    Junction,
}

/// The link primitive for a platform family: a symbolic link on `unix`, a
/// junction on `windows`, and nothing usable elsewhere.
pub open spec fn spec_link_kind(family: Seq<char>) -> Option<LinkKind> {
    if family == "unix"@ {
        Some(LinkKind::Symlink)
    } else if family == "windows"@ {
        Some(LinkKind::Junction)
    } else {
        None
    }
}

/// Probes the platform family (`std::env::consts::FAMILY`) for the link
/// primitive to use, once at startup; a family with no usable primitive
/// is unsupported.
pub fn link_kind_for_family(family: &str) -> (r: Result<LinkKind, InstallError>)
    ensures
        spec_link_kind(family@) matches Some(k) ==> r == Ok::<LinkKind, InstallError>(k),
        spec_link_kind(family@) is None ==> r == Err::<LinkKind, InstallError>(
            InstallError::PlatformUnsupported,
        ),
{
    if str_eq(family, "unix") {
        Ok(LinkKind::Symlink)
    } else if str_eq(family, "windows") {
        Ok(LinkKind::Junction)
    } else {
        Err(InstallError::PlatformUnsupported)
    }
}

/// The filesystem switch that activates an installed version: remove
/// whatever stands at `link`, ignoring its absence, then create a fresh
/// link there pointing at `target`.
#[derive(Clone, Debug, PartialEq, Eq)]
pub struct LinkPlan {
    /// The fixed active-location path: `<home>/current`.
    pub link: String,
    /// The directory the fresh link points at: `<home>/<version>`.
    pub target: String,
}

/// Plans the activation of a version. `installed` reports whether the
/// normalized version's directory exists; a version that is not installed
/// fails with `NotInstalled` and no plan, so the existing link stands
/// unmodified.
pub fn plan_set_active(home: &str, version: &str, installed: bool) -> (r: Result<
    LinkPlan,
    InstallError,
>)
    ensures
        !installed ==> (r matches Err(e) && e matches InstallError::NotInstalled { version: v }
            && v@ == spec_strip_go(version@)),
        installed ==> (r matches Ok(p) && p.link@ == home@ + "/current"@ && p.target@ == home@
            + "/"@ + spec_strip_go(version@)),
{
    let v = normalize_version(version);
    if !installed {
        Err(InstallError::NotInstalled { version: v })
    } else {
        Ok(
            LinkPlan { link: concat2(home, "/current"), target: concat3(home, "/", v.as_str()) },
        )
    }
}

/// The suffix of `s` after its last `/`; `s` itself when it has none.
pub open spec fn spec_after_last_slash(s: Seq<char>) -> Seq<char>
    decreases s.len(),
{
    if s.len() == 0 {
        s
    } else if s[s.len() - 1] == '/' {
        Seq::empty()
    } else {
        spec_after_last_slash(s.drop_last()).push(s[s.len() - 1])
    }
}

/// `s` without its trailing `/` characters.
pub open spec fn spec_strip_trailing_slashes(s: Seq<char>) -> Seq<char>
    decreases s.len(),
{
    if s.len() > 0 && s[s.len() - 1] == '/' {
        spec_strip_trailing_slashes(s.drop_last())
    } else {
        s
    }
}

/// The version identifier a link target names: the leaf component of the
/// target path, or nothing when the path has no leaf.
pub open spec fn spec_version_of_target(t: Seq<char>) -> Option<Seq<char>> {
    let leaf = spec_after_last_slash(spec_strip_trailing_slashes(t));
    if leaf.len() == 0 {
        None
    } else {
        Some(leaf)
    }
}

proof fn lemma_strip_trailing_subrange(s: Seq<char>, j: int)
    requires
        0 <= j <= s.len(),
        forall|k: int| j <= k < s.len() ==> s[k] == '/',
        j > 0 ==> s[j - 1] != '/',
    ensures
        spec_strip_trailing_slashes(s) == s.subrange(0, j),
    decreases s.len(),
{
    if s.len() > j {
        lemma_strip_trailing_subrange(s.drop_last(), j);
        assert(s.drop_last().subrange(0, j) =~= s.subrange(0, j));
    } else {
        assert(s.subrange(0, j) =~= s);
    }
}

proof fn lemma_after_last_slash_subrange(s: Seq<char>, i: int)
    requires
        0 <= i <= s.len(),
        forall|k: int| i <= k < s.len() ==> s[k] != '/',
        i > 0 ==> s[i - 1] == '/',
    ensures
        spec_after_last_slash(s) == s.subrange(i, s.len() as int),
    decreases s.len(),
{
    if s.len() == 0 {
        assert(s.subrange(0, 0) =~= s);
    } else if i == s.len() {
        assert(s[s.len() - 1] == '/');
        assert(s.subrange(i, s.len() as int) =~= Seq::<char>::empty());
    } else {
        assert(s[s.len() - 1] != '/');
        lemma_after_last_slash_subrange(s.drop_last(), i);
        assert(s.drop_last().subrange(i, s.drop_last().len() as int).push(s[s.len() - 1]) =~= s
            .subrange(i, s.len() as int));
    }
}

/// The active version, derived from where the active link points:
/// `link_target` is what reading the link yielded, if anything. The leaf
/// component of the target names the version; no link, or a target with
/// no leaf, means no active version rather than an error.
pub fn current_go_version(link_target: Option<&str>) -> (r: Option<String>)
    ensures
        match link_target {
            None => r is None,
            Some(t) => match spec_version_of_target(t@) {
                None => r is None,
                Some(v) => r matches Some(s) && s@ == v,
            },
        },
{
    let t = match link_target {
        None => {
            return None;
        },
        Some(t) => t,
    };
    let n = t.unicode_len();
    let mut j: usize = n;
    while j > 0 && t.get_char(j - 1) == '/'
        invariant
            0 <= j <= n,
            n == t@.len(),
            forall|k: int| j <= k < n ==> t@[k] == '/',
        decreases j,
    {
        j = j - 1;
    }
    let mut i: usize = j;
    while i > 0 && t.get_char(i - 1) != '/'
        invariant
            0 <= i <= j,
            j <= n == t@.len(),
            forall|k: int| i <= k < j ==> t@[k] != '/',
        decreases i,
    {
        i = i - 1;
    }
    proof {
        lemma_strip_trailing_subrange(t@, j as int);
        lemma_after_last_slash_subrange(t@.subrange(0, j as int), i as int);
        assert(t@.subrange(0, j as int).subrange(i as int, j as int) =~= t@.subrange(
            i as int,
            j as int,
        ));
    }
    if i == j {
        None
    } else {
        Some(String::from_str(t.substring_char(i, j)))
    }
}

/// Round trip: activating a version and reading the link back yields that
/// version. The planned target `<home>/<version>` has leaf `<version>`
/// whenever the version identifier is non-empty and holds no separator.
pub proof fn lemma_active_round_trip(home: Seq<char>, version: Seq<char>)
    requires
        version.len() > 0,
        forall|k: int| 0 <= k < version.len() ==> version[k] != '/',
    ensures
        spec_version_of_target(home + "/"@ + version) == Some(version),
{
    reveal_strlit("/");
    let t = home + "/"@ + version;
    assert(t.len() == home.len() + 1 + version.len());
    assert(t[t.len() - 1] == version[version.len() - 1]);
    lemma_strip_trailing_subrange(t, t.len() as int);
    assert(t.subrange(0, t.len() as int) =~= t);
    let i = home.len() + 1;
    assert(t[i - 1] == '/');
    assert forall|k: int| i <= k < t.len() implies t[k] != '/' by {
        assert(t[k] == version[k - i]);
    }
    lemma_after_last_slash_subrange(t, i as int);
    assert(t.subrange(i as int, t.len() as int) =~= version);
}

} // verus!
