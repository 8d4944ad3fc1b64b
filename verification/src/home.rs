//! The on-disk layout under the home root: where the cache, each
//! version's directory and success marker, and the active-version link
//! live.

use vstd::prelude::*;

use crate::strutil::{concat2, concat3, ends_with, spec_ends_with};

verus! {

/// The cache directory under the home root: `<home>/cache`.
pub fn cache_dir(home: &str) -> (r: String)
    ensures
        r@ == home@ + "/cache"@,
{
    concat2(home, "/cache")
}

/// A cached file: `<home>/cache/<filename>`.
pub fn cache_file_path(home: &str, filename: &str) -> (r: String)
    ensures
        r@ == home@ + "/cache/"@ + filename@,
{
    concat3(home, "/cache/", filename)
}

/// A version's directory: `<home>/<version>`.
pub fn version_dir(home: &str, version: &str) -> (r: String)
    ensures
        r@ == home@ + "/"@ + version@,
{
    concat3(home, "/", version)
}

/// A version's success marker, whose presence is the sole source of truth
/// for "this version is fully installed":
/// `<home>/<version>/.unpacked-success`.
pub fn marker_path(home: &str, version: &str) -> (r: String)
    ensures
        r@ == home@ + "/"@ + version@ + "/.unpacked-success"@,
{
    let mut s = version_dir(home, version);
    s.append("/.unpacked-success");
    s
}

/// The active-version link: `<home>/current`.
pub fn current_link_path(home: &str) -> (r: String)
    ensures
        r@ == home@ + "/current"@,
{
    concat2(home, "/current")
}

/// Whether a cache entry name is kept in a listing: every name is kept
/// when side-cars are asked for, otherwise only those not ending
/// `.sha256`.
pub open spec fn spec_cache_entry_kept(name: Seq<char>, contain_sha256: bool) -> bool {
    contain_sha256 || !spec_ends_with(name, ".sha256"@)
}

/// The cache entries kept in a listing, in the order given.
pub open spec fn spec_filter_cache(names: Seq<String>, contain_sha256: bool) -> Seq<String>
    decreases names.len(),
{
    if names.len() == 0 {
        names
    } else {
        let rest = spec_filter_cache(names.drop_last(), contain_sha256);
        if spec_cache_entry_kept(names.last()@, contain_sha256) {
            rest.push(names.last())
        } else {
            rest
        }
    }
}

/// The cache entries to list, in the order given: all of them when
/// `contain_sha256` is set, otherwise the archives alone, without their
/// `.sha256` side-cars.
pub fn filter_cache_entries(names: &Vec<String>, contain_sha256: bool) -> (r: Vec<String>)
    ensures
        r@ == spec_filter_cache(names@, contain_sha256),
{
    let mut r: Vec<String> = Vec::new();
    let n = names.len();
    let mut i: usize = 0;
    while i < n
        invariant
            n == names@.len(),
            0 <= i <= n,
            r@ == spec_filter_cache(names@.subrange(0, i as int), contain_sha256),
        decreases n - i,
    {
        let name = &names[i];
        let kept = contain_sha256 || !ends_with(name.as_str(), ".sha256");
        if kept {
            r.push(name.clone());
        }
        proof {
            let sub = names@.subrange(0, i + 1);
            assert(sub.drop_last() =~= names@.subrange(0, i as int));
            assert(sub.last() == names@[i as int]);
        }
        i = i + 1;
    }
    proof {
        assert(names@.subrange(0, n as int) =~= names@);
    }
    r
}

} // verus!
