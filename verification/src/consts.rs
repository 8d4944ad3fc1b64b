//! Configuration constants and defaults.
//!
//! The manager reads three environment variables; reading the environment is
//! the caller's business, so the functions here take the looked-up value (if
//! any) and apply the fixed default when it is absent or empty.

use vstd::prelude::*;

verus! {

/// Environment variable naming the root directory for installed versions,
/// the download cache, and the active-version link.
pub const GOUP_HOME: &'static str = "GOUP_HOME";

/// Environment variable naming the host used for version listing and
/// metadata queries.
pub const GOUP_GO_HOST: &'static str = "GOUP_GO_HOST";

/// Environment variable naming the base URL under which archive and
/// checksum objects are located.
pub const GOUP_GO_DOWNLOAD_BASE_URL: &'static str = "GOUP_GO_DOWNLOAD_BASE_URL";

/// Default host for version listing and metadata queries.
pub const GO_HOST: &'static str = "https://golang.google.cn";

/// Default base URL under which archive and checksum objects are located.
pub const GO_DOWNLOAD_BASE_URL: &'static str = "https://dl.google.com/go";

/// What a configuration lookup yields: the looked-up value when it is
/// present and non-empty, the default otherwise.
pub open spec fn spec_value_or(value: Option<&str>, default: Seq<char>) -> Seq<char> {
    match value {
        Some(s) => if s@.len() > 0 {
            s@
        } else {
            default
        },
        None => default,
    }
}

fn value_or(value: Option<&str>, default: &str) -> (r: String)
    ensures
        r@ == spec_value_or(value, default@),
{
    match value {
        Some(s) => if !s.is_empty() {
            String::from_str(s)
        } else {
            String::from_str(default)
        },
        None => String::from_str(default),
    }
}

/// The host used for version listing and metadata queries: `value` is what
/// the `GOUP_GO_HOST` environment variable held, if anything.
pub fn go_host(value: Option<&str>) -> (r: String)
    ensures
        r@ == spec_value_or(value, GO_HOST@),
{
    value_or(value, GO_HOST)
}

/// The base URL under which archive and checksum objects are located:
/// `value` is what the `GOUP_GO_DOWNLOAD_BASE_URL` environment variable
/// held, if anything.
pub fn go_download_base_url(value: Option<&str>) -> (r: String)
    ensures
        r@ == spec_value_or(value, GO_DOWNLOAD_BASE_URL@),
{
    value_or(value, GO_DOWNLOAD_BASE_URL)
}

} // verus!
