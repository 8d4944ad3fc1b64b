//! Archive naming: mapping a version and platform to the archive filename,
//! its checksum side-car name, their download URLs, and the dispatch from a
//! filename to the extraction format.

use vstd::prelude::*;

use crate::strutil::{concat2, concat3, ends_with, spec_ends_with, str_eq};

verus! {

/// The OS component of an archive filename: the platform's macOS
/// identifier maps to `darwin`, everything else is kept.
pub open spec fn spec_archive_os(os: Seq<char>) -> Seq<char> {
    if os == "macos"@ {
        "darwin"@
    } else {
        os
    }
}

/// The architecture component of an archive filename, given the already
/// mapped OS component: `x86` maps to `386`, `x86_64` to `amd64`, 32-bit
/// ARM on Linux to `armv6l`, 64-bit ARM to `arm64`; everything else is
/// kept.
pub open spec fn spec_archive_arch(os: Seq<char>, arch: Seq<char>) -> Seq<char> {
    if arch == "x86"@ {
        "386"@
    } else if arch == "x86_64"@ {
        "amd64"@
    } else if os == "linux"@ && arch == "arm"@ {
        "armv6l"@
    } else if arch == "aarch64"@ {
        "arm64"@
    } else {
        arch
    }
}

/// The archive extension: `zip` on Windows, `tar.gz` elsewhere.
pub open spec fn spec_archive_ext(os: Seq<char>) -> Seq<char> {
    if os == "windows"@ {
        "zip"@
    } else {
        "tar.gz"@
    }
}

/// The archive filename for a version on a platform:
/// `<version>.<os>-<arch>.<ext>`.
pub open spec fn spec_archive_filename(version: Seq<char>, os: Seq<char>, arch: Seq<char>) -> Seq<
    char,
> {
    let o = spec_archive_os(os);
    version + "."@ + o + "-"@ + spec_archive_arch(o, arch) + "."@ + spec_archive_ext(o)
}

/// The zip or tar.gz filename of the given Go version, for the platform
/// whose OS and architecture identifiers are given:
/// `1.21.5.linux-amd64.tar.gz`, `1.21.5.windows-amd64.zip`.
pub fn go_version_archive(version: &str, os: &str, arch: &str) -> (r: String)
    ensures
        r@ == spec_archive_filename(version@, os@, arch@),
{
    let o: &str = if str_eq(os, "macos") {
        "darwin"
    } else {
        os
    };
    let a: &str = if str_eq(arch, "x86") {
        "386"
    } else if str_eq(arch, "x86_64") {
        "amd64"
    } else if str_eq(o, "linux") && str_eq(arch, "arm") {
        "armv6l"
    } else if str_eq(arch, "aarch64") {
        "arm64"
    } else {
        arch
    };
    let e: &str = if str_eq(o, "windows") {
        "zip"
    } else {
        "tar.gz"
    };
    let mut s = String::from_str(version);
    s.append(".");
    s.append(o);
    s.append("-");
    s.append(a);
    s.append(".");
    s.append(e);
    s
}

/// The name of an archive's checksum side-car file: `<archive>.sha256`.
pub fn archive_sha256(archive_filename: &str) -> (r: String)
    ensures
        r@ == archive_filename@ + ".sha256"@,
{
    concat2(archive_filename, ".sha256")
}

/// The archive URL and the checksum side-car URL for an archive filename
/// under the given download base URL.
pub fn archive_url(base_url: &str, archive_filename: &str) -> (r: (String, String))
    ensures
        r.0@ == base_url@ + "/"@ + archive_filename@,
        r.1@ == base_url@ + "/"@ + archive_filename@ + ".sha256"@,
{
    let url0 = concat3(base_url, "/", archive_filename);
    let url1 = concat2(url0.as_str(), ".sha256");
    (url0, url1)
}

/// The two supported archive formats.
#[derive(Clone, Copy, PartialEq, Eq, Structural, Debug)]
pub enum ArchiveKind {
    /// A gzip-compressed tar archive, named `*.tar.gz`.
    TarGz,
    /// A zip archive, named `*.zip`.
    Zip,
}

/// Dispatch on the filename suffix: `.tar.gz` extracts as tar+gzip, `.zip`
/// as zip, and any other suffix is unsupported.
pub open spec fn spec_classify_archive(name: Seq<char>) -> Option<ArchiveKind> {
    if spec_ends_with(name, ".tar.gz"@) {
        Some(ArchiveKind::TarGz)
    } else if spec_ends_with(name, ".zip"@) {
        Some(ArchiveKind::Zip)
    } else {
        None
    }
}

/// The extraction format for an archive filename, or `None` when the
/// suffix names no supported format.
pub fn classify_archive(name: &str) -> (r: Option<ArchiveKind>)
    ensures
        r == spec_classify_archive(name@),
{
    if ends_with(name, ".tar.gz") {
        Some(ArchiveKind::TarGz)
    } else if ends_with(name, ".zip") {
        Some(ArchiveKind::Zip)
    } else {
        None
    }
}

} // verus!
