//! The ways an installation or activation can fail. Every failure aborts
//! the current run; none is retried, and none can break the marker
//! invariant because the success marker is written only on full success.

use vstd::prelude::*;

verus! {

/// Why an installation or activation failed.
#[derive(Clone, Debug, PartialEq, Eq)]
pub enum InstallError {
    /// The remote reported the archive absent: no release exists for this
    /// version and platform.
    NotFound,
    /// The remote answered with a non-success status other than absence.
    UpstreamError {
        /// The status code the remote answered with.
        status: u16,
    },
    /// A network failure or timeout.
    TransportError,
    /// The downloaded file's length differs from the advertised content
    /// length.
    SizeMismatch {
        /// The advertised content length.
        expected: u64,
        /// The length of the file actually on disk.
        actual: u64,
    },
    /// The archive digest does not match the checksum side-car.
    ChecksumMismatch {
        /// The archive's filename.
        filename: String,
        /// The digest the side-car expected, trimmed.
        expected: String,
    },
    /// The archive filename ends in no supported suffix.
    UnsupportedFormat {
        /// The offending filename.
        filename: String,
    },
    /// An I/O failure while unpacking the archive.
    ExtractionFailure,
    /// Activation was requested for a version that is not installed.
    NotInstalled {
        /// The version that has no success marker.
        version: String,
    },
    /// No active-link primitive exists on this platform.
    PlatformUnsupported,
}

} // verus!
