//! The install pipeline as a state machine. The machine makes every
//! decision of an install run; the caller performs the requested outside
//! work (filesystem checks, HTTP requests, extraction) and reports each
//! outcome back. For a version V the run moves through
//! checking the marker, checking the cache, probing, downloading,
//! size-checking, fetching the side-car, verifying, extracting and
//! marking; `Done` is terminal and reached only by finding the marker
//! already present or by writing it after a completed extraction.

use vstd::prelude::*;

use crate::archive::{classify_archive, spec_classify_archive, ArchiveKind};
use crate::digest::{spec_sha256_hex, verify_archive};
use crate::error::InstallError;
use crate::strutil::{spec_trim, trim};
use crate::transfer::Transfer;

verus! {

/// What the metadata probe of the archive URL yielded.
#[derive(Clone, Copy, PartialEq, Eq, Debug)]
pub enum ProbeOutcome {
    /// An answer arrived: its status code, and the advertised content
    /// length when the answer carried a usable one.
    Response { status: u16, length: Option<u64> },
    /// The request itself failed: network trouble or a timeout.
    Transport,
}

/// What one ranged request yielded.
#[derive(Clone, Copy, PartialEq, Eq, Debug)]
pub enum ChunkOutcome {
    /// The range arrived: how many bytes were appended to the cache file,
    /// and how long the round took.
    Data { bytes: u64, elapsed_ns: u64 },
    /// The request itself failed: network trouble or a timeout.
    Transport,
}

/// What the plain fetch of the checksum side-car yielded.
#[derive(Clone, Copy, PartialEq, Eq, Debug)]
pub enum FetchOutcome {
    /// An answer arrived with this status code.
    Response { status: u16 },
    /// The request itself failed: network trouble or a timeout.
    Transport,
}

/// An outcome reported to the machine. The executable interface takes one
/// method per event; this type names the events so that whole runs can be
/// reasoned about as sequences.
#[derive(PartialEq, Eq, Debug)]
pub enum InstallEvent {
    /// Whether the version's success marker exists.
    Marker { present: bool },
    /// Whether both cache files, archive and side-car, exist.
    Cache { present: bool },
    /// The outcome of the metadata probe.
    Probed { outcome: ProbeOutcome },
    /// The outcome of one ranged request.
    Chunk { outcome: ChunkOutcome },
    /// The measured length of the completed archive file.
    Sized { length: u64 },
    /// The outcome of fetching the checksum side-car.
    Sidecar { outcome: FetchOutcome },
    /// The result of integrity verification.
    Checked { result: Result<(), InstallError> },
    /// Whether extraction ran to completion.
    Extracted { ok: bool },
    /// The success marker has been written.
    Marked,
}

/// The outside work the machine asks for next.
#[derive(PartialEq, Eq, Debug)]
pub enum InstallAction {
    /// Check whether both cache files exist, creating the cache directory
    /// if absent.
    CheckCache,
    /// Probe the archive URL for its content length.
    Probe,
    /// Request bytes `start..=end` of the archive and append what arrives
    /// to the cache file.
    Fetch { start: u64, end: u64 },
    /// Measure the length of the downloaded archive file.
    Measure,
    /// Fetch the checksum side-car into the cache.
    FetchSidecar,
    /// Read both cache files and verify the archive against the side-car.
    Verify,
    /// Create the version directory if absent and extract the archive into
    /// it with the given format.
    Extract { kind: ArchiveKind },
    /// Write the version's success marker.
    WriteMarker,
    /// The run is over: the version is installed.
    Succeed,
    /// The run is over: it failed, and nothing more may be done.
    Fail { error: InstallError },
}

/// Where an install run stands.
#[derive(Clone, Copy, PartialEq, Eq, Structural, Debug)]
pub enum Phase {
    /// Checking the success marker.
    CheckMarker,
    /// Checking for the cached archive and side-car.
    CheckCache,
    /// Probing the archive URL.
    Probe,
    /// Ranged retrieval in progress.
    Download { transfer: Transfer },
    /// Comparing the downloaded file's length with the advertised length.
    CheckSize { expected: u64 },
    /// Fetching the checksum side-car.
    FetchSidecar,
    /// Verifying the archive digest.
    Verify,
    /// Extracting the archive.
    Extract,
    /// Writing the success marker.
    Marking,
    /// Terminal: the version is installed.
    Done,
    /// Terminal: the run failed.
    Failed,
}

/// One install run for one version's archive.
pub struct InstallMachine {
    /// The archive filename of the version being installed; format
    /// dispatch and error reports read it.
    pub filename: String,
    /// Where the run stands.
    pub phase: Phase,
}

/// Whether an event can arrive in a phase: each phase awaits the outcome
/// of exactly the work it asked for, and the terminal phases await
/// nothing.
pub open spec fn fits(phase: Phase, ev: InstallEvent) -> bool {
    match (phase, ev) {
        (Phase::CheckMarker, InstallEvent::Marker { .. }) => true,
        (Phase::CheckCache, InstallEvent::Cache { .. }) => true,
        (Phase::Probe, InstallEvent::Probed { .. }) => true,
        (Phase::Download { .. }, InstallEvent::Chunk { .. }) => true,
        (Phase::CheckSize { .. }, InstallEvent::Sized { .. }) => true,
        (Phase::FetchSidecar, InstallEvent::Sidecar { .. }) => true,
        (Phase::Verify, InstallEvent::Checked { .. }) => true,
        (Phase::Extract, InstallEvent::Extracted { .. }) => true,
        (Phase::Marking, InstallEvent::Marked) => true,
        _ => false,
    }
}

/// Whether a status code reports success.
pub open spec fn spec_status_success(status: u16) -> bool {
    200 <= status < 300
}

/// The transition relation: the phase the machine moves to and the action
/// it asks for, given the phase it was in and the event that arrived. For
/// an event that does not fit the phase the machine is left unchanged (the
/// executable interface excludes that case).
pub open spec fn spec_next(m: InstallMachine, ev: InstallEvent) -> (Phase, InstallAction) {
    match (m.phase, ev) {
        (Phase::CheckMarker, InstallEvent::Marker { present }) => {
            if present {
                (Phase::Done, InstallAction::Succeed)
            } else {
                (Phase::CheckCache, InstallAction::CheckCache)
            }
        },
        (Phase::CheckCache, InstallEvent::Cache { present }) => {
            if present {
                (Phase::Verify, InstallAction::Verify)
            } else {
                (Phase::Probe, InstallAction::Probe)
            }
        },
        (Phase::Probe, InstallEvent::Probed { outcome }) => match outcome {
            ProbeOutcome::Transport => (
                Phase::Failed,
                InstallAction::Fail { error: InstallError::TransportError },
            ),
            ProbeOutcome::Response { status, length } => {
                if status == 404 {
                    (Phase::Failed, InstallAction::Fail { error: InstallError::NotFound })
                } else if !spec_status_success(status) {
                    (
                        Phase::Failed,
                        InstallAction::Fail { error: InstallError::UpstreamError { status } },
                    )
                } else {
                    match length {
                        None => (
                            Phase::Failed,
                            InstallAction::Fail { error: InstallError::UpstreamError { status } },
                        ),
                        Some(len) => {
                            if len == 0 {
                                (Phase::CheckSize { expected: 0 }, InstallAction::Measure)
                            } else {
                                let t = Transfer::spec_new(len);
                                (
                                    Phase::Download { transfer: t },
                                    InstallAction::Fetch { start: 0, end: t.spec_range_end() },
                                )
                            }
                        },
                    }
                }
            },
        },
        (Phase::Download { transfer }, InstallEvent::Chunk { outcome }) => match outcome {
            ChunkOutcome::Transport => (
                Phase::Failed,
                InstallAction::Fail { error: InstallError::TransportError },
            ),
            ChunkOutcome::Data { bytes, elapsed_ns } => {
                let t = transfer.spec_step(bytes, elapsed_ns);
                if t.spec_done() {
                    (Phase::CheckSize { expected: t.total }, InstallAction::Measure)
                } else {
                    (
                        Phase::Download { transfer: t },
                        InstallAction::Fetch { start: t.offset, end: t.spec_range_end() },
                    )
                }
            },
        },
        (Phase::CheckSize { expected }, InstallEvent::Sized { length }) => {
            if length == expected {
                (Phase::FetchSidecar, InstallAction::FetchSidecar)
            } else {
                (
                    Phase::Failed,
                    InstallAction::Fail {
                        error: InstallError::SizeMismatch { expected, actual: length },
                    },
                )
            }
        },
        (Phase::FetchSidecar, InstallEvent::Sidecar { outcome }) => match outcome {
            FetchOutcome::Transport => (
                Phase::Failed,
                InstallAction::Fail { error: InstallError::TransportError },
            ),
            FetchOutcome::Response { status } => {
                if spec_status_success(status) {
                    (Phase::Verify, InstallAction::Verify)
                } else {
                    (
                        Phase::Failed,
                        InstallAction::Fail { error: InstallError::UpstreamError { status } },
                    )
                }
            },
        },
        (Phase::Verify, InstallEvent::Checked { result }) => match result {
            Err(e) => (Phase::Failed, InstallAction::Fail { error: e }),
            Ok(_) => match spec_classify_archive(m.filename@) {
                Some(kind) => (Phase::Extract, InstallAction::Extract { kind }),
                None => (
                    Phase::Failed,
                    InstallAction::Fail {
                        error: InstallError::UnsupportedFormat { filename: m.filename },
                    },
                ),
            },
        },
        (Phase::Extract, InstallEvent::Extracted { ok }) => {
            if ok {
                (Phase::Marking, InstallAction::WriteMarker)
            } else {
                (Phase::Failed, InstallAction::Fail { error: InstallError::ExtractionFailure })
            }
        },
        (Phase::Marking, InstallEvent::Marked) => (Phase::Done, InstallAction::Succeed),
        _ => (m.phase, InstallAction::Succeed),
    }
}

impl InstallMachine {
    /// Machine invariant: a download in progress is well-formed and not
    /// yet done.
    pub open spec fn inv(self) -> bool {
        self.phase matches Phase::Download { transfer } ==> transfer.wf() && !transfer.spec_done()
    }

    /// A fresh install run for the given archive filename, about to check
    /// the success marker.
    pub fn start(filename: String) -> (m: InstallMachine)
        ensures
            m.filename == filename,
            m.phase == Phase::CheckMarker,
            m.inv(),
    {
        InstallMachine { filename, phase: Phase::CheckMarker }
    }

    /// Reports whether the version's success marker exists. A present
    /// marker ends the run at once with success; nothing else is checked.
    pub fn on_marker(&mut self, present: bool) -> (act: InstallAction)
        requires
            old(self).phase is CheckMarker,
            old(self).inv(),
        ensures
            final(self).inv(),
            final(self).filename == old(self).filename,
            (final(self).phase, act) == spec_next(*old(self), InstallEvent::Marker { present }),
    {
        if present {
            self.phase = Phase::Done;
            InstallAction::Succeed
        } else {
            self.phase = Phase::CheckCache;
            InstallAction::CheckCache
        }
    }

    /// Reports whether both cache files exist: a populated cache skips the
    /// download and goes straight to verification.
    pub fn on_cache(&mut self, present: bool) -> (act: InstallAction)
        requires
            old(self).phase is CheckCache,
            old(self).inv(),
        ensures
            final(self).inv(),
            final(self).filename == old(self).filename,
            (final(self).phase, act) == spec_next(*old(self), InstallEvent::Cache { present }),
    {
        if present {
            self.phase = Phase::Verify;
            InstallAction::Verify
        } else {
            self.phase = Phase::Probe;
            InstallAction::Probe
        }
    }

    /// Reports the outcome of the metadata probe: absence fails with
    /// `NotFound`, any other non-success with `UpstreamError`, and a
    /// success status starts the ranged retrieval of the advertised
    /// length.
    pub fn on_probed(&mut self, outcome: ProbeOutcome) -> (act: InstallAction)
        requires
            old(self).phase is Probe,
            old(self).inv(),
        ensures
            final(self).inv(),
            final(self).filename == old(self).filename,
            (final(self).phase, act) == spec_next(*old(self), InstallEvent::Probed { outcome }),
    {
        match outcome {
            ProbeOutcome::Transport => {
                self.phase = Phase::Failed;
                InstallAction::Fail { error: InstallError::TransportError }
            },
            ProbeOutcome::Response { status, length } => {
                if status == 404 {
                    self.phase = Phase::Failed;
                    InstallAction::Fail { error: InstallError::NotFound }
                } else if !(200 <= status && status < 300) {
                    self.phase = Phase::Failed;
                    InstallAction::Fail { error: InstallError::UpstreamError { status } }
                } else {
                    match length {
                        None => {
                            self.phase = Phase::Failed;
                            InstallAction::Fail { error: InstallError::UpstreamError { status } }
                        },
                        Some(len) => {
                            if len == 0 {
                                self.phase = Phase::CheckSize { expected: 0 };
                                InstallAction::Measure
                            } else {
                                let t = Transfer::new(len);
                                let range = t.next_range();
                                self.phase = Phase::Download { transfer: t };
                                InstallAction::Fetch { start: range.0, end: range.1 }
                            }
                        },
                    }
                }
            },
        }
    }

    /// Reports the outcome of one ranged request: the transfer advances
    /// and adapts, and when every byte has been requested the file length
    /// is measured next.
    pub fn on_chunk(&mut self, outcome: ChunkOutcome) -> (act: InstallAction)
        requires
            old(self).phase is Download,
            old(self).inv(),
        ensures
            final(self).inv(),
            final(self).filename == old(self).filename,
            (final(self).phase, act) == spec_next(*old(self), InstallEvent::Chunk { outcome }),
    {
        match outcome {
            ChunkOutcome::Transport => {
                self.phase = Phase::Failed;
                InstallAction::Fail { error: InstallError::TransportError }
            },
            ChunkOutcome::Data { bytes, elapsed_ns } => {
                let mut t = match self.phase {
                    Phase::Download { transfer } => transfer,
                    _ => unreached(),
                };
                t.step(bytes, elapsed_ns);
                if t.done() {
                    self.phase = Phase::CheckSize { expected: t.total };
                    InstallAction::Measure
                } else {
                    let range = t.next_range();
                    self.phase = Phase::Download { transfer: t };
                    InstallAction::Fetch { start: range.0, end: range.1 }
                }
            },
        }
    }

    /// Reports the measured length of the downloaded file: any difference
    /// from the advertised content length is a fatal size mismatch, never
    /// a silent success.
    pub fn on_sized(&mut self, length: u64) -> (act: InstallAction)
        requires
            old(self).phase is CheckSize,
            old(self).inv(),
        ensures
            final(self).inv(),
            final(self).filename == old(self).filename,
            (final(self).phase, act) == spec_next(*old(self), InstallEvent::Sized { length }),
    {
        let expected = match self.phase {
            Phase::CheckSize { expected } => expected,
            _ => unreached(),
        };
        if length == expected {
            self.phase = Phase::FetchSidecar;
            InstallAction::FetchSidecar
        } else {
            self.phase = Phase::Failed;
            InstallAction::Fail { error: InstallError::SizeMismatch { expected, actual: length } }
        }
    }

    /// Reports the outcome of fetching the checksum side-car.
    pub fn on_sidecar(&mut self, outcome: FetchOutcome) -> (act: InstallAction)
        requires
            old(self).phase is FetchSidecar,
            old(self).inv(),
        ensures
            final(self).inv(),
            final(self).filename == old(self).filename,
            (final(self).phase, act) == spec_next(*old(self), InstallEvent::Sidecar { outcome }),
    {
        match outcome {
            FetchOutcome::Transport => {
                self.phase = Phase::Failed;
                InstallAction::Fail { error: InstallError::TransportError }
            },
            FetchOutcome::Response { status } => {
                if 200 <= status && status < 300 {
                    self.phase = Phase::Verify;
                    InstallAction::Verify
                } else {
                    self.phase = Phase::Failed;
                    InstallAction::Fail { error: InstallError::UpstreamError { status } }
                }
            },
        }
    }

    /// Reports the result of integrity verification. On success the
    /// archive filename is dispatched on its suffix, before any I/O
    /// against the destination: an unrecognized suffix fails with
    /// `UnsupportedFormat` and no extraction is requested.
    pub fn on_checked(&mut self, result: Result<(), InstallError>) -> (act: InstallAction)
        requires
            old(self).phase is Verify,
            old(self).inv(),
        ensures
            final(self).inv(),
            final(self).filename == old(self).filename,
            (final(self).phase, act) == spec_next(*old(self), InstallEvent::Checked { result }),
    {
        match result {
            Err(e) => {
                self.phase = Phase::Failed;
                InstallAction::Fail { error: e }
            },
            Ok(_) => match classify_archive(self.filename.as_str()) {
                Some(kind) => {
                    self.phase = Phase::Extract;
                    InstallAction::Extract { kind }
                },
                None => {
                    self.phase = Phase::Failed;
                    InstallAction::Fail {
                        error: InstallError::UnsupportedFormat { filename: self.filename.clone() },
                    }
                },
            },
        }
    }

    /// Reports whether extraction ran to completion: only then is the
    /// success marker written; any failure aborts with nothing marked.
    pub fn on_extracted(&mut self, ok: bool) -> (act: InstallAction)
        requires
            old(self).phase is Extract,
            old(self).inv(),
        ensures
            final(self).inv(),
            final(self).filename == old(self).filename,
            (final(self).phase, act) == spec_next(*old(self), InstallEvent::Extracted { ok }),
    {
        if ok {
            self.phase = Phase::Marking;
            InstallAction::WriteMarker
        } else {
            self.phase = Phase::Failed;
            InstallAction::Fail { error: InstallError::ExtractionFailure }
        }
    }

    /// Reports that the success marker has been written: the run is over.
    pub fn on_marked(&mut self) -> (act: InstallAction)
        requires
            old(self).phase is Marking,
            old(self).inv(),
        ensures
            final(self).inv(),
            final(self).filename == old(self).filename,
            (final(self).phase, act) == spec_next(*old(self), InstallEvent::Marked),
    {
        self.phase = Phase::Done;
        InstallAction::Succeed
    }
}

/// Verifies the cached archive against its side-car: `Ok` exactly when the
/// digest of `data`, rendered lowercase hex, equals the side-car content
/// trimmed of surrounding whitespace; otherwise the checksum-mismatch
/// error, carrying the archive filename and the expected digest.
pub fn check_integrity(data: &[u8], sidecar: &str, filename: &str) -> (r: Result<
    (),
    InstallError,
>)
    ensures
        r is Ok <==> spec_trim(sidecar@) == spec_sha256_hex(data@),
        r matches Err(e) ==> e matches InstallError::ChecksumMismatch { filename: f, expected: x }
            && f@ == filename@ && x@ == spec_trim(sidecar@),
{
    if verify_archive(data, sidecar) {
        Ok(())
    } else {
        let expected = String::from_str(trim(sidecar));
        Err(
            InstallError::ChecksumMismatch { filename: String::from_str(filename), expected },
        )
    }
}

/// The machine an event leaves behind.
pub open spec fn spec_apply(m: InstallMachine, ev: InstallEvent) -> InstallMachine {
    InstallMachine { phase: spec_next(m, ev).0, ..m }
}

/// The machine after the first `i` events of a run that started at `m`.
pub open spec fn machine_at(m: InstallMachine, evs: Seq<InstallEvent>, i: int) -> InstallMachine
    decreases i,
{
    if i <= 0 {
        m
    } else {
        spec_apply(machine_at(m, evs, i - 1), evs[i - 1])
    }
}

/// A run is valid when every event fits the phase it arrives in.
pub open spec fn valid_run(m: InstallMachine, evs: Seq<InstallEvent>) -> bool {
    forall|i: int| 0 <= i < evs.len() ==> fits(machine_at(m, evs, i).phase, #[trigger] evs[i])
}

/// The action the `i`-th event of a run provokes.
pub open spec fn action_at(m: InstallMachine, evs: Seq<InstallEvent>, i: int) -> InstallAction {
    spec_next(machine_at(m, evs, i), evs[i]).1
}

/// An action that performs network traffic or extraction: the metadata
/// probe, a ranged request, the side-car fetch, or unpacking.
pub open spec fn is_work_action(a: InstallAction) -> bool {
    a is Probe || a is Fetch || a is FetchSidecar || a is Extract
}

/// Idempotence: a run that finds the success marker present performs no
/// network or extraction work and succeeds at once. The marker check is
/// the only event such a run can contain: it answers with `Succeed`, and
/// no event fits the terminal phase it leaves behind.
pub proof fn lemma_installed_is_noop(m: InstallMachine, evs: Seq<InstallEvent>)
    requires
        m.phase is CheckMarker,
        valid_run(m, evs),
        evs.len() > 0,
        evs[0] == (InstallEvent::Marker { present: true }),
    ensures
        evs.len() == 1,
        action_at(m, evs, 0) == InstallAction::Succeed,
        forall|i: int| 0 <= i < evs.len() ==> !is_work_action(#[trigger] action_at(m, evs, i)),
{
    assert(machine_at(m, evs, 0) == m);
    assert(machine_at(m, evs, 1).phase is Done);
    if evs.len() > 1 {
        assert(fits(machine_at(m, evs, 1).phase, evs[1]));
        assert(false);
    }
}

/// Ordering: the success marker is written only on the word that
/// extraction ran to completion. An action `WriteMarker` is provoked
/// exactly by the event `Extracted { ok: true }` arriving in the
/// `Extract` phase.
pub proof fn lemma_marker_only_after_extraction(
    m: InstallMachine,
    evs: Seq<InstallEvent>,
    i: int,
)
    requires
        valid_run(m, evs),
        0 <= i < evs.len(),
        action_at(m, evs, i) == InstallAction::WriteMarker,
    ensures
        machine_at(m, evs, i).phase is Extract,
        evs[i] == (InstallEvent::Extracted { ok: true }),
{
    assert(fits(machine_at(m, evs, i).phase, evs[i]));
}

/// The history behind a phase: the starting phase occurs only at the
/// start, the marking phase only after a completed extraction, and the
/// installed phase only when the marker was already present or an
/// extraction completed.
proof fn lemma_phase_provenance(m: InstallMachine, evs: Seq<InstallEvent>, i: int)
    requires
        m.phase is CheckMarker,
        valid_run(m, evs),
        0 <= i <= evs.len(),
    ensures
        i > 0 ==> !(machine_at(m, evs, i).phase is CheckMarker),
        machine_at(m, evs, i).phase is Marking ==> exists|j: int|
            0 <= j < i && evs[j] == (InstallEvent::Extracted { ok: true }),
        machine_at(m, evs, i).phase is Done ==> (evs.len() > 0 && evs[0] == (InstallEvent::Marker {
            present: true,
        })) || exists|j: int| 0 <= j < i && evs[j] == (InstallEvent::Extracted { ok: true }),
    decreases i,
{
    if i > 0 {
        lemma_phase_provenance(m, evs, i - 1);
        let prev = machine_at(m, evs, i - 1);
        let ev = evs[i - 1];
        assert(fits(prev.phase, ev));
        let cur = machine_at(m, evs, i);
        if cur.phase is Marking {
            assert(prev.phase is Extract && ev == (InstallEvent::Extracted { ok: true }));
        }
        if cur.phase is Done {
            if prev.phase is CheckMarker {
                assert(i - 1 == 0);
                assert(ev == (InstallEvent::Marker { present: true }));
            } else {
                assert(prev.phase is Marking);
            }
        }
    }
}

/// A run that ends installed either found the marker already present or
/// saw extraction run to completion first: success never outruns
/// extraction.
pub proof fn lemma_success_provenance(m: InstallMachine, evs: Seq<InstallEvent>)
    requires
        m.phase is CheckMarker,
        valid_run(m, evs),
        machine_at(m, evs, evs.len() as int).phase is Done,
    ensures
        (evs.len() > 0 && evs[0] == (InstallEvent::Marker { present: true })) || exists|j: int|
            0 <= j < evs.len() && evs[j] == (InstallEvent::Extracted { ok: true }),
{
    lemma_phase_provenance(m, evs, evs.len() as int);
}

/// Success and failure are terminal for the current run: no event fits
/// either phase, so nothing follows them.
pub proof fn lemma_terminal_phases(phase: Phase, ev: InstallEvent)
    requires
        phase is Done || phase is Failed,
    ensures
        !fits(phase, ev),
{
}

/// Whether an event is a probe answer advertising the content length
/// `len`.
pub open spec fn is_probe_of_length(ev: InstallEvent, len: u64) -> bool {
    ev matches InstallEvent::Probed {
        outcome: ProbeOutcome::Response { status: _, length },
    } && length == Some(len)
}

/// The length a run enforces is the advertised one: a download in
/// progress, and the size check after it, carry exactly the content
/// length that the probe reported.
pub proof fn lemma_advertised_length_provenance(
    m: InstallMachine,
    evs: Seq<InstallEvent>,
    i: int,
)
    requires
        m.phase is CheckMarker,
        valid_run(m, evs),
        0 <= i <= evs.len(),
    ensures
        machine_at(m, evs, i).phase matches Phase::Download { transfer } ==> exists|j: int|
            0 <= j < i && is_probe_of_length(#[trigger] evs[j], transfer.total),
        machine_at(m, evs, i).phase matches Phase::CheckSize { expected } ==> exists|j: int|
            0 <= j < i && is_probe_of_length(#[trigger] evs[j], expected),
    decreases i,
{
    if i > 0 {
        lemma_advertised_length_provenance(m, evs, i - 1);
        let prev = machine_at(m, evs, i - 1);
        let ev = evs[i - 1];
        assert(fits(prev.phase, ev));
        let cur = machine_at(m, evs, i);
        if cur.phase is Download || cur.phase is CheckSize {
            if prev.phase is Probe {
                assert(is_probe_of_length(evs[i - 1], cur.phase->Download_transfer.total)
                    || is_probe_of_length(evs[i - 1], cur.phase->CheckSize_expected));
            }
        }
    }
}

/// Size enforcement: a downloaded file whose measured length differs from
/// the advertised content length fails the run with `SizeMismatch`, never
/// a silent success.
pub proof fn lemma_size_mismatch_fails(m: InstallMachine, expected: u64, length: u64)
    requires
        m.phase == (Phase::CheckSize { expected }),
        length != expected,
    ensures
        spec_next(m, InstallEvent::Sized { length }) == (
            Phase::Failed,
            InstallAction::Fail { error: InstallError::SizeMismatch { expected, actual: length } },
        ),
{
}

/// Archive dispatch: once the digest is verified, a name ending `.tar.gz`
/// is routed to tar+gzip extraction and one ending `.zip` to zip
/// extraction; any other name fails with `UnsupportedFormat`, and no
/// extraction is requested.
pub proof fn lemma_archive_dispatch(m: InstallMachine)
    requires
        m.phase is Verify,
    ensures
        spec_classify_archive(m.filename@) matches Some(kind) ==> spec_next(
            m,
            InstallEvent::Checked { result: Ok(()) },
        ) == (Phase::Extract, InstallAction::Extract { kind }),
        spec_classify_archive(m.filename@) is None ==> spec_next(
            m,
            InstallEvent::Checked { result: Ok(()) },
        ) == (
            Phase::Failed,
            InstallAction::Fail {
                error: InstallError::UnsupportedFormat { filename: m.filename },
            },
        ),
{
}

} // verus!
