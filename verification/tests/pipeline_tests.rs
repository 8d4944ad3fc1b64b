use goup::archive::{classify_archive, go_version_archive, ArchiveKind};
use goup::digest::sha256_hex;
use goup::error::InstallError;
use goup::home::{cache_file_path, marker_path, version_dir};
use goup::pipeline::{
    check_integrity, ChunkOutcome, FetchOutcome, InstallAction, InstallMachine, Phase,
    ProbeOutcome,
};
use goup::transfer::INITIAL_CHUNK_SIZE;

#[test]
fn installed_version_is_a_noop() {
    // Idempotence: a present success marker ends the run at once, with no
    // network or extraction work ever requested.
    let mut m = InstallMachine::start("1.21.5.linux-amd64.tar.gz".to_string());
    let act = m.on_marker(true);
    assert_eq!(act, InstallAction::Succeed);
    assert_eq!(m.phase, Phase::Done);
}

#[test]
fn full_install_run_for_linux_amd64() {
    // Installing version 1.21.5 on a Linux/amd64 host, start to finish.
    let home = "/home/user/.goup";
    let version = "1.21.5";
    let filename = go_version_archive(version, "linux", "x86_64");
    assert_eq!(filename, "1.21.5.linux-amd64.tar.gz");
    assert_eq!(
        cache_file_path(home, &filename),
        "/home/user/.goup/cache/1.21.5.linux-amd64.tar.gz"
    );
    assert_eq!(version_dir(home, version), "/home/user/.goup/1.21.5");
    assert_eq!(
        marker_path(home, version),
        "/home/user/.goup/1.21.5/.unpacked-success"
    );

    let data = b"pretend this is a gzipped tarball";
    let sidecar = format!("{}\n", sha256_hex(data));
    let total = data.len() as u64;

    let mut m = InstallMachine::start(filename.clone());
    assert_eq!(m.on_marker(false), InstallAction::CheckCache);
    assert_eq!(m.on_cache(false), InstallAction::Probe);
    let act = m.on_probed(ProbeOutcome::Response {
        status: 200,
        length: Some(total),
    });
    assert_eq!(act, InstallAction::Fetch { start: 0, end: total - 1 });
    let act = m.on_chunk(ChunkOutcome::Data {
        bytes: total,
        elapsed_ns: 1_000,
    });
    assert_eq!(act, InstallAction::Measure);
    assert_eq!(m.on_sized(total), InstallAction::FetchSidecar);
    let act = m.on_sidecar(FetchOutcome::Response { status: 200 });
    assert_eq!(act, InstallAction::Verify);
    let checked = check_integrity(data, &sidecar, &filename);
    assert_eq!(checked, Ok(()));
    let act = m.on_checked(checked);
    assert_eq!(act, InstallAction::Extract { kind: ArchiveKind::TarGz });
    assert_eq!(m.on_extracted(true), InstallAction::WriteMarker);
    assert_eq!(m.on_marked(), InstallAction::Succeed);
    assert_eq!(m.phase, Phase::Done);

    // A second invocation finds the marker and performs no network calls.
    let mut again = InstallMachine::start(filename);
    assert_eq!(again.on_marker(true), InstallAction::Succeed);
}

#[test]
fn cached_archive_skips_the_download() {
    let mut m = InstallMachine::start("1.21.5.linux-amd64.tar.gz".to_string());
    assert_eq!(m.on_marker(false), InstallAction::CheckCache);
    assert_eq!(m.on_cache(true), InstallAction::Verify);
}

#[test]
fn download_loop_advances_in_chunks() {
    let total = INITIAL_CHUNK_SIZE + 7;
    let mut m = InstallMachine::start("1.21.5.linux-amd64.tar.gz".to_string());
    m.on_marker(false);
    m.on_cache(false);
    let act = m.on_probed(ProbeOutcome::Response {
        status: 200,
        length: Some(total),
    });
    assert_eq!(
        act,
        InstallAction::Fetch { start: 0, end: INITIAL_CHUNK_SIZE - 1 }
    );
    let act = m.on_chunk(ChunkOutcome::Data {
        bytes: INITIAL_CHUNK_SIZE,
        elapsed_ns: 50,
    });
    assert_eq!(
        act,
        InstallAction::Fetch { start: INITIAL_CHUNK_SIZE, end: total - 1 }
    );
    let act = m.on_chunk(ChunkOutcome::Data { bytes: 7, elapsed_ns: 50 });
    assert_eq!(act, InstallAction::Measure);
}

#[test]
fn truncated_download_is_a_size_mismatch() {
    // Size enforcement: fewer bytes on disk than advertised is a fatal
    // mismatch, never a silent success.
    let total = 1000u64;
    let mut m = InstallMachine::start("1.21.5.linux-amd64.tar.gz".to_string());
    m.on_marker(false);
    m.on_cache(false);
    m.on_probed(ProbeOutcome::Response {
        status: 200,
        length: Some(total),
    });
    m.on_chunk(ChunkOutcome::Data {
        bytes: 900,
        elapsed_ns: 50,
    });
    let act = m.on_sized(900);
    assert_eq!(
        act,
        InstallAction::Fail {
            error: InstallError::SizeMismatch { expected: 1000, actual: 900 }
        }
    );
    assert_eq!(m.phase, Phase::Failed);
}

#[test]
fn archive_dispatch_by_suffix() {
    assert_eq!(classify_archive("1.21.5.linux-amd64.tar.gz"), Some(ArchiveKind::TarGz));
    assert_eq!(classify_archive("1.21.5.windows-amd64.zip"), Some(ArchiveKind::Zip));
    assert_eq!(classify_archive("1.21.5.linux-amd64.tar.bz2"), None);
    assert_eq!(classify_archive("a.tar.gz"), Some(ArchiveKind::TarGz));
    assert_eq!(classify_archive("tar.gz"), None);
    assert_eq!(classify_archive("gz"), None);
}

#[test]
fn unsupported_suffix_fails_before_extraction() {
    let mut m = InstallMachine::start("1.21.5.linux-amd64.tar.xz".to_string());
    m.on_marker(false);
    m.on_cache(true);
    let act = m.on_checked(Ok(()));
    assert_eq!(
        act,
        InstallAction::Fail {
            error: InstallError::UnsupportedFormat {
                filename: "1.21.5.linux-amd64.tar.xz".to_string()
            }
        }
    );
    assert_eq!(m.phase, Phase::Failed);
}

#[test]
fn probe_absence_is_not_found() {
    let mut m = InstallMachine::start("1.21.5.plan9-386.tar.gz".to_string());
    m.on_marker(false);
    m.on_cache(false);
    let act = m.on_probed(ProbeOutcome::Response { status: 404, length: None });
    assert_eq!(act, InstallAction::Fail { error: InstallError::NotFound });
}

#[test]
fn probe_failure_is_upstream_or_transport() {
    let mut m = InstallMachine::start("1.21.5.linux-amd64.tar.gz".to_string());
    m.on_marker(false);
    m.on_cache(false);
    let act = m.on_probed(ProbeOutcome::Response { status: 500, length: None });
    assert_eq!(
        act,
        InstallAction::Fail { error: InstallError::UpstreamError { status: 500 } }
    );

    let mut m = InstallMachine::start("1.21.5.linux-amd64.tar.gz".to_string());
    m.on_marker(false);
    m.on_cache(false);
    let act = m.on_probed(ProbeOutcome::Transport);
    assert_eq!(act, InstallAction::Fail { error: InstallError::TransportError });
}

#[test]
fn sidecar_failure_aborts() {
    let mut m = InstallMachine::start("1.21.5.linux-amd64.tar.gz".to_string());
    m.on_marker(false);
    m.on_cache(false);
    m.on_probed(ProbeOutcome::Response { status: 200, length: Some(4) });
    m.on_chunk(ChunkOutcome::Data { bytes: 4, elapsed_ns: 9 });
    m.on_sized(4);
    let act = m.on_sidecar(FetchOutcome::Response { status: 503 });
    assert_eq!(
        act,
        InstallAction::Fail { error: InstallError::UpstreamError { status: 503 } }
    );
}

#[test]
fn checksum_mismatch_aborts() {
    let mut m = InstallMachine::start("1.21.5.linux-amd64.tar.gz".to_string());
    m.on_marker(false);
    m.on_cache(true);
    let checked = check_integrity(
        b"archive bytes",
        "2222222222222222222222222222222222222222222222222222222222222222",
        "1.21.5.linux-amd64.tar.gz",
    );
    assert!(checked.is_err());
    let act = m.on_checked(checked);
    match act {
        InstallAction::Fail {
            error: InstallError::ChecksumMismatch { filename, expected },
        } => {
            assert_eq!(filename, "1.21.5.linux-amd64.tar.gz");
            assert_eq!(
                expected,
                "2222222222222222222222222222222222222222222222222222222222222222"
            );
        }
        other => panic!("unexpected action: {:?}", other),
    }
    assert_eq!(m.phase, Phase::Failed);
}

#[test]
fn failed_extraction_writes_no_marker() {
    let mut m = InstallMachine::start("1.21.5.linux-amd64.tar.gz".to_string());
    m.on_marker(false);
    m.on_cache(true);
    m.on_checked(Ok(()));
    let act = m.on_extracted(false);
    assert_eq!(act, InstallAction::Fail { error: InstallError::ExtractionFailure });
    assert_eq!(m.phase, Phase::Failed);
}

#[test]
fn empty_object_still_passes_the_size_check() {
    let mut m = InstallMachine::start("1.21.5.linux-amd64.tar.gz".to_string());
    m.on_marker(false);
    m.on_cache(false);
    let act = m.on_probed(ProbeOutcome::Response { status: 200, length: Some(0) });
    assert_eq!(act, InstallAction::Measure);
    assert_eq!(m.on_sized(0), InstallAction::FetchSidecar);
}

#[test]
fn missing_content_length_is_an_upstream_error() {
    let mut m = InstallMachine::start("1.21.5.linux-amd64.tar.gz".to_string());
    m.on_marker(false);
    m.on_cache(false);
    let act = m.on_probed(ProbeOutcome::Response { status: 200, length: None });
    assert_eq!(
        act,
        InstallAction::Fail { error: InstallError::UpstreamError { status: 200 } }
    );
}
