use goup::digest::{sha256_hex, to_hex_lower, verify_archive};
use goup::pipeline::check_integrity;
use goup::error::InstallError;

/// Renders a digest computed directly with the outside crate, as an
/// independent cross-check of the library's wrapper and hex rendering.
fn sha2_hex(data: &[u8]) -> String {
    let digest = <sha2::Sha256 as sha2::Digest>::digest(data);
    let mut s = String::new();
    for b in digest.iter() {
        s.push_str(&format!("{:02x}", b));
    }
    s
}

#[test]
fn hex_rendering_is_two_lowercase_digits_per_byte() {
    assert_eq!(to_hex_lower(&[]), "");
    assert_eq!(to_hex_lower(&[0x00, 0xff, 0x1a]), "00ff1a");
    assert_eq!(to_hex_lower(&[0xde, 0xad, 0xbe, 0xef]), "deadbeef");
}

#[test]
fn sha256_hex_matches_known_vector() {
    // The standard SHA-256 test vector for "abc".
    assert_eq!(
        sha256_hex(b"abc"),
        "ba7816bf8f01cfea414140de5dae2223b00361a396177a9cb410ff61f20015ad"
    );
    assert_eq!(
        sha256_hex(b""),
        "e3b0c44298fc1c149afbf4c8996fb92427ae41e4649b934ca495991b7852b855"
    );
}

#[test]
fn sha256_hex_agrees_with_outside_crate() {
    for data in [&b"0123456789"[..], b"goup", b"", b"\x00\x01\x02"] {
        assert_eq!(sha256_hex(data), sha2_hex(data));
    }
}

#[test]
fn verify_succeeds_on_own_digest() {
    let data = b"some archive bytes";
    let digest = sha256_hex(data);
    assert!(verify_archive(data, &digest));
    // Surrounding whitespace in the side-car is trimmed away.
    assert!(verify_archive(data, &format!("  {}\n", digest)));
}

#[test]
fn verify_fails_on_single_bit_mutation() {
    let data = b"some archive bytes".to_vec();
    let digest = sha256_hex(&data);
    for i in 0..data.len() {
        for bit in 0..8 {
            let mut mutated = data.clone();
            mutated[i] ^= 1u8 << bit;
            assert!(!verify_archive(&mutated, &digest));
        }
    }
}

#[test]
fn verify_trims_all_surrounding_whitespace() {
    let data = b"bytes";
    let digest = sha256_hex(data);
    assert!(verify_archive(data, &format!("\t\r\n {} \r\n\t", digest)));
    // Whitespace alone is never a digest.
    assert!(!verify_archive(data, " \n\t"));
}

#[test]
fn verify_fails_on_wrong_digest() {
    assert!(!verify_archive(b"abc", "0000000000000000000000000000000000000000000000000000000000000000"));
}

#[test]
fn check_integrity_reports_path_and_expected_digest() {
    let data = b"payload";
    let good = sha256_hex(data);
    assert_eq!(check_integrity(data, &good, "a.tar.gz"), Ok(()));

    let bad = " 1111111111111111111111111111111111111111111111111111111111111111 ";
    match check_integrity(data, bad, "a.tar.gz") {
        Err(InstallError::ChecksumMismatch { filename, expected }) => {
            assert_eq!(filename, "a.tar.gz");
            assert_eq!(
                expected,
                "1111111111111111111111111111111111111111111111111111111111111111"
            );
        }
        other => panic!("unexpected result: {:?}", other),
    }
}
