//! Integrity verification: the SHA-256 digest of the archive bytes,
//! rendered as lowercase hexadecimal, compared against the content of the
//! checksum side-car file trimmed of surrounding whitespace.

use vstd::prelude::*;

use crate::strutil::{is_space, spec_trim, str_eq, trim};

verus! {

/// The SHA-256 digest of a byte sequence: a function of the bytes alone,
/// computed by an outside crate and left unspecified here.
pub uninterp spec fn sha256_of(data: Seq<u8>) -> Seq<u8>;

/// Relies on `sha2::Sha256` through `digest::Digest::digest`: the digest
/// of the input bytes, a function of those bytes alone, 32 bytes long.
#[verifier::external_body]
fn sha256(data: &[u8]) -> (r: Vec<u8>)
    ensures
        r@ == sha256_of(data@),
        r@.len() == 32,
{
    let d = <sha2::Sha256 as sha2::Digest>::digest(data);
    d.to_vec()
}

/// The lowercase hexadecimal digit for a value below sixteen.
pub open spec fn hex_char(n: int) -> char {
    if n == 0 {
        '0'
    } else if n == 1 {
        '1'
    } else if n == 2 {
        '2'
    } else if n == 3 {
        '3'
    } else if n == 4 {
        '4'
    } else if n == 5 {
        '5'
    } else if n == 6 {
        '6'
    } else if n == 7 {
        '7'
    } else if n == 8 {
        '8'
    } else if n == 9 {
        '9'
    } else if n == 10 {
        'a'
    } else if n == 11 {
        'b'
    } else if n == 12 {
        'c'
    } else if n == 13 {
        'd'
    } else if n == 14 {
        'e'
    } else {
        'f'
    }
}

/// Lowercase hexadecimal rendering of a byte string: two digits per byte,
/// high nibble first.
pub open spec fn spec_hex(bytes: Seq<u8>) -> Seq<char> {
    Seq::new(
        2 * bytes.len(),
        |i: int|
            if i % 2 == 0 {
                hex_char(bytes[i / 2] as int / 16)
            } else {
                hex_char(bytes[i / 2] as int % 16)
            },
    )
}

pub(crate) fn hex_str(n: u8) -> (r: &'static str)
    requires
        n < 16,
    ensures
        r@.len() == 1,
        r@[0] == hex_char(n as int),
{
    proof {
        reveal_strlit("0");
        reveal_strlit("1");
        reveal_strlit("2");
        reveal_strlit("3");
        reveal_strlit("4");
        reveal_strlit("5");
        reveal_strlit("6");
        reveal_strlit("7");
        reveal_strlit("8");
        reveal_strlit("9");
        reveal_strlit("a");
        reveal_strlit("b");
        reveal_strlit("c");
        reveal_strlit("d");
        reveal_strlit("e");
        reveal_strlit("f");
    }
    match n {
        0 => "0",
        1 => "1",
        2 => "2",
        3 => "3",
        4 => "4",
        5 => "5",
        6 => "6",
        7 => "7",
        8 => "8",
        9 => "9",
        10 => "a",
        11 => "b",
        12 => "c",
        13 => "d",
        14 => "e",
        _ => "f",
    }
}

/// The lowercase hexadecimal rendering of the given bytes.
pub fn to_hex_lower(bytes: &[u8]) -> (r: String)
    ensures
        r@ == spec_hex(bytes@),
{
    let n: usize = bytes.len();
    let mut out = String::new();
    let mut i: usize = 0;
    while i < n
        invariant
            n == bytes@.len(),
            0 <= i <= n,
            out@ == spec_hex(bytes@).subrange(0, 2 * i),
        decreases n - i,
    {
        let b = bytes[i];
        out.append(hex_str(b / 16));
        out.append(hex_str(b % 16));
        proof {
            assert(out@ =~= spec_hex(bytes@).subrange(0, 2 * (i + 1)));
        }
        i = i + 1;
    }
    proof {
        assert(spec_hex(bytes@).subrange(0, 2 * (n as int)) =~= spec_hex(bytes@));
    }
    out
}

/// The lowercase hexadecimal SHA-256 digest of a byte sequence.
pub open spec fn spec_sha256_hex(data: Seq<u8>) -> Seq<char> {
    spec_hex(sha256_of(data))
}

/// The lowercase hexadecimal SHA-256 digest of the given bytes.
pub fn sha256_hex(data: &[u8]) -> (r: String)
    ensures
        r@ == spec_sha256_hex(data@),
        r@.len() == 64,
{
    let d = sha256(data);
    to_hex_lower(d.as_slice())
}

/// Whether the archive bytes match the checksum side-car: the digest of
/// `data`, rendered as lowercase hexadecimal, equals the side-car content
/// trimmed of surrounding whitespace. Pure in its inputs: a cached archive
/// is never trusted merely because it exists, so this runs on every
/// install attempt.
pub fn verify_archive(data: &[u8], sidecar: &str) -> (ok: bool)
    ensures
        ok == (spec_trim(sidecar@) == spec_sha256_hex(data@)),
{
    let expect = trim(sidecar);
    let got = sha256_hex(data);
    str_eq(expect, got.as_str())
}

/// A rendered digest holds hexadecimal digits only, never whitespace, so
/// trimming leaves it unchanged: verifying a digest the library itself
/// rendered from the same bytes always succeeds.
pub proof fn lemma_verify_own_digest(data: Seq<u8>)
    ensures
        spec_trim(spec_sha256_hex(data)) == spec_sha256_hex(data),
{
    let h = spec_sha256_hex(data);
    if h.len() > 0 {
        assert(!is_space(h[0]));
        assert(!is_space(h[h.len() - 1]));
    }
}

} // verus!
