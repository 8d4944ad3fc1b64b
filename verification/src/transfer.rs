//! Adaptive chunked transfer planning: the state of a ranged retrieval
//! loop, advanced by a pure step that adapts the chunk size to measured
//! throughput. Adaptation affects only efficiency, never correctness: the
//! pipeline validates the result by comparing the final file length with
//! the advertised content length.

use vstd::prelude::*;

use crate::digest::{hex_char, hex_str};

verus! {

/// The chunk size never shrinks below this.
pub const MIN_CHUNK_SIZE: u64 = 1024 * 1024;

/// The chunk size of the first range request.
pub const INITIAL_CHUNK_SIZE: u64 = 2 * 1024 * 1024;

/// Whether the throughput `new_bytes / new_elapsed_ns` is at least
/// `old_bytes / old_elapsed_ns`, compared exactly as rationals by
/// cross-multiplication; a zero elapsed time counts as infinitely fast.
pub open spec fn spec_throughput_at_least(
    new_bytes: u64,
    new_elapsed_ns: u64,
    old_bytes: u64,
    old_elapsed_ns: u64,
) -> bool {
    new_bytes * old_elapsed_ns >= old_bytes * new_elapsed_ns
}

/// Compares two measured throughputs without division or rounding.
pub fn throughput_at_least(new_bytes: u64, new_elapsed_ns: u64, old_bytes: u64, old_elapsed_ns: u64) -> (r:
    bool)
    ensures
        r == spec_throughput_at_least(new_bytes, new_elapsed_ns, old_bytes, old_elapsed_ns),
{
    proof {
        vstd::arithmetic::mul::lemma_mul_upper_bound(
            new_bytes as int,
            u64::MAX as int,
            old_elapsed_ns as int,
            u64::MAX as int,
        );
        vstd::arithmetic::mul::lemma_mul_upper_bound(
            old_bytes as int,
            u64::MAX as int,
            new_elapsed_ns as int,
            u64::MAX as int,
        );
    }
    let lhs: u128 = (new_bytes as u128) * (old_elapsed_ns as u128);
    let rhs: u128 = (old_bytes as u128) * (new_elapsed_ns as u128);
    lhs >= rhs
}

/// The state of one ranged retrieval: how much has been requested, the
/// current chunk size, and the previous round's measurement.
#[derive(Clone, Copy, PartialEq, Eq, Structural, Debug)]
pub struct Transfer {
    /// Advertised total length of the remote object.
    pub total: u64,
    /// Offset of the next byte to request; what lies before it has been
    /// requested already.
    pub offset: u64,
    /// Current chunk size.
    pub chunk: u64,
    /// Bytes received in the previous round.
    pub last_bytes: u64,
    /// Time the previous round took, in nanoseconds.
    pub last_elapsed_ns: u64,
}

impl Transfer {
    /// Well-formed: the chunk size never falls below the minimum and the
    /// next offset never passes the end.
    pub open spec fn wf(self) -> bool {
        MIN_CHUNK_SIZE <= self.chunk && self.offset <= self.total
    }

    /// Every byte has been requested.
    pub open spec fn spec_done(self) -> bool {
        self.offset == self.total
    }

    /// The length of the next range request: a full chunk, or whatever
    /// remains of the object if that is less.
    pub open spec fn spec_request_len(self) -> int {
        if self.total - self.offset < self.chunk {
            self.total - self.offset
        } else {
            self.chunk as int
        }
    }

    /// The last byte offset of the next range request.
    pub open spec fn spec_range_end(self) -> u64 {
        (self.offset + self.spec_request_len() - 1) as u64
    }

    /// The transfer state before the first range request.
    pub open spec fn spec_new(total: u64) -> Transfer {
        Transfer {
            total,
            offset: 0,
            chunk: INITIAL_CHUNK_SIZE,
            last_bytes: 0,
            last_elapsed_ns: 0,
        }
    }

    /// A fresh transfer of an object of the advertised length.
    pub fn new(total: u64) -> (t: Transfer)
        ensures
            t == Transfer::spec_new(total),
            t.wf(),
    {
        Transfer { total, offset: 0, chunk: INITIAL_CHUNK_SIZE, last_bytes: 0, last_elapsed_ns: 0 }
    }

    /// Whether every byte has been requested.
    pub fn done(&self) -> (r: bool)
        ensures
            r == self.spec_done(),
    {
        self.offset == self.total
    }

    /// The next byte range to request, inclusive on both ends: from the
    /// current offset through the last byte of the chunk, clamped to the
    /// end of the object.
    pub fn next_range(&self) -> (r: (u64, u64))
        requires
            self.wf(),
            !self.spec_done(),
        ensures
            r.0 == self.offset,
            r.1 == self.spec_range_end(),
            r.0 <= r.1 < self.total,
    {
        let len = if self.total - self.offset < self.chunk {
            self.total - self.offset
        } else {
            self.chunk
        };
        (self.offset, self.offset + (len - 1))
    }

    /// The state after one round: the offset advances past the requested
    /// range; the chunk doubles when this round's throughput was not worse
    /// than the previous round's (where doubling still fits the counter),
    /// and otherwise halves, clamped to the minimum; the measurement is
    /// recorded for the next round.
    pub open spec fn spec_step(self, bytes: u64, elapsed_ns: u64) -> Transfer {
        let offset: u64 = if self.total - self.offset <= self.chunk {
            self.total
        } else {
            (self.offset + self.chunk) as u64
        };
        let chunk: u64 = if spec_throughput_at_least(
            bytes,
            elapsed_ns,
            self.last_bytes,
            self.last_elapsed_ns,
        ) {
            if self.chunk <= u64::MAX / 2 {
                (2 * self.chunk) as u64
            } else {
                self.chunk
            }
        } else {
            if self.chunk / 2 < MIN_CHUNK_SIZE {
                MIN_CHUNK_SIZE
            } else {
                self.chunk / 2
            }
        };
        Transfer { offset, chunk, last_bytes: bytes, last_elapsed_ns: elapsed_ns, ..self }
    }

    /// Advances past the requested range and adapts the chunk size to the
    /// measured round: `bytes` arrived in `elapsed_ns` nanoseconds.
    pub fn step(&mut self, bytes: u64, elapsed_ns: u64)
        requires
            old(self).wf(),
            !old(self).spec_done(),
        ensures
            *final(self) == old(self).spec_step(bytes, elapsed_ns),
            final(self).wf(),
            final(self).total == old(self).total,
            old(self).offset < final(self).offset,
    {
        if self.total - self.offset <= self.chunk {
            self.offset = self.total;
        } else {
            self.offset = self.offset + self.chunk;
        }
        if throughput_at_least(bytes, elapsed_ns, self.last_bytes, self.last_elapsed_ns) {
            if self.chunk <= u64::MAX / 2 {
                self.chunk = 2 * self.chunk;
            }
        } else {
            self.chunk = self.chunk / 2;
            if self.chunk < MIN_CHUNK_SIZE {
                self.chunk = MIN_CHUNK_SIZE;
            }
        }
        self.last_bytes = bytes;
        self.last_elapsed_ns = elapsed_ns;
    }
}

/// The decimal rendering of a non-negative number, most significant digit
/// first. The first ten hexadecimal digits are the decimal ones.
pub open spec fn spec_dec(n: int) -> Seq<char>
    decreases n,
{
    if n < 10 {
        seq![hex_char(n)]
    } else {
        spec_dec(n / 10).push(hex_char(n % 10))
    }
}

/// The decimal rendering of `n`.
pub fn u64_to_decimal(n: u64) -> (r: String)
    ensures
        r@ == spec_dec(n as int),
    decreases n,
{
    if n < 10 {
        String::from_str(hex_str(n as u8))
    } else {
        let mut s = u64_to_decimal(n / 10);
        s.append(hex_str((n % 10) as u8));
        proof {
            assert(s@ =~= spec_dec(n as int / 10).push(hex_char(n as int % 10)));
        }
        s
    }
}

/// The `Range` header value that requests the inclusive byte range
/// `start..=end`: `bytes=<start>-<end>`.
pub fn range_header_value(start: u64, end: u64) -> (r: String)
    ensures
        r@ == "bytes="@ + spec_dec(start as int) + "-"@ + spec_dec(end as int),
{
    let mut s = String::from_str("bytes=");
    let a = u64_to_decimal(start);
    s.append(a.as_str());
    s.append("-");
    let b = u64_to_decimal(end);
    s.append(b.as_str());
    s
}

} // verus!
