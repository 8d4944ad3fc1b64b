use goup::transfer::{
    range_header_value, throughput_at_least, u64_to_decimal, Transfer, INITIAL_CHUNK_SIZE,
    MIN_CHUNK_SIZE,
};

#[test]
fn fresh_transfer_starts_at_zero() {
    let t = Transfer::new(10 * MIN_CHUNK_SIZE);
    assert_eq!(t.offset, 0);
    assert_eq!(t.chunk, INITIAL_CHUNK_SIZE);
    assert_eq!(t.total, 10 * MIN_CHUNK_SIZE);
    assert!(!t.done());
}

#[test]
fn next_range_is_clamped_to_the_end() {
    let t = Transfer::new(5);
    // Far less than one chunk remains: the range covers exactly the rest.
    assert_eq!(t.next_range(), (0, 4));

    let big = Transfer::new(100 * MIN_CHUNK_SIZE);
    assert_eq!(big.next_range(), (0, INITIAL_CHUNK_SIZE - 1));
}

#[test]
fn chunk_doubles_when_throughput_holds() {
    let mut t = Transfer::new(100 * INITIAL_CHUNK_SIZE);
    // The first round always counts as not-worse (nothing preceded it).
    t.step(INITIAL_CHUNK_SIZE, 1_000_000);
    assert_eq!(t.offset, INITIAL_CHUNK_SIZE);
    assert_eq!(t.chunk, 2 * INITIAL_CHUNK_SIZE);

    // Same bytes in half the time: faster again, doubles again.
    t.step(2 * INITIAL_CHUNK_SIZE, 1_000_000);
    assert_eq!(t.chunk, 4 * INITIAL_CHUNK_SIZE);
}

#[test]
fn chunk_halves_when_throughput_drops_and_is_clamped() {
    let mut t = Transfer::new(100 * INITIAL_CHUNK_SIZE);
    t.step(INITIAL_CHUNK_SIZE, 1_000_000); // doubles to 2 * INITIAL
    // Far slower round: halves.
    t.step(1, 1_000_000_000);
    assert_eq!(t.chunk, INITIAL_CHUNK_SIZE);
    // Slower yet: halves to the minimum.
    t.step(1, u64::MAX);
    assert_eq!(t.chunk, MIN_CHUNK_SIZE);
    // Cannot shrink below the minimum.
    t.step(0, u64::MAX);
    assert_eq!(t.chunk, MIN_CHUNK_SIZE);
}

#[test]
fn transfer_finishes_after_covering_the_total() {
    let total = INITIAL_CHUNK_SIZE + 5;
    let mut t = Transfer::new(total);
    let (start, end) = t.next_range();
    assert_eq!((start, end), (0, INITIAL_CHUNK_SIZE - 1));
    t.step(end - start + 1, 1_000);
    assert!(!t.done());
    let (start, end) = t.next_range();
    assert_eq!((start, end), (INITIAL_CHUNK_SIZE, total - 1));
    t.step(end - start + 1, 1_000);
    assert!(t.done());
}

#[test]
fn decimal_rendering() {
    assert_eq!(u64_to_decimal(0), "0");
    assert_eq!(u64_to_decimal(7), "7");
    assert_eq!(u64_to_decimal(10), "10");
    assert_eq!(u64_to_decimal(1_048_576), "1048576");
    assert_eq!(u64_to_decimal(u64::MAX), format!("{}", u64::MAX));
}

#[test]
fn range_header_names_both_ends() {
    assert_eq!(range_header_value(0, 1023), "bytes=0-1023");
    assert_eq!(
        range_header_value(2097152, 4194303),
        "bytes=2097152-4194303"
    );
}

#[test]
fn throughput_comparison_is_exact() {
    // 10 bytes / 3 ns vs 3 bytes / 1 ns: 10/3 >= 3 is true.
    assert!(throughput_at_least(10, 3, 3, 1));
    // 9 bytes / 3 ns vs 10 bytes / 3 ns: slower.
    assert!(!throughput_at_least(9, 3, 10, 3));
    // Equal throughput counts as not worse.
    assert!(throughput_at_least(4, 2, 2, 1));
    // A zero elapsed time counts as infinitely fast.
    assert!(throughput_at_least(1, 0, u64::MAX, 1));
}
