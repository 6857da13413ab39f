use wormhole_client::ChunkCursor;
use wormhole_client::FailureReason;
use wormhole_client::ReadStart;
use wormhole_client::adapter::copy_range;
use wormhole_client::read_all;
use wormhole_client::read_all_with_retries;

fn complete(cursor: &mut ChunkCursor, source: &Vec<u8>, start: u64, end: u64, out: &mut Vec<u8>) -> usize {
    let fetched = copy_range(source, start, end);
    cursor.complete_read(&fetched, out)
}

#[test]
fn reads_of_size_four_over_ten_bytes() {
    // A 10-byte source read with a 4-byte buffer yields reads of
    // sizes 4, 4, 2, and then 0 at end of stream.
    let source: Vec<u8> = (0u8..10u8).collect();
    let mut cursor = ChunkCursor::new(10);
    let mut out: Vec<u8> = Vec::new();

    assert_eq!(cursor.begin_read(4), Ok(ReadStart::Fetch { start: 0, end: 4 }));
    assert_eq!(complete(&mut cursor, &source, 0, 4, &mut out), 4);

    assert_eq!(cursor.begin_read(4), Ok(ReadStart::Fetch { start: 4, end: 8 }));
    assert_eq!(complete(&mut cursor, &source, 4, 8, &mut out), 4);

    assert_eq!(cursor.begin_read(4), Ok(ReadStart::Fetch { start: 8, end: 10 }));
    assert_eq!(complete(&mut cursor, &source, 8, 10, &mut out), 2);

    assert_eq!(cursor.begin_read(4), Ok(ReadStart::Eof));
    assert_eq!(out, source);
}

#[test]
fn empty_source_returns_zero_without_fetch() {
    // A 0-byte source: the first read completes at once with zero
    // bytes and no fetch is issued.
    let mut cursor = ChunkCursor::new(0);
    assert_eq!(cursor.begin_read(4), Ok(ReadStart::Eof));
    assert!(!cursor.is_pending());
    assert_eq!(cursor.offset(), 0);
}

#[test]
fn eof_is_idempotent() {
    let source: Vec<u8> = vec![7, 8];
    let mut cursor = ChunkCursor::new(2);
    let mut out: Vec<u8> = Vec::new();
    assert_eq!(cursor.begin_read(8), Ok(ReadStart::Fetch { start: 0, end: 2 }));
    complete(&mut cursor, &source, 0, 2, &mut out);
    for _ in 0..3 {
        assert_eq!(cursor.begin_read(8), Ok(ReadStart::Eof));
        assert!(!cursor.is_pending());
    }
    assert_eq!(out, source);
}

#[test]
fn second_read_while_pending_is_refused_and_changes_nothing() {
    let mut cursor = ChunkCursor::new(10);
    assert_eq!(cursor.begin_read(4), Ok(ReadStart::Fetch { start: 0, end: 4 }));
    assert!(cursor.is_pending());
    let before_offset = cursor.offset();

    assert_eq!(cursor.begin_read(4), Err(FailureReason::ConcurrentReadError));
    assert_eq!(cursor.offset(), before_offset);
    assert!(cursor.is_pending());

    // The original read can still resume and complete.
    let source: Vec<u8> = (10u8..20u8).collect();
    let mut out: Vec<u8> = Vec::new();
    assert_eq!(complete(&mut cursor, &source, 0, 4, &mut out), 4);
    assert_eq!(out, vec![10, 11, 12, 13]);
}

#[test]
fn failed_fetch_keeps_cursor_and_retry_resumes_at_same_offset() {
    let source: Vec<u8> = (0u8..6u8).collect();
    let mut cursor = ChunkCursor::new(6);
    let mut out: Vec<u8> = Vec::new();

    assert_eq!(cursor.begin_read(4), Ok(ReadStart::Fetch { start: 0, end: 4 }));
    assert_eq!(complete(&mut cursor, &source, 0, 4, &mut out), 4);
    assert_eq!(cursor.offset(), 4);

    // The next fetch fails: the cursor stays at 4 and no fetch is
    // left in flight.
    assert_eq!(cursor.begin_read(4), Ok(ReadStart::Fetch { start: 4, end: 6 }));
    assert_eq!(cursor.fail_read(), FailureReason::SourceReadError);
    assert_eq!(cursor.offset(), 4);
    assert!(!cursor.is_pending());

    // A retry fetches the same range: no byte skipped or duplicated.
    assert_eq!(cursor.begin_read(4), Ok(ReadStart::Fetch { start: 4, end: 6 }));
    assert_eq!(complete(&mut cursor, &source, 4, 6, &mut out), 2);
    assert_eq!(out, source);
    assert_eq!(cursor.begin_read(4), Ok(ReadStart::Eof));
}

#[test]
fn read_all_delivers_exactly_the_source() {
    let source: Vec<u8> = (0u8..=250u8).collect();
    for capacity in [1usize, 2, 3, 4, 7, 100, 251, 1000] {
        assert_eq!(read_all(&source, capacity), source);
    }
}

#[test]
fn read_all_with_retries_survives_any_failure_plan() {
    let source: Vec<u8> = (0u8..100u8).collect();
    let plans: [Vec<bool>; 4] = [
        vec![],
        vec![true],
        vec![true, true, false, true],
        vec![false, true, false, true, true, true, true],
    ];
    for plan in plans {
        for capacity in [1usize, 3, 7, 64, 200] {
            assert_eq!(read_all_with_retries(&source, capacity, &plan), source);
        }
    }
}

#[test]
fn read_all_of_empty_source_is_empty() {
    let source: Vec<u8> = Vec::new();
    assert_eq!(read_all(&source, 1), Vec::<u8>::new());
    assert_eq!(read_all(&source, 64), Vec::<u8>::new());
}

#[test]
fn copy_range_returns_the_requested_slice() {
    let source: Vec<u8> = vec![9, 8, 7, 6, 5];
    assert_eq!(copy_range(&source, 1, 4), vec![8, 7, 6]);
    assert_eq!(copy_range(&source, 0, 5), source);
    assert_eq!(copy_range(&source, 3, 3), Vec::<u8>::new());
}
