use greedy_reader::reader::GreedyAccessReader;
use greedy_reader::source::{Error, MemSource};

#[test]
fn it_works() {
    assert_eq!(2 + 2, 4);
}

#[test]
fn lib_it_works() {
    assert_eq!(2 + 2, 4);
}

#[test]
fn fill_and_peek_serves_stream() {
    // Scenario: the source serves four bytes at once, then end-of-source.
    let source = MemSource::new(vec![1, 2, 3, 4], 4, 0);
    let mut reader = GreedyAccessReader::new(source);

    let pending = reader.fill_buf().unwrap().to_vec();
    assert_eq!(pending, vec![1, 2, 3, 4]);

    assert_eq!(reader.consume(4), Ok(()));

    let pending = reader.fill_buf().unwrap().to_vec();
    assert_eq!(pending, Vec::<u8>::new());
    assert_eq!(reader.len(), 4);
    assert_eq!(reader.consumed(), 4);
}

#[test]
fn failure_then_clean_retry() {
    // Scenario: the source fails on the first call, then serves normally.
    let source = MemSource::new(vec![1, 2, 3, 4], 4, 1);
    let mut reader = GreedyAccessReader::new(source);

    assert_eq!(reader.fill_buf().map(|s| s.to_vec()), Err(Error::SourceFailure));
    assert_eq!(reader.len(), 0);
    assert_eq!(reader.consumed(), 0);

    let pending = reader.fill_buf().unwrap().to_vec();
    assert_eq!(pending, vec![1, 2, 3, 4]);
}

#[test]
fn repeated_failures_then_data() {
    let source = MemSource::new(vec![9, 8], 2, 2);
    let mut reader = GreedyAccessReader::new(source);

    assert_eq!(reader.fill_buf().map(|s| s.to_vec()), Err(Error::SourceFailure));
    assert_eq!(reader.fill_buf().map(|s| s.to_vec()), Err(Error::SourceFailure));
    assert_eq!(reader.fill_buf().unwrap().to_vec(), vec![9, 8]);
}

#[test]
fn capacity_grows_by_increment_and_never_shrinks() {
    // Scenario: capacity growth.  Initial capacity 0, growth increment 16;
    // 20 bytes arrive in chunks of at most 7 across several fills.
    let data: Vec<u8> = (100..120).collect();
    let source = MemSource::new(data.clone(), 7, 0);
    let mut reader = GreedyAccessReader::new(source);
    assert_eq!(reader.capacity(), 0);

    let mut seen: Vec<u8> = Vec::new();
    let mut last_capacity = 0;
    let mut last_len = 0;
    loop {
        let pending = reader.fill_buf().unwrap().to_vec();
        assert!(reader.capacity() % 16 == 0);
        assert!(reader.capacity() >= last_capacity);
        assert!(reader.len() >= last_len);
        assert!(reader.consumed() <= reader.len());
        assert!(reader.len() <= reader.capacity());
        last_capacity = reader.capacity();
        last_len = reader.len();
        if pending.is_empty() {
            break;
        }
        seen.extend_from_slice(&pending);
        assert_eq!(reader.consume(pending.len()), Ok(()));
    }
    assert_eq!(seen, data);
    assert!(reader.capacity() >= 32);
    assert_eq!(reader.len(), 20);
}

#[test]
fn pending_matches_what_the_source_wrote() {
    let source = MemSource::new(vec![10, 11, 12, 13, 14, 15], 3, 0);
    let mut reader = GreedyAccessReader::new(source);

    let pending = reader.fill_buf().unwrap().to_vec();
    assert_eq!(pending, vec![10, 11, 12]);

    assert_eq!(reader.consume(2), Ok(()));

    let pending = reader.fill_buf().unwrap().to_vec();
    assert_eq!(pending, vec![12, 13, 14, 15]);
    assert_eq!(reader.len(), 6);
}

#[test]
fn consume_advances_cursor_only() {
    let source = MemSource::new(vec![1, 2, 3, 4, 5, 6], 6, 0);
    let mut reader = GreedyAccessReader::new(source);

    let first = reader.fill_buf().unwrap().to_vec();
    assert_eq!(first, vec![1, 2, 3, 4, 5, 6]);
    let len_before = reader.len();

    assert_eq!(reader.consume(2), Ok(()));
    assert_eq!(reader.len(), len_before);

    // The stream is exhausted, so the next fill adds nothing; the pending
    // region now starts two bytes past the old cursor.
    let pending = reader.fill_buf().unwrap().to_vec();
    assert_eq!(pending[0], first[2]);
    assert_eq!(pending, vec![3, 4, 5, 6]);
    assert_eq!(reader.len(), len_before);
}

#[test]
fn out_of_range_consume_is_rejected() {
    let source = MemSource::new(vec![1, 2, 3, 4], 4, 0);
    let mut reader = GreedyAccessReader::new(source);
    reader.fill_buf().unwrap();

    assert_eq!(reader.consume(5), Err(Error::OutOfRange));
    assert_eq!(reader.consumed(), 0);
    assert_eq!(reader.len(), 4);

    assert_eq!(reader.consume(4), Ok(()));
    assert_eq!(reader.consumed(), 4);
}

#[test]
fn source_with_no_data_right_now() {
    // A grant of zero models "no data available": fills succeed but add
    // nothing.
    let source = MemSource::new(vec![1, 2, 3], 0, 0);
    let mut reader = GreedyAccessReader::new(source);

    let pending = reader.fill_buf().unwrap().to_vec();
    assert!(pending.is_empty());
    assert_eq!(reader.len(), 0);
    assert_eq!(reader.capacity(), 16);
}

#[test]
fn empty_source_reports_empty_pending() {
    let source = MemSource::new(Vec::new(), 8, 0);
    let mut reader = GreedyAccessReader::new(source);

    let pending = reader.fill_buf().unwrap().to_vec();
    assert!(pending.is_empty());
    assert_eq!(reader.len(), 0);
    assert_eq!(reader.consumed(), 0);
    assert_eq!(reader.capacity(), 16);
}

#[test]
fn short_read_exposes_no_garbage() {
    // The source writes only two bytes into sixteen offered: the reader
    // exposes exactly those two, never the untouched remainder.
    let source = MemSource::new(vec![42, 43], 16, 0);
    let mut reader = GreedyAccessReader::new(source);

    let pending = reader.fill_buf().unwrap().to_vec();
    assert_eq!(pending, vec![42, 43]);
    assert_eq!(reader.len(), 2);
    assert_eq!(reader.capacity(), 16);
}

#[test]
fn with_capacity_starts_with_room() {
    let source = MemSource::new(vec![5, 6], 2, 0);
    let mut reader = GreedyAccessReader::with_capacity(source, 8);
    assert_eq!(reader.capacity(), 8);
    assert_eq!(reader.len(), 0);

    // The buffer is not saturated, so the first fill does not grow it.
    let pending = reader.fill_buf().unwrap().to_vec();
    assert_eq!(pending, vec![5, 6]);
    assert_eq!(reader.capacity(), 8);
}

#[test]
fn invariant_holds_across_operations() {
    let source = MemSource::new((0..40).collect(), 9, 1);
    let mut reader = GreedyAccessReader::new(source);
    for step in 0..12 {
        let _ = reader.fill_buf();
        assert!(reader.consumed() <= reader.len());
        assert!(reader.len() <= reader.capacity());
        if step % 2 == 0 {
            let pending = reader.len() - reader.consumed();
            let _ = reader.consume(pending / 2 + 1);
            assert!(reader.consumed() <= reader.len());
            assert!(reader.len() <= reader.capacity());
        }
    }
}

#[test]
fn smoke_entry_points() {
    assert!(greedy_reader::t());
    assert_eq!(greedy_reader::demo(), vec![1, 2, 3, 4]);
}
