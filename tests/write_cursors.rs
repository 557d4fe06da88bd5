use send_stream::{Poll, WriteAll, WriteAllChunks, WriteChunk, WriteError, Written};

#[test]
fn write_all_completes_at_end_of_buffer() {
    let mut c = WriteAll::new(10);
    assert!(!c.is_done());
    assert_eq!(c.advance(Poll::Ready(Ok(4))), None);
    assert_eq!(c.offset(), 4);
    assert_eq!(c.advance(Poll::Pending), Some(Poll::Pending));
    assert_eq!(c.offset(), 4);
    assert_eq!(c.advance(Poll::Ready(Ok(6))), Some(Poll::Ready(Ok(()))));
    assert!(c.is_done());
}

#[test]
fn write_all_of_empty_buffer_is_done_at_once() {
    assert!(WriteAll::new(0).is_done());
}

#[test]
fn write_all_propagates_first_error() {
    let mut c = WriteAll::new(10);
    assert_eq!(c.advance(Poll::Ready(Ok(3))), None);
    assert_eq!(
        c.advance(Poll::Ready(Err(WriteError::ClosedStream))),
        Some(Poll::Ready(Err(WriteError::ClosedStream)))
    );
    assert_eq!(c.offset(), 3);
}

#[test]
fn write_chunk_counts_down() {
    let mut c = WriteChunk::new(8);
    assert_eq!(c.advance(Poll::Ready(Ok(Written { bytes: 5, chunks: 0 }))), None);
    assert_eq!(c.remaining(), 3);
    assert_eq!(
        c.advance(Poll::Ready(Ok(Written { bytes: 3, chunks: 1 }))),
        Some(Poll::Ready(Ok(())))
    );
    assert!(c.is_done());
}

#[test]
fn write_all_chunks_accounts_every_byte() {
    let mut c = WriteAllChunks::new(vec![3, 4, 5]);
    let first = Written { bytes: 5, chunks: 1 };
    assert!(c.accepts(first));
    assert!(!c.accepts(Written { bytes: 8, chunks: 1 }));
    assert!(!c.accepts(Written { bytes: 2, chunks: 1 }));
    assert!(!c.accepts(Written { bytes: 12, chunks: 4 }));
    assert_eq!(c.advance(Poll::Ready(Ok(first))), None);
    assert_eq!(c.offset(), 1);
    assert_eq!(c.remaining(0), 0);
    assert_eq!(c.remaining(1), 2);
    assert_eq!(c.remaining(2), 5);
    let rest = Written { bytes: 7, chunks: 2 };
    assert!(c.accepts(rest));
    assert_eq!(c.advance(Poll::Ready(Ok(rest))), Some(Poll::Ready(Ok(()))));
    assert!(c.is_done());
    // 5 + 7 bytes reported over the two steps: the 3 + 4 + 5 bytes of the chunks.
}

#[test]
fn write_all_chunks_stops_on_error() {
    let mut c = WriteAllChunks::new(vec![3]);
    assert_eq!(
        c.advance(Poll::Ready(Err(WriteError::ZeroRttRejected))),
        Some(Poll::Ready(Err(WriteError::ZeroRttRejected)))
    );
    assert_eq!(c.offset(), 0);
    assert!(WriteAllChunks::new(vec![]).is_done());
}
