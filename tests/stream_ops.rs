use send_stream::{
    ClosedStream, ConnState, ConnectionError, DropAction, FinishError, Poll, SendStream,
    StoppedError, StreamId, StreamWriteError, VarInt, WriteError, Written,
};

fn live() -> ConnState {
    ConnState::new()
}

#[test]
fn single_write_reports_accepted_prefix() {
    let mut conn = live();
    let s = SendStream::new(StreamId(4), false);
    let r = s.poll_write(&mut conn, 1, 10, Ok(3));
    assert_eq!(r, Poll::Ready(Ok(3)));
    assert!(conn.wake_pending());
    assert_eq!(conn.blocked_writer(StreamId(4)), None);
}

#[test]
fn single_write_of_empty_buffer_is_zero() {
    let mut conn = live();
    let s = SendStream::new(StreamId(4), false);
    assert_eq!(s.poll_write(&mut conn, 1, 0, Ok(0)), Poll::Ready(Ok(0)));
}

#[test]
fn single_write_of_nothing_stays_pending() {
    let mut conn = live();
    let s = SendStream::new(StreamId(4), false);
    assert_eq!(s.poll_write(&mut conn, 9, 5, Ok(0)), Poll::Pending);
    assert_eq!(conn.blocked_writer(StreamId(4)), Some(9));
    assert!(!conn.wake_pending());
}

#[test]
fn blocked_write_registers_latest_waker() {
    let mut conn = live();
    let s = SendStream::new(StreamId(8), false);
    assert_eq!(s.poll_write(&mut conn, 1, 5, Err(StreamWriteError::Blocked)), Poll::Pending);
    assert_eq!(s.poll_write(&mut conn, 2, 5, Err(StreamWriteError::Blocked)), Poll::Pending);
    assert_eq!(conn.blocked_writer(StreamId(8)), Some(2));
    assert_eq!(conn.take_blocked_writer(StreamId(8)), Some(2));
    assert_eq!(conn.blocked_writer(StreamId(8)), None);
}

#[test]
fn write_errors_are_translated() {
    let mut conn = live();
    let s = SendStream::new(StreamId(0), false);
    let code = VarInt::from_u32(7);
    assert_eq!(
        s.poll_write(&mut conn, 1, 5, Err(StreamWriteError::Stopped(code))),
        Poll::Ready(Err(WriteError::Stopped(code)))
    );
    assert_eq!(
        s.poll_write(&mut conn, 1, 5, Err(StreamWriteError::ClosedStream)),
        Poll::Ready(Err(WriteError::ClosedStream))
    );
    assert!(!conn.wake_pending());
}

#[test]
fn rejected_early_data_fails_writes() {
    let mut conn = live();
    conn.reject_0rtt();
    conn.set_error(ConnectionError::TimedOut);
    let s = SendStream::new(StreamId(0), true);
    assert_eq!(s.check_writable(&conn), Err(WriteError::ZeroRttRejected));
    assert_eq!(
        s.poll_write(&mut conn, 1, 5, Ok(5)),
        Poll::Ready(Err(WriteError::ZeroRttRejected))
    );
    assert!(!conn.wake_pending());
}

#[test]
fn lost_connection_fails_every_stream() {
    let mut conn = live();
    conn.set_error(ConnectionError::ApplicationClosed(VarInt::from_u32(3)));
    conn.set_error(ConnectionError::Reset);
    let lost = ConnectionError::ApplicationClosed(VarInt::from_u32(3));
    let a = SendStream::new(StreamId(0), false);
    let b = SendStream::new(StreamId(4), true);
    assert_eq!(a.poll_write(&mut conn, 1, 5, Ok(5)), Poll::Ready(Err(WriteError::ConnectionLost(lost))));
    assert_eq!(
        b.execute_poll(&mut conn, 1, Err::<Written, _>(StreamWriteError::Blocked)),
        Poll::Ready(Err(WriteError::ConnectionLost(lost)))
    );
    assert_eq!(a.poll_stopped(&mut conn, 1, Ok(None)), Poll::Ready(Err(StoppedError::ConnectionLost(lost))));
    assert_eq!(conn.blocked_writer(StreamId(4)), None);
    assert_eq!(conn.stop_watcher(StreamId(0)), None);
    assert!(!conn.wake_pending());
}

#[test]
fn finish_outcomes() {
    let mut conn = live();
    let s = SendStream::new(StreamId(0), false);
    assert_eq!(s.finish(&mut conn, Err(FinishError::Stopped(VarInt::from_u32(1)))), Ok(()));
    assert!(!conn.wake_pending());
    assert_eq!(s.finish(&mut conn, Ok(())), Ok(()));
    assert!(conn.take_wake());
    assert_eq!(s.finish(&mut conn, Err(FinishError::ClosedStream)), Err(ClosedStream));
    assert!(!conn.wake_pending());
}

#[test]
fn finish_or_reset_twice_is_closed_stream() {
    let mut conn = live();
    let s = SendStream::new(StreamId(0), false);
    assert_eq!(s.reset(&mut conn, Ok(())), Ok(()));
    assert!(conn.take_wake());
    assert_eq!(s.reset(&mut conn, Err(ClosedStream)), Err(ClosedStream));
    assert_eq!(s.finish(&mut conn, Err(FinishError::ClosedStream)), Err(ClosedStream));
    assert!(!conn.wake_pending());
}

#[test]
fn reset_of_rejected_early_data_is_trivial() {
    let mut conn = live();
    conn.reject_0rtt();
    let s = SendStream::new(StreamId(0), true);
    assert!(s.reset_is_moot(&conn));
    assert_eq!(s.reset(&mut conn, Err(ClosedStream)), Ok(()));
    assert!(!conn.wake_pending());
    let t = SendStream::new(StreamId(4), false);
    assert!(!t.reset_is_moot(&conn));
}

#[test]
fn stop_monitoring_outcomes() {
    let mut conn = live();
    let s = SendStream::new(StreamId(12), false);
    assert_eq!(s.poll_stopped(&mut conn, 5, Ok(None)), Poll::Pending);
    assert_eq!(conn.stop_watcher(StreamId(12)), Some(5));
    let code = VarInt::from_u32(42);
    assert_eq!(s.poll_stopped(&mut conn, 5, Ok(Some(code))), Poll::Ready(Ok(Some(code))));
    assert_eq!(s.poll_stopped(&mut conn, 5, Err(ClosedStream)), Poll::Ready(Ok(None)));
    assert_eq!(conn.take_stop_watcher(StreamId(12)), Some(5));
}

#[test]
fn stop_monitoring_of_rejected_early_data() {
    let mut conn = live();
    conn.reject_0rtt();
    let s = SendStream::new(StreamId(12), true);
    assert_eq!(s.check_stoppable(&conn), Err(StoppedError::ZeroRttRejected));
    assert_eq!(s.poll_stopped(&mut conn, 5, Ok(None)), Poll::Ready(Err(StoppedError::ZeroRttRejected)));
}

#[test]
fn drop_finishes_implicitly() {
    let mut conn = live();
    let s = SendStream::new(StreamId(4), false);
    assert_eq!(s.poll_write(&mut conn, 1, 5, Err(StreamWriteError::Blocked)), Poll::Pending);
    assert_eq!(s.poll_stopped(&mut conn, 2, Ok(None)), Poll::Pending);
    let other = SendStream::new(StreamId(8), false);
    assert_eq!(other.poll_stopped(&mut conn, 3, Ok(None)), Poll::Pending);
    assert_eq!(s.begin_drop(&mut conn), DropAction::Finish);
    assert_eq!(conn.blocked_writer(StreamId(4)), None);
    assert_eq!(conn.stop_watcher(StreamId(4)), None);
    assert_eq!(conn.stop_watcher(StreamId(8)), Some(3));
    assert_eq!(s.drop_finished(&mut conn, Ok(())), DropAction::Done);
    assert!(conn.wake_pending());
}

#[test]
fn drop_after_peer_stop_resets_with_its_code() {
    let mut conn = live();
    let s = SendStream::new(StreamId(4), false);
    let e = VarInt::from_u32(99);
    assert_eq!(s.begin_drop(&mut conn), DropAction::Finish);
    assert_eq!(s.drop_finished(&mut conn, Err(FinishError::Stopped(e))), DropAction::Reset(e));
    assert!(!conn.wake_pending());
    assert_eq!(s.drop_reset(&mut conn, Ok(())), DropAction::Done);
    assert!(conn.wake_pending());
}

#[test]
fn drop_of_closed_stream_does_nothing() {
    let mut conn = live();
    let s = SendStream::new(StreamId(4), false);
    assert_eq!(s.drop_finished(&mut conn, Err(FinishError::ClosedStream)), DropAction::Done);
    assert_eq!(s.drop_reset(&mut conn, Err(ClosedStream)), DropAction::Done);
    assert!(!conn.wake_pending());
}

#[test]
fn drop_on_lost_connection_only_cleans_up() {
    let mut conn = live();
    let s = SendStream::new(StreamId(4), false);
    assert_eq!(s.poll_stopped(&mut conn, 2, Ok(None)), Poll::Pending);
    conn.set_error(ConnectionError::LocallyClosed);
    assert_eq!(s.begin_drop(&mut conn), DropAction::Done);
    assert_eq!(conn.stop_watcher(StreamId(4)), None);
    let mut conn2 = live();
    conn2.reject_0rtt();
    let t = SendStream::new(StreamId(0), true);
    assert_eq!(t.begin_drop(&mut conn2), DropAction::Done);
}

#[test]
fn error_conversions() {
    assert_eq!(WriteError::from(ClosedStream::new()), WriteError::ClosedStream);
    assert_eq!(WriteError::from(StoppedError::ZeroRttRejected), WriteError::ZeroRttRejected);
    assert_eq!(
        WriteError::from(StoppedError::ConnectionLost(ConnectionError::TimedOut)),
        WriteError::ConnectionLost(ConnectionError::TimedOut)
    );
    assert_eq!(VarInt::from_u64(1 << 62), None);
    assert_eq!(VarInt::from_u64((1 << 62) - 1).map(|v| v.into_inner()), Some((1 << 62) - 1));
}
