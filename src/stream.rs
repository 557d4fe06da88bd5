//! The send-stream handle and every decision it takes under the connection lock.
//!
//! Each operation takes the connection state and, where the protocol state
//! machine was consulted, what it answered; it returns the result for the
//! caller and leaves the connection state as the operation requires.
use vstd::prelude::*;

use crate::conn::{ConnModel, ConnState, Poll};
use crate::error::{ClosedStream, StoppedError, VarInt, WriteError};
use crate::outcome::{FinishError, StreamWriteError};
use crate::StreamId;

verus! {

/// A stream that can only be used to send data.
#[derive(Debug)]
pub struct SendStream {
    stream: StreamId,
    is_0rtt: bool,
}

/// What remains to do while a dropped handle is torn down.
#[derive(Clone, Copy, Debug, PartialEq, Eq, Structural)]
pub enum DropAction {
    /// Nothing more.
    Done,
    /// Finish the stream implicitly, then report the outcome.
    Finish,
    /// Reset the stream with this code, then report the outcome.
    Reset(VarInt),
}

/// Whether a handle opened as early data is shut out by the peer's 0-RTT verdict.
pub open spec fn rejected(is_0rtt: bool, c: ConnModel) -> bool {
    is_0rtt && c.zero_rtt_rejected
}

/// The error a write-family step fails with before consulting the protocol, if any.
pub open spec fn write_gate(is_0rtt: bool, c: ConnModel) -> Option<WriteError> {
    if rejected(is_0rtt, c) {
        Some(WriteError::ZeroRttRejected)
    } else if c.error is Some {
        Some(WriteError::ConnectionLost(c.error->0))
    } else {
        None
    }
}

/// The error stop monitoring fails with before consulting the protocol, if any.
pub open spec fn stop_gate(is_0rtt: bool, c: ConnModel) -> Option<StoppedError> {
    if rejected(is_0rtt, c) {
        Some(StoppedError::ZeroRttRejected)
    } else if c.error is Some {
        Some(StoppedError::ConnectionLost(c.error->0))
    } else {
        None
    }
}

/// Result and next connection state of one write-family step on stream `id`,
/// woken through `token`, once the early checks passed, for the protocol's answer.
pub open spec fn write_step<R>(
    c: ConnModel,
    id: u64,
    token: u64,
    outcome: Result<R, StreamWriteError>,
    r: Poll<Result<R, WriteError>>,
    next: ConnModel,
) -> bool {
    match outcome {
        Ok(v) => r == Poll::Ready(Ok::<R, WriteError>(v)) && next == c.woken(),
        Err(StreamWriteError::Blocked) => r is Pending && next == c.with_blocked_writer(id, token),
        Err(StreamWriteError::Stopped(code)) => r == Poll::Ready(Err::<R, WriteError>(
            WriteError::Stopped(code),
        )) && next == c,
        Err(StreamWriteError::ClosedStream) => r == Poll::Ready(Err::<R, WriteError>(
            WriteError::ClosedStream,
        )) && next == c,
    }
}

impl SendStream {
    pub closed spec fn spec_id(&self) -> StreamId {
        self.stream
    }

    pub closed spec fn spec_is_0rtt(&self) -> bool {
        self.is_0rtt
    }

    /// A handle for stream `stream`, opened as early data when `is_0rtt`.
    pub fn new(stream: StreamId, is_0rtt: bool) -> (r: SendStream)
        ensures
            r.spec_id() == stream,
            r.spec_is_0rtt() == is_0rtt,
    {
        SendStream { stream, is_0rtt }
    }

    /// The identity of this stream.
    pub fn id(&self) -> (r: StreamId)
        ensures
            r == self.spec_id(),
    {
        self.stream
    }

    /// Whether this stream was opened as early data.
    pub fn is_0rtt(&self) -> (r: bool)
        ensures
            r == self.spec_is_0rtt(),
    {
        self.is_0rtt
    }

    /// The error a write-family step fails with at once; `Ok` when the protocol
    /// state machine is to be consulted.
    pub fn check_writable(&self, conn: &ConnState) -> (r: Result<(), WriteError>)
        ensures
            match write_gate(self.spec_is_0rtt(), conn@) {
                Some(e) => r == Err::<(), WriteError>(e),
                None => r is Ok,
            },
    {
        if self.is_0rtt && conn.zero_rtt_rejected() {
            return Err(WriteError::ZeroRttRejected);
        }
        match conn.error() {
            Some(e) => Err(WriteError::ConnectionLost(e)),
            None => Ok(()),
        }
    }

    /// One step of a write-family operation. Fails at once on rejected early
    /// data or a lost connection, without looking at `outcome`; otherwise turns
    /// the protocol's answer into a result, registering `token` as the stream's
    /// blocked writer when the write would block and signalling the driver when
    /// it made progress.
    pub fn execute_poll<R>(
        &self,
        conn: &mut ConnState,
        token: u64,
        outcome: Result<R, StreamWriteError>,
    ) -> (r: Poll<Result<R, WriteError>>)
        ensures
            match write_gate(self.spec_is_0rtt(), old(conn)@) {
                Some(e) => r == Poll::Ready(Err::<R, WriteError>(e)) && final(conn)@ == old(conn)@,
                None => write_step(old(conn)@, self.spec_id().0, token, outcome, r, final(conn)@),
            },
    {
        if let Err(e) = self.check_writable(conn) {
            return Poll::Ready(Err(e));
        }
        match outcome {
            Ok(v) => {
                conn.wake();
                Poll::Ready(Ok(v))
            },
            Err(StreamWriteError::Blocked) => {
                conn.register_blocked_writer(self.stream, token);
                Poll::Pending
            },
            Err(StreamWriteError::Stopped(code)) => Poll::Ready(Err(WriteError::Stopped(code))),
            Err(StreamWriteError::ClosedStream) => Poll::Ready(Err(WriteError::ClosedStream)),
        }
    }

    /// One step of a single write of a `len`-byte buffer. A write that the
    /// protocol accepted with no byte of a non-empty buffer stays pending as a
    /// blocked write: a ready write reports progress, or an empty buffer.
    pub fn poll_write(
        &self,
        conn: &mut ConnState,
        token: u64,
        len: usize,
        outcome: Result<usize, StreamWriteError>,
    ) -> (r: Poll<Result<usize, WriteError>>)
        requires
            outcome matches Ok(n) ==> n <= len,
        ensures
            match write_gate(self.spec_is_0rtt(), old(conn)@) {
                Some(e) => r == Poll::Ready(Err::<usize, WriteError>(e)) && final(conn)@ == old(
                    conn,
                )@,
                None => if outcome == Ok::<usize, StreamWriteError>(0) && len > 0 {
                    r is Pending && final(conn)@ == old(conn)@.with_blocked_writer(
                        self.spec_id().0,
                        token,
                    )
                } else {
                    write_step(old(conn)@, self.spec_id().0, token, outcome, r, final(conn)@)
                },
            },
            r matches Poll::Ready(Ok(n)) ==> n <= len && (len > 0 ==> n > 0),
    {
        let outcome = match outcome {
            Ok(n) => if n == 0 && len > 0 {
                Err(StreamWriteError::Blocked)
            } else {
                Ok(n)
            },
            Err(e) => Err(e),
        };
        self.execute_poll(conn, token, outcome)
    }

    /// Tells the stream that no more data will be written, given what the
    /// protocol answered to `finish`. A stream the peer already stopped counts
    /// as finished; one already finished or reset gives `ClosedStream`, which is
    /// harmless. Success signals the driver.
    pub fn finish(&self, conn: &mut ConnState, outcome: Result<(), FinishError>) -> (r: Result<
        (),
        ClosedStream,
    >)
        ensures
            match outcome {
                Ok(()) => r is Ok && final(conn)@ == old(conn)@.woken(),
                Err(FinishError::Stopped(_)) => r is Ok && final(conn)@ == old(conn)@,
                Err(FinishError::ClosedStream) => r == Err::<(), ClosedStream>(ClosedStream)
                    && final(conn)@ == old(conn)@,
            },
    {
        match outcome {
            Ok(()) => {
                conn.wake();
                Ok(())
            },
            Err(FinishError::ClosedStream) => Err(ClosedStream::new()),
            Err(FinishError::Stopped(_)) => Ok(()),
        }
    }

    /// Whether a reset has nothing to do: early data the peer rejected never
    /// existed for it. The protocol is consulted only when this is `false`.
    pub fn reset_is_moot(&self, conn: &ConnState) -> (r: bool)
        ensures
            r == rejected(self.spec_is_0rtt(), conn@),
    {
        self.is_0rtt && conn.zero_rtt_rejected()
    }

    /// Abandons the stream, given what the protocol answered to `reset`. On
    /// rejected early data this succeeds without looking at `outcome`. Success
    /// after a protocol reset signals the driver.
    pub fn reset(&self, conn: &mut ConnState, outcome: Result<(), ClosedStream>) -> (r: Result<
        (),
        ClosedStream,
    >)
        ensures
            rejected(self.spec_is_0rtt(), old(conn)@) ==> r is Ok && final(conn)@ == old(conn)@,
            !rejected(self.spec_is_0rtt(), old(conn)@) ==> r == outcome && (if outcome is Ok {
                final(conn)@ == old(conn)@.woken()
            } else {
                final(conn)@ == old(conn)@
            }),
    {
        if self.reset_is_moot(conn) {
            return Ok(());
        }
        if outcome.is_ok() {
            conn.wake();
        }
        outcome
    }

    /// The error stop monitoring fails with at once; `Ok` when the protocol
    /// state machine is to be consulted.
    pub fn check_stoppable(&self, conn: &ConnState) -> (r: Result<(), StoppedError>)
        ensures
            match stop_gate(self.spec_is_0rtt(), conn@) {
                Some(e) => r == Err::<(), StoppedError>(e),
                None => r is Ok,
            },
    {
        if self.is_0rtt && conn.zero_rtt_rejected() {
            return Err(StoppedError::ZeroRttRejected);
        }
        match conn.error() {
            Some(e) => Err(StoppedError::ConnectionLost(e)),
            None => Ok(()),
        }
    }

    /// One step of waiting for the peer to stop the stream, given what the
    /// protocol answered to `stopped`: `Some(code)` once the peer stopped it,
    /// `None` once the stream is closed (finished and fully received, or reset),
    /// else pending with `token` registered as the stream's stop watcher.
    pub fn poll_stopped(
        &self,
        conn: &mut ConnState,
        token: u64,
        outcome: Result<Option<VarInt>, ClosedStream>,
    ) -> (r: Poll<Result<Option<VarInt>, StoppedError>>)
        ensures
            match stop_gate(self.spec_is_0rtt(), old(conn)@) {
                Some(e) => r == Poll::Ready(Err::<Option<VarInt>, StoppedError>(e))
                    && final(conn)@ == old(conn)@,
                None => match outcome {
                    Err(_) => r == Poll::Ready(Ok::<Option<VarInt>, StoppedError>(None))
                        && final(conn)@ == old(conn)@,
                    Ok(Some(code)) => r == Poll::Ready(
                        Ok::<Option<VarInt>, StoppedError>(Some(code)),
                    ) && final(conn)@ == old(conn)@,
                    Ok(None) => r is Pending && final(conn)@ == old(conn)@.with_stop_watcher(
                        self.spec_id().0,
                        token,
                    ),
                },
            },
    {
        if let Err(e) = self.check_stoppable(conn) {
            return Poll::Ready(Err(e));
        }
        match outcome {
            Err(_) => Poll::Ready(Ok(None)),
            Ok(Some(code)) => Poll::Ready(Ok(Some(code))),
            Ok(None) => {
                conn.register_stop_watcher(self.stream, token);
                Poll::Pending
            },
        }
    }

    /// First step of tearing down a dropped handle: removes every wakeup
    /// registered for the stream, then asks for an implicit finish unless the
    /// connection is lost or the stream is rejected early data.
    pub fn begin_drop(&self, conn: &mut ConnState) -> (r: DropAction)
        ensures
            final(conn)@ == old(conn)@.released(self.spec_id().0),
            !final(conn)@.blocked_writers.contains_key(self.spec_id().0),
            !final(conn)@.stopped.contains_key(self.spec_id().0),
            r == (if old(conn)@.error is Some || rejected(self.spec_is_0rtt(), old(conn)@) {
                DropAction::Done
            } else {
                DropAction::Finish
            }),
    {
        conn.release(self.stream);
        if conn.error().is_some() || (self.is_0rtt && conn.zero_rtt_rejected()) {
            DropAction::Done
        } else {
            DropAction::Finish
        }
    }

    /// Next step of tearing down a dropped handle, given what the protocol
    /// answered to the implicit finish: a stream the peer stopped is reset with
    /// the peer's code; a finished stream signals the driver.
    pub fn drop_finished(&self, conn: &mut ConnState, outcome: Result<(), FinishError>) -> (r:
        DropAction)
        ensures
            match outcome {
                Ok(()) => r == DropAction::Done && final(conn)@ == old(conn)@.woken(),
                Err(FinishError::Stopped(code)) => r == DropAction::Reset(code) && final(conn)@
                    == old(conn)@,
                Err(FinishError::ClosedStream) => r == DropAction::Done && final(conn)@ == old(
                    conn,
                )@,
            },
    {
        match outcome {
            Ok(()) => {
                conn.wake();
                DropAction::Done
            },
            Err(FinishError::Stopped(code)) => DropAction::Reset(code),
            Err(FinishError::ClosedStream) => DropAction::Done,
        }
    }

    /// Last step of tearing down a dropped handle, given what the protocol
    /// answered to the fallback reset; a reset stream signals the driver.
    pub fn drop_reset(&self, conn: &mut ConnState, outcome: Result<(), ClosedStream>) -> (r:
        DropAction)
        ensures
            r == DropAction::Done,
            outcome is Ok ==> final(conn)@ == old(conn)@.woken(),
            outcome is Err ==> final(conn)@ == old(conn)@,
    {
        if outcome.is_ok() {
            conn.wake();
        }
        DropAction::Done
    }
}

} // verus!
