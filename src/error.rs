//! Error codes and the error values surfaced by stream operations.
use vstd::prelude::*;

verus! {

/// An application error code, as carried on the wire (a 62-bit variable-length integer).
#[derive(Clone, Copy, Debug, PartialEq, Eq, Structural)]
pub struct VarInt(u64);

/// The largest value a `VarInt` can carry.
pub const VARINT_MAX: u64 = 0x3fff_ffff_ffff_ffff;

impl VarInt {
    /// The value of the code.
    pub closed spec fn spec_value(self) -> u64 {
        self.0
    }

    /// A code from a 32-bit value, which always fits.
    pub fn from_u32(x: u32) -> (r: VarInt)
        ensures
            r.spec_value() == x as u64,
    {
        VarInt(x as u64)
    }

    /// A code from a 64-bit value, `None` when it does not fit in 62 bits.
    pub fn from_u64(x: u64) -> (r: Option<VarInt>)
        ensures
            x <= VARINT_MAX ==> (r matches Some(v) && v.spec_value() == x),
            x > VARINT_MAX ==> r is None,
    {
        if x <= VARINT_MAX {
            Some(VarInt(x))
        } else {
            None
        }
    }

    /// The value of the code.
    pub fn into_inner(self) -> (r: u64)
        ensures
            r == self.spec_value(),
    {
        self.0
    }
}

/// Why a connection ended; once set on a connection it is final.
#[derive(Clone, Copy, Debug, PartialEq, Eq, Structural)]
pub enum ConnectionError {
    /// The peer does not speak a protocol version this endpoint supports.
    VersionMismatch,
    /// A transport-level protocol violation, with its transport error code.
    TransportError(u64),
    /// The peer closed the connection at the transport level, with its error code.
    ConnectionClosed(u64),
    /// The peer's application closed the connection, with its error code.
    ApplicationClosed(VarInt),
    /// The peer reset the connection statelessly.
    Reset,
    /// The peer stopped answering.
    TimedOut,
    /// This endpoint closed the connection.
    LocallyClosed,
    /// No connection identifiers were left to use.
    CidsExhausted,
}

/// The stream was already finished or reset.
#[derive(Clone, Copy, Debug, PartialEq, Eq, Structural)]
pub struct ClosedStream;

impl ClosedStream {
    pub fn new() -> (r: ClosedStream)
        ensures
            r == ClosedStream,
    {
        ClosedStream
    }
}

/// Errors that arise from writing to a stream.
#[derive(Clone, Copy, Debug, PartialEq, Eq, Structural)]
pub enum WriteError {
    /// The peer is no longer accepting data on this stream, with its error code.
    Stopped(VarInt),
    /// The connection was lost.
    ConnectionLost(ConnectionError),
    /// The stream has already been finished or reset.
    ClosedStream,
    /// This was a 0-RTT stream and the peer rejected 0-RTT.
    ZeroRttRejected,
}

/// Errors that arise while waiting for the peer to stop a stream.
#[derive(Clone, Copy, Debug, PartialEq, Eq, Structural)]
pub enum StoppedError {
    /// The connection was lost.
    ConnectionLost(ConnectionError),
    /// This was a 0-RTT stream and the peer rejected 0-RTT.
    ZeroRttRejected,
}

impl From<ClosedStream> for WriteError {
    fn from(x: ClosedStream) -> (r: WriteError)
        ensures
            r == WriteError::ClosedStream,
    {
        WriteError::ClosedStream
    }
}

impl vstd::std_specs::convert::FromSpecImpl<ClosedStream> for WriteError {
    open spec fn obeys_from_spec() -> bool {
        true
    }

    open spec fn from_spec(x: ClosedStream) -> WriteError {
        WriteError::ClosedStream
    }
}

/// The write error that carries the same cause as a stop-monitoring error.
pub open spec fn write_error_of(x: StoppedError) -> WriteError {
    match x {
        StoppedError::ConnectionLost(e) => WriteError::ConnectionLost(e),
        StoppedError::ZeroRttRejected => WriteError::ZeroRttRejected,
    }
}

impl From<StoppedError> for WriteError {
    fn from(x: StoppedError) -> (r: WriteError)
        ensures
            r == write_error_of(x),
    {
        match x {
            StoppedError::ConnectionLost(e) => WriteError::ConnectionLost(e),
            StoppedError::ZeroRttRejected => WriteError::ZeroRttRejected,
        }
    }
}

impl vstd::std_specs::convert::FromSpecImpl<StoppedError> for WriteError {
    open spec fn obeys_from_spec() -> bool {
        true
    }

    open spec fn from_spec(x: StoppedError) -> WriteError {
        write_error_of(x)
    }
}

} // verus!
