//! The sending half of a multiplexed stream: the decisions a send-stream handle
//! makes against its connection's shared state, and the cursors of the
//! operations that write a whole buffer or a list of chunks.
use vstd::prelude::*;

pub mod conn;
pub mod error;
pub mod laws;
pub mod outcome;
pub mod stream;
pub mod write;

pub use conn::{ConnModel, ConnState, Poll};
pub use error::{ClosedStream, ConnectionError, StoppedError, VarInt, WriteError};
pub use outcome::{FinishError, StreamWriteError, Written};
pub use stream::{DropAction, SendStream};
pub use write::{WriteAll, WriteAllChunks, WriteChunk};

verus! {

/// Identifier of a stream within its connection.
#[derive(Clone, Copy, Debug, PartialEq, Eq, Structural)]
pub struct StreamId(pub u64);

impl StreamId {
    /// The raw identifier.
    pub fn index(&self) -> (r: u64)
        ensures
            r == self.0,
    {
        self.0
    }
}

} // verus!
