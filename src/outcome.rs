//! What the per-connection protocol state machine answers when this layer
//! asks it to act on one stream.
use vstd::prelude::*;

use crate::error::VarInt;

verus! {

/// Why the protocol state machine did not accept a write.
#[derive(Clone, Copy, Debug, PartialEq, Eq, Structural)]
pub enum StreamWriteError {
    /// Flow or congestion control leaves no room now; retry once woken.
    Blocked,
    /// The peer stopped the stream, with its error code.
    Stopped(VarInt),
    /// The stream was already finished or reset.
    ClosedStream,
}

/// Why the protocol state machine did not finish a stream.
#[derive(Clone, Copy, Debug, PartialEq, Eq, Structural)]
pub enum FinishError {
    /// The peer stopped the stream, with its error code.
    Stopped(VarInt),
    /// The stream was already finished or reset.
    ClosedStream,
}

/// Progress of a chunked write: `chunks` whole chunks were consumed, and then
/// `bytes` counts every byte consumed, those of a partly written next chunk included.
#[derive(Clone, Copy, Debug, PartialEq, Eq, Structural)]
pub struct Written {
    pub bytes: usize,
    pub chunks: usize,
}

} // verus!
