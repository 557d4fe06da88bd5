//! Properties that tie several operations together.
use vstd::prelude::*;

use crate::conn::ConnModel;
use crate::error::{ConnectionError, StoppedError, WriteError};
use crate::stream::{rejected, stop_gate, write_gate};

verus! {

/// Once a connection has ended with error `e`, every write-family step and
/// every stop-monitoring step of every handle that is not rejected early data
/// fails with `ConnectionLost(e)` before the protocol is consulted.
pub proof fn lemma_lost_connection_fails_every_step(is_0rtt: bool, c: ConnModel, e: ConnectionError)
    requires
        c.error == Some(e),
        !rejected(is_0rtt, c),
    ensures
        write_gate(is_0rtt, c) == Some(WriteError::ConnectionLost(e)),
        stop_gate(is_0rtt, c) == Some(StoppedError::ConnectionLost(e)),
{
}

/// The steps that leave a connection otherwise as it was, signal the driver or
/// register a wakeup all keep its terminal error: an ended connection stays
/// ended for every later step.
pub proof fn lemma_error_is_kept(c: ConnModel, id: u64, token: u64)
    ensures
        c.woken().error == c.error,
        c.with_blocked_writer(id, token).error == c.error,
        c.with_stop_watcher(id, token).error == c.error,
        c.released(id).error == c.error,
{
}

} // verus!
