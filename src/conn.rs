//! The part of a connection's lock-protected state that stream handles consult
//! and update: the terminal error, the 0-RTT verdict, the two wakeup maps and
//! the signal to the connection driver.
use std::collections::HashMap;
use vstd::prelude::*;

use crate::error::ConnectionError;
use crate::StreamId;

verus! {

broadcast use vstd::std_specs::hash::group_hash_axioms;

/// Outcome of one step of a pollable operation.
#[derive(Debug, PartialEq, Eq)]
pub enum Poll<T> {
    /// The operation resolved with this value.
    Ready(T),
    /// The operation cannot progress yet; a wakeup has been registered.
    Pending,
}

/// Mathematical model of [`ConnState`]. Wakeup maps go from a stream's raw
/// identifier to the token of the last party that asked to be woken.
pub struct ConnModel {
    pub error: Option<ConnectionError>,
    pub zero_rtt_rejected: bool,
    pub blocked_writers: Map<u64, u64>,
    pub stopped: Map<u64, u64>,
    pub wake_pending: bool,
}

impl ConnModel {
    /// The same state with the driver signalled.
    pub open spec fn woken(self) -> ConnModel {
        ConnModel { wake_pending: true, ..self }
    }

    /// The same state with `token` as the blocked writer of stream `id`.
    pub open spec fn with_blocked_writer(self, id: u64, token: u64) -> ConnModel {
        ConnModel { blocked_writers: self.blocked_writers.insert(id, token), ..self }
    }

    /// The same state with `token` as the stop watcher of stream `id`.
    pub open spec fn with_stop_watcher(self, id: u64, token: u64) -> ConnModel {
        ConnModel { stopped: self.stopped.insert(id, token), ..self }
    }

    /// The same state with no wakeup registered for stream `id`.
    pub open spec fn released(self, id: u64) -> ConnModel {
        ConnModel {
            blocked_writers: self.blocked_writers.remove(id),
            stopped: self.stopped.remove(id),
            ..self
        }
    }
}

/// Shared connection state as seen by the streams of one connection.
pub struct ConnState {
    error: Option<ConnectionError>,
    zero_rtt_rejected: bool,
    blocked_writers: HashMap<u64, u64>,
    stopped: HashMap<u64, u64>,
    wake_pending: bool,
}

impl View for ConnState {
    type V = ConnModel;

    closed spec fn view(&self) -> ConnModel {
        ConnModel {
            error: self.error,
            zero_rtt_rejected: self.zero_rtt_rejected,
            blocked_writers: self.blocked_writers@,
            stopped: self.stopped@,
            wake_pending: self.wake_pending,
        }
    }
}

impl ConnState {
    /// A live connection: no error, 0-RTT not rejected, nothing registered, no signal.
    pub fn new() -> (r: ConnState)
        ensures
            r@ == (ConnModel {
                error: None,
                zero_rtt_rejected: false,
                blocked_writers: Map::empty(),
                stopped: Map::empty(),
                wake_pending: false,
            }),
    {
        ConnState {
            error: None,
            zero_rtt_rejected: false,
            blocked_writers: HashMap::new(),
            stopped: HashMap::new(),
            wake_pending: false,
        }
    }

    /// The terminal error of the connection, if it has ended.
    pub fn error(&self) -> (r: Option<ConnectionError>)
        ensures
            r == self@.error,
    {
        self.error
    }

    /// Whether the peer rejected 0-RTT data.
    pub fn zero_rtt_rejected(&self) -> (r: bool)
        ensures
            r == self@.zero_rtt_rejected,
    {
        self.zero_rtt_rejected
    }

    /// Whether the driver has been signalled and has not yet taken the signal.
    pub fn wake_pending(&self) -> (r: bool)
        ensures
            r == self@.wake_pending,
    {
        self.wake_pending
    }

    /// Records the connection's terminal error; a first error is kept.
    pub fn set_error(&mut self, e: ConnectionError)
        ensures
            old(self)@.error is None ==> final(self)@ == (ConnModel { error: Some(e), ..old(self)@ }),
            old(self)@.error is Some ==> final(self)@ == old(self)@,
    {
        if self.error.is_none() {
            self.error = Some(e);
        }
    }

    /// Records that the peer rejected 0-RTT data.
    pub fn reject_0rtt(&mut self)
        ensures
            final(self)@ == (ConnModel { zero_rtt_rejected: true, ..old(self)@ }),
    {
        self.zero_rtt_rejected = true;
    }

    /// Signals the connection driver that there may be work to send.
    pub fn wake(&mut self)
        ensures
            final(self)@ == old(self)@.woken(),
    {
        self.wake_pending = true;
    }

    /// Takes the driver signal, leaving it cleared.
    pub fn take_wake(&mut self) -> (r: bool)
        ensures
            r == old(self)@.wake_pending,
            final(self)@ == (ConnModel { wake_pending: false, ..old(self)@ }),
    {
        let r = self.wake_pending;
        self.wake_pending = false;
        r
    }

    /// The token registered as blocked writer of stream `id`.
    pub fn blocked_writer(&self, id: StreamId) -> (r: Option<u64>)
        ensures
            self@.blocked_writers.contains_key(id.0) ==> r == Some(self@.blocked_writers[id.0]),
            !self@.blocked_writers.contains_key(id.0) ==> r is None,
    {
        match self.blocked_writers.get(&id.0) {
            Some(t) => Some(*t),
            None => None,
        }
    }

    /// The token registered as stop watcher of stream `id`.
    pub fn stop_watcher(&self, id: StreamId) -> (r: Option<u64>)
        ensures
            self@.stopped.contains_key(id.0) ==> r == Some(self@.stopped[id.0]),
            !self@.stopped.contains_key(id.0) ==> r is None,
    {
        match self.stopped.get(&id.0) {
            Some(t) => Some(*t),
            None => None,
        }
    }

    /// Takes the blocked writer of stream `id`, to wake it.
    pub fn take_blocked_writer(&mut self, id: StreamId) -> (r: Option<u64>)
        ensures
            old(self)@.blocked_writers.contains_key(id.0) ==> r == Some(
                old(self)@.blocked_writers[id.0],
            ),
            !old(self)@.blocked_writers.contains_key(id.0) ==> r is None,
            final(self)@ == (ConnModel {
                blocked_writers: old(self)@.blocked_writers.remove(id.0),
                ..old(self)@
            }),
    {
        self.blocked_writers.remove(&id.0)
    }

    /// Takes the stop watcher of stream `id`, to wake it.
    pub fn take_stop_watcher(&mut self, id: StreamId) -> (r: Option<u64>)
        ensures
            old(self)@.stopped.contains_key(id.0) ==> r == Some(old(self)@.stopped[id.0]),
            !old(self)@.stopped.contains_key(id.0) ==> r is None,
            final(self)@ == (ConnModel { stopped: old(self)@.stopped.remove(id.0), ..old(self)@ }),
    {
        self.stopped.remove(&id.0)
    }

    pub(crate) fn register_blocked_writer(&mut self, id: StreamId, token: u64)
        ensures
            final(self)@ == old(self)@.with_blocked_writer(id.0, token),
    {
        self.blocked_writers.insert(id.0, token);
    }

    pub(crate) fn register_stop_watcher(&mut self, id: StreamId, token: u64)
        ensures
            final(self)@ == old(self)@.with_stop_watcher(id.0, token),
    {
        self.stopped.insert(id.0, token);
    }

    pub(crate) fn release(&mut self, id: StreamId)
        ensures
            final(self)@ == old(self)@.released(id.0),
    {
        self.stopped.remove(&id.0);
        self.blocked_writers.remove(&id.0);
    }
}

} // verus!
