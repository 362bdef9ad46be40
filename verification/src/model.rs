//! The mathematical model of a connection: its state as plain values, and
//! every step as a function from state to state and to what the step hands
//! back.

use vstd::prelude::*;
use crate::outcome::ConnState;
use crate::outcome::ReadOutcomeView;
use crate::outcome::RecvOutcome;
use crate::outcome::Release;
use crate::outcome::TeardownAction;
use crate::status::status_result;
use crate::status::ErrorKind;
use crate::status::ERR_OK;

verus! {

/// The state of a connection.
pub struct ConnectionView<H, W> {
    /// The engine's native handle.
    pub pcb: H,
    pub release: Release,
    /// Inbound bytes that no read has taken yet, oldest first.
    pub unread: Seq<u8>,
    /// The most that `unread` may hold.
    pub capacity: nat,
    /// The waiter of the task that reads, if one is registered.
    pub recv_waker: Option<W>,
    /// The waiter of the task that writes, if one is registered.
    pub write_waker: Option<W>,
    pub met_eof: bool,
    pub reset_by_peer: bool,
}

impl<H, W> ConnectionView<H, W> {
    /// The bound that every connection keeps: no more unread bytes than the
    /// capacity allows.
    pub open spec fn wf(self) -> bool {
        self.unread.len() <= self.capacity
    }

    /// A connection as it is right after the engine accepted it.
    pub open spec fn fresh(pcb: H, capacity: nat) -> Self {
        ConnectionView {
            pcb,
            release: Release::Held,
            unread: Seq::empty(),
            capacity,
            recv_waker: None,
            write_waker: None,
            met_eof: false,
            reset_by_peer: false,
        }
    }

    pub open spec fn state(self) -> ConnState {
        if self.release is Aborted {
            ConnState::Aborted
        } else if self.reset_by_peer {
            ConnState::Reset
        } else if self.release is Closed {
            ConnState::Closed
        } else if self.met_eof {
            ConnState::HalfClosedRemote
        } else {
            ConnState::Open
        }
    }

    /// Whether `count` more bytes fit into the accumulation buffer.
    pub open spec fn has_room(self, count: nat) -> bool {
        self.unread.len() + count <= self.capacity
    }

    /// The state after the engine delivered `data` (`None` for the end of
    /// the stream) together with `status`.
    pub open spec fn after_recv(self, status: i8, data: Option<Seq<u8>>) -> Self {
        if status != ERR_OK {
            self
        } else {
            match data {
                None => ConnectionView { met_eof: true, ..self },
                Some(bytes) => if self.has_room(bytes.len()) {
                    ConnectionView { unread: self.unread + bytes, recv_waker: None, ..self }
                } else {
                    self
                },
            }
        }
    }

    /// What the delivery of `data` together with `status` comes to.
    pub open spec fn recv_outcome(self, status: i8, data: Option<Seq<u8>>) -> RecvOutcome<W> {
        if status != ERR_OK {
            RecvOutcome::Failed { status }
        } else {
            match data {
                None => RecvOutcome::EndOfStream,
                Some(bytes) => if self.has_room(bytes.len()) {
                    RecvOutcome::Accepted { acked: bytes.len() as usize, wake: self.recv_waker }
                } else {
                    RecvOutcome::Rejected
                },
            }
        }
    }

    /// The state after the engine reported sent data, or polled: the
    /// write waiter is handed out to be woken, and is gone from the state.
    pub open spec fn after_wake_writer(self) -> Self {
        ConnectionView { write_waker: None, ..self }
    }

    /// The state after the engine reported a connection error.
    pub open spec fn after_error(self) -> Self {
        ConnectionView { reset_by_peer: true, ..self }
    }

    /// How many bytes a read takes whose caller has room for `room`.
    pub open spec fn read_len(self, room: nat) -> nat {
        if room < self.unread.len() {
            room
        } else {
            self.unread.len()
        }
    }

    /// The state after a read by the task behind `waiter`, with room for
    /// `room` bytes: the waiter replaces the one before it, and the bytes
    /// that the read takes are gone from the front.
    pub open spec fn after_read(self, waiter: W, room: nat) -> Self {
        ConnectionView {
            recv_waker: Some(waiter),
            unread: self.unread.skip(self.read_len(room) as int),
            ..self
        }
    }

    /// What a read with room for `room` bytes comes to.
    pub open spec fn read_outcome(self, room: nat) -> ReadOutcomeView {
        if self.unread.len() == 0 {
            if self.met_eof {
                ReadOutcomeView::Ready { data: Seq::empty(), rewake: false }
            } else if self.reset_by_peer {
                ReadOutcomeView::Failed(ErrorKind::ConnectionReset)
            } else {
                ReadOutcomeView::Pending
            }
        } else {
            ReadOutcomeView::Ready {
                data: self.unread.take(self.read_len(room) as int),
                rewake: room < self.unread.len() || self.met_eof,
            }
        }
    }

    /// The error with which a write or a flush fails before it reaches the
    /// engine: the peer has reset the connection, or the adapter has given
    /// the handle up. `None` where the engine is to be asked.
    pub open spec fn terminal_error(self) -> Option<ErrorKind> {
        if self.reset_by_peer {
            Some(ErrorKind::ConnectionReset)
        } else if !(self.release is Held) {
            Some(ErrorKind::ConnectionAborted)
        } else {
            None
        }
    }

    /// The state after a write by the task behind `waiter` has begun.
    pub open spec fn after_begin_write(self, waiter: W) -> Self {
        ConnectionView { write_waker: Some(waiter), ..self }
    }

    /// Whether a shutdown goes to the engine at all. It does not once the
    /// peer has reset the connection or the handle is given up.
    pub open spec fn shutdown_asks_engine(self) -> bool {
        !self.reset_by_peer && self.release is Held
    }

    /// Whether a shutdown gives the handle up, where the engine's close
    /// returned `status`, or with `None` was not called. It does on a handle
    /// that is still held, if the close was called, whatever it returned, or
    /// if the shutdown went to the engine and found the connection closed
    /// there already. It does not where the peer's reset kept the shutdown
    /// from the engine.
    pub open spec fn shutdown_gives_up(self, status: Option<i8>) -> bool {
        self.release is Held && (status is Some || !self.reset_by_peer)
    }

    /// The state after a shutdown for which the engine's close returned
    /// `status`, or with `None` was not called.
    pub open spec fn after_shutdown(self, status: Option<i8>) -> Self {
        if self.shutdown_gives_up(status) {
            ConnectionView { release: Release::Closed, ..self }
        } else {
            self
        }
    }

    /// What tearing the adapter down asks of the engine.
    pub open spec fn teardown_action(self) -> TeardownAction {
        if self.release is Held && !self.reset_by_peer {
            TeardownAction::Abort
        } else {
            TeardownAction::Nothing
        }
    }

    /// The state after the adapter was torn down.
    pub open spec fn after_teardown(self) -> Self {
        if self.teardown_action() is Abort {
            ConnectionView { release: Release::Aborted, ..self }
        } else {
            self
        }
    }
}

/// What a shutdown reports for which the engine's close returned `status`,
/// or with `None` was not called.
pub open spec fn shutdown_result(status: Option<i8>) -> Result<(), ErrorKind> {
    match status {
        None => Ok(()),
        Some(code) => status_result(code),
    }
}

/// The bytes of an optional slice.
pub open spec fn view_of(data: Option<&[u8]>) -> Option<Seq<u8>> {
    match data {
        None => None,
        Some(bytes) => Some(bytes@),
    }
}

} // verus!
