//! The connection adapter: one accepted TCP flow as a state machine.
//!
//! The engine's callbacks and the owning task's polls both act on a
//! [`TcpConnection`]. Neither touches the engine from here: a step says what
//! the state becomes and which engine call, wake-up or result follows, and
//! the caller carries that out. `H` is the engine's native handle and `W`
//! the scheduler's waiter handle; both are only stored and handed back.

use vstd::prelude::*;
use crate::model::shutdown_result;
use crate::model::view_of;
use crate::model::ConnectionView;
use crate::outcome::ConnState;
use crate::outcome::ReadOutcome;
use crate::outcome::RecvOutcome;
use crate::outcome::Release;
use crate::outcome::TeardownAction;
use crate::status::status_to_result;
use crate::status::ErrorKind;
use crate::status::ERR_OK;
use crate::status::TCP_CLOSED;

verus! {

/// Bytes of inbound data that one connection holds for its reader at most.
pub const SINGLE_CONNECTION_BUFFER_SIZE: usize = 1024 * 8 * 8;

/// One accepted TCP flow: the engine's handle, the inbound bytes that wait
/// for the reader, the waiters of both directions and the flags that the
/// engine's callbacks set.
pub struct TcpConnection<H, W> {
    pcb: H,
    release: Release,
    unread: Vec<u8>,
    capacity: usize,
    recv_waker: Option<W>,
    write_waker: Option<W>,
    met_eof: bool,
    reset_by_peer: bool,
}

impl<H, W> View for TcpConnection<H, W> {
    type V = ConnectionView<H, W>;

    closed spec fn view(&self) -> ConnectionView<H, W> {
        ConnectionView {
            pcb: self.pcb,
            release: self.release,
            unread: self.unread@,
            capacity: self.capacity as nat,
            recv_waker: self.recv_waker,
            write_waker: self.write_waker,
            met_eof: self.met_eof,
            reset_by_peer: self.reset_by_peer,
        }
    }
}

impl<H, W> TcpConnection<H, W> {
    #[verifier::type_invariant]
    spec fn within_capacity(self) -> bool {
        self.unread@.len() <= self.capacity
    }

    /// Wraps a handle that the engine has just accepted and shows in
    /// `engine_state`, with the default buffer capacity. A connection that
    /// the engine has closed already is none to wrap.
    pub fn new(pcb: H, engine_state: u32) -> (conn: Self)
        requires
            engine_state != TCP_CLOSED,
        ensures
            conn@ == ConnectionView::<H, W>::fresh(pcb, SINGLE_CONNECTION_BUFFER_SIZE as nat),
    {
        Self::with_capacity(pcb, engine_state, SINGLE_CONNECTION_BUFFER_SIZE)
    }

    /// Wraps a handle that the engine has just accepted and shows in
    /// `engine_state`. The connection holds at most `capacity` unread
    /// bytes, for all its life.
    #[allow(unused_variables)]
    pub fn with_capacity(pcb: H, engine_state: u32, capacity: usize) -> (conn: Self)
        requires
            engine_state != TCP_CLOSED,
        ensures
            conn@ == ConnectionView::<H, W>::fresh(pcb, capacity as nat),
    {
        TcpConnection {
            pcb,
            release: Release::Held,
            unread: Vec::new(),
            capacity,
            recv_waker: None,
            write_waker: None,
            met_eof: false,
            reset_by_peer: false,
        }
    }

    /// The engine's native handle of this connection.
    pub fn pcb(&self) -> (pcb: &H)
        ensures
            *pcb == self@.pcb,
    {
        &self.pcb
    }

    /// Where the connection stands in its life.
    pub fn state(&self) -> (state: ConnState)
        ensures
            state == self@.state(),
    {
        match self.release {
            Release::Aborted => ConnState::Aborted,
            Release::Closed => if self.reset_by_peer {
                ConnState::Reset
            } else {
                ConnState::Closed
            },
            Release::Held => if self.reset_by_peer {
                ConnState::Reset
            } else if self.met_eof {
                ConnState::HalfClosedRemote
            } else {
                ConnState::Open
            },
        }
    }

    /// The most unread bytes that the connection holds.
    pub fn capacity(&self) -> (capacity: usize)
        ensures
            capacity == self@.capacity,
    {
        self.capacity
    }

    /// How many bytes wait for the reader. Never more than the capacity.
    pub fn buffered(&self) -> (count: usize)
        ensures
            count == self@.unread.len(),
            count <= self@.capacity,
    {
        proof {
            use_type_invariant(self);
        }
        self.unread.len()
    }

    /// The engine's receive callback: `data` arrived, or with `None` the
    /// peer's end of stream, together with the engine's `status`.
    ///
    /// Bytes are appended only where all of them fit; otherwise they are
    /// rejected and nothing changes. Accepted bytes wake the reader, an end
    /// of stream does not.
    pub fn on_recv(&mut self, status: i8, data: Option<&[u8]>) -> (outcome: RecvOutcome<W>)
        ensures
            final(self)@ == old(self)@.after_recv(status, view_of(data)),
            outcome == old(self)@.recv_outcome(status, view_of(data)),
            final(self)@.wf(),
            final(self)@.capacity == old(self)@.capacity,
            outcome is Rejected ==> final(self)@ == old(self)@,
            outcome is Rejected <==> status == ERR_OK && data is Some && !old(self)@.has_room(
                data.unwrap()@.len(),
            ),
    {
        proof {
            use_type_invariant(&*self);
        }
        if status != ERR_OK {
            return RecvOutcome::Failed { status };
        }
        match data {
            None => {
                self.met_eof = true;
                RecvOutcome::EndOfStream
            },
            Some(bytes) => {
                if self.capacity - self.unread.len() < bytes.len() {
                    RecvOutcome::Rejected
                } else {
                    let ghost before = self.unread@;
                    let mut buffer: Vec<u8> = Vec::new();
                    core::mem::swap(&mut self.unread, &mut buffer);
                    buffer.extend_from_slice(bytes);
                    assert(buffer@ =~= before + bytes@);
                    core::mem::swap(&mut self.unread, &mut buffer);
                    let mut wake: Option<W> = None;
                    core::mem::swap(&mut self.recv_waker, &mut wake);
                    RecvOutcome::Accepted { acked: bytes.len(), wake }
                }
            },
        }
    }

    /// The engine's callback for sent data: hands out the write waiter, if
    /// one is registered, for the caller to wake.
    pub fn on_sent(&mut self) -> (wake: Option<W>)
        ensures
            final(self)@ == old(self)@.after_wake_writer(),
            wake == old(self)@.write_waker,
            final(self)@.wf(),
    {
        proof {
            use_type_invariant(&*self);
        }
        let mut wake: Option<W> = None;
        core::mem::swap(&mut self.write_waker, &mut wake);
        wake
    }

    /// The engine's periodic poll callback: as for sent data, it hands out
    /// the write waiter so that a suspended write gets its next try.
    pub fn on_poll(&mut self) -> (wake: Option<W>)
        ensures
            final(self)@ == old(self)@.after_wake_writer(),
            wake == old(self)@.write_waker,
            final(self)@.wf(),
    {
        self.on_sent()
    }

    /// The engine's error callback: the connection is reset, from now on
    /// and for good.
    pub fn on_error(&mut self)
        ensures
            final(self)@ == old(self)@.after_error(),
            final(self)@.wf(),
    {
        proof {
            use_type_invariant(&*self);
        }
        self.reset_by_peer = true;
    }

    /// A read by the task behind `waiter`, whose buffer has room for `room`
    /// bytes.
    ///
    /// The waiter replaces the one registered before. Buffered bytes are
    /// handed out oldest first, as many as fit. With nothing buffered the
    /// read is a clean end of stream if the peer has finished, fails if the
    /// connection was reset, and is suspended otherwise.
    pub fn poll_read(&mut self, waiter: W, room: usize) -> (outcome: ReadOutcome)
        ensures
            final(self)@ == old(self)@.after_read(waiter, room as nat),
            outcome@ == old(self)@.read_outcome(room as nat),
            final(self)@.wf(),
            outcome matches ReadOutcome::Ready { data, rewake } ==> {
                &&& data@.len() <= room
                &&& old(self)@.unread == data@ + final(self)@.unread
                &&& (final(self)@.unread.len() > 0 ==> rewake)
            },
    {
        proof {
            use_type_invariant(&*self);
        }
        self.recv_waker = Some(waiter);
        let len = self.unread.len();
        if len == 0 {
            assert(self.unread@.skip(0) =~= self.unread@);
            if self.met_eof {
                ReadOutcome::Ready { data: Vec::new(), rewake: false }
            } else if self.reset_by_peer {
                ReadOutcome::Failed(ErrorKind::ConnectionReset)
            } else {
                ReadOutcome::Pending
            }
        } else {
            let count = if room < len {
                room
            } else {
                len
            };
            let mut head: Vec<u8> = Vec::new();
            core::mem::swap(&mut self.unread, &mut head);
            let mut tail = head.split_off(count);
            core::mem::swap(&mut self.unread, &mut tail);
            let rewake = room < len || self.met_eof;
            ReadOutcome::Ready { data: head, rewake }
        }
    }

    /// The first step of a write by the task behind `waiter`: registers the
    /// waiter in place of the one before, and says whether the bytes go to
    /// the engine. They do not, and the write fails with the error given,
    /// once the connection is reset or the handle given up.
    pub fn begin_write(&mut self, waiter: W) -> (gate: Result<(), ErrorKind>)
        ensures
            final(self)@ == old(self)@.after_begin_write(waiter),
            gate == match old(self)@.terminal_error() {
                Some(kind) => Err::<(), ErrorKind>(kind),
                None => Ok(()),
            },
            final(self)@.wf(),
    {
        proof {
            use_type_invariant(&*self);
        }
        self.write_waker = Some(waiter);
        self.gate()
    }

    /// The first step of a flush: says whether the engine is asked to send
    /// out what it has queued, or else with which error the flush fails.
    pub fn begin_flush(&self) -> (gate: Result<(), ErrorKind>)
        ensures
            gate == match self@.terminal_error() {
                Some(kind) => Err::<(), ErrorKind>(kind),
                None => Ok(()),
            },
    {
        self.gate()
    }

    fn gate(&self) -> (gate: Result<(), ErrorKind>)
        ensures
            gate == match self@.terminal_error() {
                Some(kind) => Err::<(), ErrorKind>(kind),
                None => Ok(()),
            },
    {
        if self.reset_by_peer {
            Err(ErrorKind::ConnectionReset)
        } else {
            match self.release {
                Release::Held => Ok(()),
                _ => Err(ErrorKind::ConnectionAborted),
            }
        }
    }

    /// The first step of a shutdown: says whether the engine is to be
    /// asked. Where it is not, the shutdown has succeeded with nothing done.
    pub fn begin_shutdown(&self) -> (ask: bool)
        ensures
            ask == self@.shutdown_asks_engine(),
    {
        if self.reset_by_peer {
            false
        } else {
            match self.release {
                Release::Held => true,
                _ => false,
            }
        }
    }

    /// The last step of a shutdown: `status` holds what the engine's close
    /// returned, or `None` if no close was called, be it that the engine had
    /// the connection closed already or that the shutdown did not go to the
    /// engine.
    ///
    /// A shutdown that went to the engine gives the handle up, whether the
    /// close was called or the engine had done with the connection, and
    /// whatever the close returned: no later teardown acts on the handle
    /// again. A failure of the close is still reported.
    pub fn finish_shutdown(&mut self, status: Option<i8>) -> (res: Result<(), ErrorKind>)
        ensures
            final(self)@ == old(self)@.after_shutdown(status),
            res == shutdown_result(status),
            final(self)@.wf(),
            old(self)@.shutdown_asks_engine() ==> final(self)@.teardown_action() is Nothing,
    {
        proof {
            use_type_invariant(&*self);
        }
        let gives_up = match self.release {
            Release::Held => status.is_some() || !self.reset_by_peer,
            _ => false,
        };
        if gives_up {
            self.release = Release::Closed;
        }
        match status {
            None => Ok(()),
            Some(code) => status_to_result(code),
        }
    }

    /// Tears the adapter down. A connection that was neither shut down nor
    /// reset has its handle aborted, once: the handle counts as given up
    /// afterwards, and tearing down again asks for nothing.
    pub fn teardown(&mut self) -> (action: TeardownAction)
        ensures
            final(self)@ == old(self)@.after_teardown(),
            action == old(self)@.teardown_action(),
            final(self)@.teardown_action() is Nothing,
            final(self)@.wf(),
    {
        proof {
            use_type_invariant(&*self);
        }
        if self.reset_by_peer {
            TeardownAction::Nothing
        } else {
            match self.release {
                Release::Held => {
                    self.release = Release::Aborted;
                    TeardownAction::Abort
                },
                _ => TeardownAction::Nothing,
            }
        }
    }
}

} // verus!
