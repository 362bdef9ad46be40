//! What the steps of a connection hand back to their caller: the engine
//! calls, wake-ups and results that follow from a step.

use vstd::prelude::*;
use crate::status::error_kind_of;
use crate::status::match_error_to_rust_error_kind;
use crate::status::ErrorKind;
use crate::status::ERR_MEM;
use crate::status::ERR_OK;
use crate::status::TCP_CLOSED;

verus! {

/// How the adapter has let go of the engine's native handle.
#[derive(Clone, Copy, Debug, PartialEq, Eq, Structural)]
pub enum Release {
    /// Not yet: the handle is the adapter's to close or abort.
    Held,
    /// A close was requested from the engine.
    Closed,
    /// An abort was requested from the engine.
    Aborted,
}

/// Where a connection stands in its life.
#[derive(Clone, Copy, Debug, PartialEq, Eq, Structural)]
pub enum ConnState {
    /// Handle valid, no end of stream, no reset.
    Open,
    /// The peer has finished sending; writing is still possible.
    HalfClosedRemote,
    /// Shutdown was requested; the engine completes the close by itself.
    Closed,
    /// The engine reported a connection error.
    Reset,
    /// The adapter was torn down without a close or a reset.
    Aborted,
}

/// What the engine is told, and what else has to happen, after it delivered
/// data or an end of stream.
#[derive(Debug, PartialEq, Eq)]
pub enum RecvOutcome<W> {
    /// The engine passed an error along with the event: nothing was
    /// touched, and the same code goes back.
    Failed { status: i8 },
    /// Not enough room for the bytes. They stay with the engine, which
    /// offers them again.
    Rejected,
    /// The end of the stream was noted.
    EndOfStream,
    /// The bytes were appended. `acked` of them are acknowledged to the
    /// engine, the packet buffer is released, and `wake` is woken.
    Accepted { acked: usize, wake: Option<W> },
}

impl<W> RecvOutcome<W> {
    /// The status code that the callback hands back to the engine.
    pub open spec fn spec_status(&self) -> i8 {
        match *self {
            RecvOutcome::Failed { status } => status,
            RecvOutcome::Rejected => ERR_MEM,
            RecvOutcome::EndOfStream => ERR_OK,
            RecvOutcome::Accepted { .. } => ERR_OK,
        }
    }

    /// How many received bytes are acknowledged to the engine, if an
    /// acknowledgement is made at all.
    pub open spec fn spec_acked(&self) -> Option<usize> {
        match *self {
            RecvOutcome::Failed { .. } => None,
            RecvOutcome::Rejected => None,
            RecvOutcome::EndOfStream => Some(0usize),
            RecvOutcome::Accepted { acked, .. } => Some(acked),
        }
    }

    /// Whether the packet buffer goes back to the engine's pool. A rejected
    /// buffer does not: the engine still owns it.
    pub open spec fn spec_releases_buffer(&self) -> bool {
        self is Accepted
    }

    #[verifier::when_used_as_spec(spec_status)]
    pub fn status(&self) -> (code: i8)
        ensures
            code == self.spec_status(),
    {
        match self {
            RecvOutcome::Failed { status } => *status,
            RecvOutcome::Rejected => ERR_MEM,
            RecvOutcome::EndOfStream => ERR_OK,
            RecvOutcome::Accepted { .. } => ERR_OK,
        }
    }

    #[verifier::when_used_as_spec(spec_acked)]
    pub fn acked(&self) -> (count: Option<usize>)
        ensures
            count == self.spec_acked(),
    {
        match self {
            RecvOutcome::Failed { .. } => None,
            RecvOutcome::Rejected => None,
            RecvOutcome::EndOfStream => Some(0usize),
            RecvOutcome::Accepted { acked, .. } => Some(*acked),
        }
    }

    #[verifier::when_used_as_spec(spec_releases_buffer)]
    pub fn releases_buffer(&self) -> (release: bool)
        ensures
            release == self.spec_releases_buffer(),
    {
        match self {
            RecvOutcome::Accepted { .. } => true,
            _ => false,
        }
    }
}

/// What a read comes to, as a mathematical value.
pub enum ReadOutcomeView {
    Pending,
    Ready { data: Seq<u8>, rewake: bool },
    Failed(ErrorKind),
}

/// What a read comes to.
#[derive(Debug, PartialEq, Eq)]
pub enum ReadOutcome {
    /// Nothing buffered and no end of stream yet: the task is suspended
    /// until the engine delivers something.
    Pending,
    /// `data` goes into the caller's buffer; it is empty at a clean end of
    /// stream. With `rewake` the task is to be woken again at once, since
    /// there is more for it to fetch.
    Ready { data: Vec<u8>, rewake: bool },
    /// The connection is gone and nothing is left to read.
    Failed(ErrorKind),
}

impl View for ReadOutcome {
    type V = ReadOutcomeView;

    open spec fn view(&self) -> ReadOutcomeView {
        match *self {
            ReadOutcome::Pending => ReadOutcomeView::Pending,
            ReadOutcome::Ready { data, rewake } => ReadOutcomeView::Ready { data: data@, rewake },
            ReadOutcome::Failed(kind) => ReadOutcomeView::Failed(kind),
        }
    }
}

/// What a write comes to once the engine has answered.
#[derive(Clone, Copy, Debug, PartialEq, Eq, Structural)]
pub enum WriteOutcome {
    /// The engine's send buffer is full for now. The task is suspended
    /// and tries again when the engine has sent data or polls.
    Pending,
    /// The engine took over this many bytes.
    Written(usize),
    /// The write failed for good.
    Failed(ErrorKind),
}

/// What a write of `len` bytes comes to when the engine answers `status`:
/// success reports all `len` bytes, a full send buffer suspends the write,
/// and every other code fails it with the error kind that stands for it.
pub open spec fn write_result(len: usize, status: i8) -> WriteOutcome {
    if status == ERR_OK {
        WriteOutcome::Written(len)
    } else if status == ERR_MEM {
        WriteOutcome::Pending
    } else {
        WriteOutcome::Failed(error_kind_of(status).unwrap())
    }
}

impl WriteOutcome {
    /// Whether the engine is asked to send out what it has queued. That is
    /// so after every accepted write, so that nothing stays behind unsent,
    /// and after a suspended one, to make room.
    pub open spec fn spec_flushes(&self) -> bool {
        !(self is Failed)
    }

    #[verifier::when_used_as_spec(spec_flushes)]
    pub fn flushes(&self) -> (flush: bool)
        ensures
            flush == self.spec_flushes(),
    {
        match self {
            WriteOutcome::Failed(_) => false,
            _ => true,
        }
    }
}

/// How many of `len` bytes one write hands to the engine: all of them, up
/// to the most that the engine's sixteen-bit length can say.
pub open spec fn spec_write_len(len: usize) -> u16 {
    if len <= u16::MAX {
        len as u16
    } else {
        u16::MAX
    }
}

#[verifier::when_used_as_spec(spec_write_len)]
pub fn write_len(len: usize) -> (count: u16)
    ensures
        count == spec_write_len(len),
        count <= len,
{
    if len <= u16::MAX as usize {
        len as u16
    } else {
        u16::MAX
    }
}

/// Decides what a write of `len` bytes comes to from the status that the
/// engine returned for it.
pub fn write_outcome(len: usize, status: i8) -> (outcome: WriteOutcome)
    ensures
        outcome == write_result(len, status),
        outcome is Written <==> status == ERR_OK,
        outcome is Pending <==> status == ERR_MEM,
{
    if status == ERR_OK {
        WriteOutcome::Written(len)
    } else if status == ERR_MEM {
        WriteOutcome::Pending
    } else {
        match match_error_to_rust_error_kind(status) {
            Some(kind) => WriteOutcome::Failed(kind),
            None => WriteOutcome::Failed(ErrorKind::Other),
        }
    }
}

/// Whether a shutdown has to ask the engine for a close: it has unless the
/// engine has the connection closed already.
pub open spec fn spec_close_needed(engine_state: u32) -> bool {
    engine_state != TCP_CLOSED
}

#[verifier::when_used_as_spec(spec_close_needed)]
pub fn close_needed(engine_state: u32) -> (needed: bool)
    ensures
        needed == spec_close_needed(engine_state),
{
    engine_state != TCP_CLOSED
}

/// The engine call that tearing an adapter down asks for.
#[derive(Clone, Copy, Debug, PartialEq, Eq, Structural)]
pub enum TeardownAction {
    /// The engine has the handle already, or will have it: no call.
    Nothing,
    /// One abort, so that the engine frees the handle.
    Abort,
}

} // verus!
