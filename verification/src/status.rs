//! Status codes and connection states of the protocol engine, and the error
//! kinds that callers see in their place.

use vstd::prelude::*;

verus! {

/// What a failed read, write, flush or shutdown reports to its caller.
#[derive(Clone, Copy, Debug, PartialEq, Eq, Structural)]
pub enum ErrorKind {
    OutOfMemory,
    AddressInUse,
    ConnectionAborted,
    ConnectionReset,
    NotConnected,
    InvalidArgument,
    /// An engine code that has no kind of its own.
    Other,
}

/// The engine's status code for success.
pub const ERR_OK: i8 = 0;

/// Out of memory; for a write, the send buffer is full for the moment.
pub const ERR_MEM: i8 = -1;

/// Address in use.
pub const ERR_USE: i8 = -8;

/// Not connected.
pub const ERR_CONN: i8 = -11;

/// Connection aborted.
pub const ERR_ABRT: i8 = -13;

/// Connection reset.
pub const ERR_RST: i8 = -14;

/// Connection closed.
pub const ERR_CLSD: i8 = -15;

/// Illegal argument.
pub const ERR_ARG: i8 = -16;

pub const TCP_CLOSED: u32 = 0;

pub const TCP_LISTEN: u32 = 1;

pub const TCP_SYN_SENT: u32 = 2;

pub const TCP_SYN_RCVD: u32 = 3;

pub const TCP_ESTABLISHED: u32 = 4;

pub const TCP_FIN_WAIT_1: u32 = 5;

pub const TCP_FIN_WAIT_2: u32 = 6;

pub const TCP_CLOSE_WAIT: u32 = 7;

pub const TCP_CLOSING: u32 = 8;

pub const TCP_LAST_ACK: u32 = 9;

pub const TCP_TIME_WAIT: u32 = 10;

/// The error kind that stands for an engine status code: none for success,
/// one kind for each failure the engine names, `Other` for the rest.
pub open spec fn error_kind_of(err: i8) -> Option<ErrorKind> {
    if err == ERR_OK {
        None
    } else if err == ERR_MEM {
        Some(ErrorKind::OutOfMemory)
    } else if err == ERR_USE {
        Some(ErrorKind::AddressInUse)
    } else if err == ERR_ABRT {
        Some(ErrorKind::ConnectionAborted)
    } else if err == ERR_RST {
        Some(ErrorKind::ConnectionReset)
    } else if err == ERR_CLSD {
        Some(ErrorKind::ConnectionAborted)
    } else if err == ERR_CONN {
        Some(ErrorKind::NotConnected)
    } else if err == ERR_ARG {
        Some(ErrorKind::InvalidArgument)
    } else {
        Some(ErrorKind::Other)
    }
}

/// Whether the engine still takes data for sending in this connection state.
/// It does not once the connection is closed or this side has begun to
/// close it. After the peer's end of stream alone it still does.
pub open spec fn state_is_writable(state: u32) -> bool {
    &&& state != TCP_CLOSED
    &&& state != TCP_FIN_WAIT_1
    &&& state != TCP_FIN_WAIT_2
    &&& state != TCP_CLOSING
}

/// The error kind with which a write fails in a given connection state of
/// the engine, if it fails there.
pub open spec fn state_error_kind(state: u32) -> Option<ErrorKind> {
    if state_is_writable(state) {
        None
    } else {
        Some(ErrorKind::ConnectionAborted)
    }
}

/// What an engine call that either succeeds or fails for good comes to.
pub open spec fn status_result(status: i8) -> Result<(), ErrorKind> {
    match error_kind_of(status) {
        None => Ok(()),
        Some(kind) => Err(kind),
    }
}

/// Translates an engine status code into the error kind shown to callers.
pub fn match_error_to_rust_error_kind(err: i8) -> (kind: Option<ErrorKind>)
    ensures
        kind == error_kind_of(err),
        kind is None <==> err == ERR_OK,
{
    if err == ERR_OK {
        None
    } else if err == ERR_MEM {
        Some(ErrorKind::OutOfMemory)
    } else if err == ERR_USE {
        Some(ErrorKind::AddressInUse)
    } else if err == ERR_ABRT || err == ERR_CLSD {
        Some(ErrorKind::ConnectionAborted)
    } else if err == ERR_RST {
        Some(ErrorKind::ConnectionReset)
    } else if err == ERR_CONN {
        Some(ErrorKind::NotConnected)
    } else if err == ERR_ARG {
        Some(ErrorKind::InvalidArgument)
    } else {
        Some(ErrorKind::Other)
    }
}

/// Says whether the engine's connection state forbids writing, and with
/// which error kind the write then fails.
pub fn match_tcp_state_to_io_error_kind(state: u32) -> (kind: Option<ErrorKind>)
    ensures
        kind == state_error_kind(state),
        kind is None <==> state_is_writable(state),
{
    if state == TCP_CLOSED || state == TCP_FIN_WAIT_1 || state == TCP_FIN_WAIT_2
        || state == TCP_CLOSING {
        Some(ErrorKind::ConnectionAborted)
    } else {
        None
    }
}

/// The result of an engine call that has no transient outcome, such as a
/// flush or a close: success for the success code, and for every other code
/// the error kind that stands for it.
pub fn status_to_result(status: i8) -> (res: Result<(), ErrorKind>)
    ensures
        res == status_result(status),
        res is Ok <==> status == ERR_OK,
{
    match match_error_to_rust_error_kind(status) {
        None => Ok(()),
        Some(kind) => Err(kind),
    }
}

} // verus!
