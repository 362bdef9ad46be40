//! What holds of every connection, whatever its history.

use vstd::prelude::*;
use crate::model::ConnectionView;
use crate::outcome::write_result;
use crate::outcome::ConnState;
use crate::outcome::ReadOutcomeView;
use crate::outcome::WriteOutcome;
use crate::status::state_error_kind;
use crate::status::ErrorKind;
use crate::status::ERR_MEM;
use crate::status::ERR_OK;
use crate::status::TCP_CLOSE_WAIT;
use crate::trace::Event;

verus! {

/// One event keeps the buffer within its capacity, and changes neither the
/// capacity nor the native handle.
pub proof fn law_step_keeps_bound<H, W>(s: ConnectionView<H, W>, event: Event<W>)
    requires
        s.wf(),
    ensures
        s.step(event).wf(),
        s.step(event).capacity == s.capacity,
        s.step(event).pcb == s.pcb,
{
}

/// The accumulation buffer never exceeds its capacity: from a connection
/// within its bound, every history leads to one within the same bound.
pub proof fn law_capacity_is_kept<H, W>(s: ConnectionView<H, W>, events: Seq<Event<W>>)
    requires
        s.wf(),
    ensures
        s.run(events).wf(),
        s.run(events).unread.len() <= s.capacity,
        s.run(events).capacity == s.capacity,
        s.run(events).pcb == s.pcb,
    decreases events.len(),
{
    if events.len() > 0 {
        law_capacity_is_kept(s, events.drop_last());
        law_step_keeps_bound(s.run(events.drop_last()), events.last());
    }
}

/// Bytes that do not fit are rejected: the delivery changes nothing, so
/// none of them is kept and none of the buffered ones is lost.
pub proof fn law_full_buffer_rejects<H, W>(s: ConnectionView<H, W>, bytes: Seq<u8>)
    requires
        s.wf(),
        s.unread.len() + bytes.len() > s.capacity,
    ensures
        s.recv_outcome(ERR_OK, Some(bytes)) is Rejected,
        s.after_recv(ERR_OK, Some(bytes)) == s,
{
}

/// Reads hand out the stream as it arrived: at every point of a history,
/// the bytes handed out so far followed by the bytes still buffered are the
/// bytes buffered at the start followed by all that were accepted since, in
/// order, nothing lost and nothing twice.
pub proof fn law_stream_order<H, W>(s: ConnectionView<H, W>, events: Seq<Event<W>>)
    requires
        s.wf(),
    ensures
        s.handed_out(events) + s.run(events).unread == s.unread + s.accepted(events),
    decreases events.len(),
{
    if events.len() > 0 {
        let before = events.drop_last();
        law_stream_order(s, before);
        law_capacity_is_kept(s, before);
        assert(s.unread + s.accepted(events) =~= (s.unread + s.accepted(before)) + s.run(
            before,
        ).accepted_at(events.last()));
    }
}

/// A read never returns more than the caller has room for, and where it
/// leaves bytes behind, the task is woken again at once.
pub proof fn law_read_fits_room<H, W>(s: ConnectionView<H, W>, waiter: W, room: nat)
    ensures
        s.read_outcome(room) matches ReadOutcomeView::Ready { data, rewake } ==> {
            &&& data.len() <= room
            &&& data.len() <= s.unread.len()
            &&& (s.after_read(waiter, room).unread.len() > 0 ==> rewake)
        },
{
}

/// A read reports the end of the stream, that is no bytes though the
/// caller has room, exactly when the peer has finished and nothing is
/// buffered. It does so without an error, also after a reset.
pub proof fn law_clean_end_of_stream<H, W>(s: ConnectionView<H, W>, room: nat)
    requires
        room > 0,
    ensures
        (s.read_outcome(room) matches ReadOutcomeView::Ready { data, .. } && data.len() == 0) <==> (
        s.met_eof && s.unread.len() == 0),
{
}

/// When a read at the end of a history reports the end of the stream, the
/// reads before it have handed out every byte that was buffered or
/// accepted.
pub proof fn law_end_of_stream_is_last<H, W>(
    s: ConnectionView<H, W>,
    events: Seq<Event<W>>,
    room: nat,
)
    requires
        s.wf(),
        room > 0,
        s.run(events).read_outcome(room) matches ReadOutcomeView::Ready { data, .. } && data.len()
            == 0,
    ensures
        s.run(events).met_eof,
        s.handed_out(events) == s.unread + s.accepted(events),
{
    law_stream_order(s, events);
    law_clean_end_of_stream(s.run(events), room);
}

/// Which state may follow which: a connection stays where it is or moves
/// on, from open over half-closed to closed, and from any of these to reset
/// or aborted, where it stays.
pub open spec fn may_follow(from: ConnState, to: ConnState) -> bool {
    match from {
        ConnState::Open => true,
        ConnState::HalfClosedRemote => !(to is Open),
        ConnState::Closed => to is Closed || to is Reset,
        ConnState::Reset => to is Reset,
        ConnState::Aborted => to is Aborted,
    }
}

/// A connection never goes back in its life: over every history its state
/// follows the order of `may_follow`, so that a reset or aborted connection
/// stays reset or aborted.
pub proof fn law_state_moves_forward<H, W>(s: ConnectionView<H, W>, events: Seq<Event<W>>)
    ensures
        may_follow(s.state(), s.run(events).state()),
        s.met_eof ==> s.run(events).met_eof,
    decreases events.len(),
{
    if events.len() > 0 {
        law_state_moves_forward(s, events.drop_last());
    }
}

/// A reset stays: no event takes it back.
pub proof fn law_reset_is_sticky<H, W>(s: ConnectionView<H, W>, events: Seq<Event<W>>)
    requires
        s.reset_by_peer,
    ensures
        s.run(events).reset_by_peer,
        s.run(events).terminal_error() == Some(ErrorKind::ConnectionReset),
        !s.run(events).shutdown_asks_engine(),
        s.run(events).teardown_action() is Nothing,
        s.releases(events) == 0,
    decreases events.len(),
{
    if events.len() > 0 {
        law_reset_is_sticky(s, events.drop_last());
    }
}

/// After the engine's error callback the connection is reset, and writes,
/// flushes, shutdown and teardown are settled without the engine.
pub proof fn law_error_resets<H, W>(s: ConnectionView<H, W>)
    ensures
        s.after_error().reset_by_peer,
        s.after_error().terminal_error() == Some(ErrorKind::ConnectionReset),
        !s.after_error().shutdown_asks_engine(),
        s.after_error().teardown_action() is Nothing,
        s.release is Aborted || s.after_error().state() == ConnState::Reset,
{
}

/// A suspended write is woken: the waiter that a write registers is the
/// one that the next sent or poll callback hands out, unless a later write
/// has replaced it; reads and deliveries in between do not touch it.
pub proof fn law_pending_write_is_woken<H, W>(
    s: ConnectionView<H, W>,
    waiter: W,
    between: Seq<Event<W>>,
)
    requires
        forall|i: int|
            0 <= i < between.len() ==> !(#[trigger] between[i] is Write) && !(between[i] is Sent)
                && !(between[i] is Poll),
    ensures
        s.after_begin_write(waiter).run(between).write_waker == Some(waiter),
        s.after_begin_write(waiter).run(between).after_wake_writer().write_waker is None,
    decreases between.len(),
{
    if between.len() > 0 {
        law_pending_write_is_woken(s, waiter, between.drop_last());
    }
}

/// A write that the engine suspends for want of room completes once the
/// engine takes the bytes: a full send buffer never fails it, and success
/// reports the whole length.
pub proof fn law_write_retry_completes(len: usize)
    ensures
        write_result(len, ERR_MEM) == WriteOutcome::Pending,
        write_result(len, ERR_OK) == WriteOutcome::Written(len),
        forall|status: i8| write_result(len, status) is Failed ==> status != ERR_MEM && status != ERR_OK,
{
}

/// A suspended write still goes to the engine when it is tried again, as
/// long as the connection was not reset, shut down or torn down meanwhile.
pub proof fn law_write_stays_admitted<H, W>(s: ConnectionView<H, W>, events: Seq<Event<W>>)
    requires
        s.terminal_error() is None,
        forall|i: int|
            0 <= i < events.len() ==> !(#[trigger] events[i] is Error) && !(events[i] is Shutdown)
                && !(events[i] is Teardown),
    ensures
        s.run(events).terminal_error() is None,
    decreases events.len(),
{
    if events.len() > 0 {
        law_write_stays_admitted(s, events.drop_last());
    }
}

/// The native handle is given up at most once: over a whole history the
/// engine is asked for at most one close or abort, and for none if the
/// handle was given up before.
pub proof fn law_single_release<H, W>(s: ConnectionView<H, W>, events: Seq<Event<W>>)
    ensures
        s.releases(events) <= 1,
        !(s.release is Held) ==> s.releases(events) == 0,
        s.releases(events) == 1 ==> !(s.run(events).release is Held),
        !(s.release is Held) ==> s.run(events).release == s.release,
    decreases events.len(),
{
    if events.len() > 0 {
        law_single_release(s, events.drop_last());
    }
}

/// Tearing down a connection that was neither shut down nor reset asks for
/// exactly one abort; tearing down any other asks for nothing; and after a
/// teardown, a further one asks for nothing.
pub proof fn law_teardown_aborts_once<H, W>(s: ConnectionView<H, W>)
    ensures
        s.teardown_action() is Abort <==> s.release is Held && !s.reset_by_peer,
        s.after_teardown().teardown_action() is Nothing,
        s.releases(seq![Event::Teardown, Event::Teardown]) == if s.release is Held
            && !s.reset_by_peer {
            1nat
        } else {
            0nat
        },
{
    let two = seq![Event::<W>::Teardown, Event::<W>::Teardown];
    let one = two.drop_last();
    let none = one.drop_last();
    assert(s.run(none) == s);
    assert(s.releases(none) == 0);
    assert(s.releases(two) == s.releases(one) + s.after_teardown().releases_at(Event::Teardown));
}

/// A shutdown leaves nothing for a teardown to do: whether the close was
/// called and whatever it returned, whether the engine had the connection
/// closed already, or whether the peer's reset kept the shutdown from the
/// engine, a teardown after it asks for no abort, and a further shutdown
/// does not go to the engine.
pub proof fn law_shutdown_then_teardown<H, W>(s: ConnectionView<H, W>, status: Option<i8>)
    ensures
        s.after_shutdown(status).teardown_action() is Nothing,
        !s.after_shutdown(status).shutdown_asks_engine(),
        s.after_shutdown(status).after_teardown() == s.after_shutdown(status),
{
}

/// After the peer's end of stream the connection can still be written to:
/// the adapter lets the write pass to the engine, and the engine's state
/// for a connection whose peer has finished does not bar it.
pub proof fn law_half_closed_is_writable<H, W>(s: ConnectionView<H, W>)
    requires
        s.state() == ConnState::HalfClosedRemote,
    ensures
        s.terminal_error() is None,
        state_error_kind(TCP_CLOSE_WAIT) is None,
        forall|len: usize| write_result(len, ERR_OK) == WriteOutcome::Written(len),
{
}

} // verus!
