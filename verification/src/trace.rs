//! Histories of a connection: the events that act on it, in the order in
//! which they are applied, and what a whole history adds up to.

use vstd::prelude::*;
use crate::model::ConnectionView;
use crate::outcome::spec_close_needed;
use crate::outcome::ReadOutcomeView;

verus! {

/// One thing that happens to a connection.
pub enum Event<W> {
    /// The engine delivered data, or with `None` the end of the stream.
    Recv { status: i8, data: Option<Seq<u8>> },
    /// The engine reported sent data.
    Sent,
    /// The engine polled the connection.
    Poll,
    /// The engine reported a connection error.
    Error,
    /// The task behind `waiter` read with room for `room` bytes.
    Read { waiter: W, room: nat },
    /// The task behind `waiter` began a write.
    Write { waiter: W },
    /// The task shut the connection down. Where the engine was asked, it
    /// showed the connection in `engine_state`, and a close that was then
    /// called returned `status`.
    Shutdown { engine_state: u32, status: i8 },
    /// The adapter was torn down.
    Teardown,
}

impl<H, W> ConnectionView<H, W> {
    /// Whether a shutdown in this state, with the engine showing
    /// `engine_state`, calls the engine's close.
    pub open spec fn shutdown_calls_close(self, engine_state: u32) -> bool {
        self.shutdown_asks_engine() && spec_close_needed(engine_state)
    }

    /// The state after one event.
    pub open spec fn step(self, event: Event<W>) -> Self {
        match event {
            Event::Recv { status, data } => self.after_recv(status, data),
            Event::Sent => self.after_wake_writer(),
            Event::Poll => self.after_wake_writer(),
            Event::Error => self.after_error(),
            Event::Read { waiter, room } => self.after_read(waiter, room),
            Event::Write { waiter } => self.after_begin_write(waiter),
            Event::Shutdown { engine_state, status } => self.after_shutdown(
                if self.shutdown_calls_close(engine_state) {
                    Some(status)
                } else {
                    None
                },
            ),
            Event::Teardown => self.after_teardown(),
        }
    }

    /// The state after a history of events, the first of them applied
    /// first.
    pub open spec fn run(self, events: Seq<Event<W>>) -> Self
        decreases events.len(),
    {
        if events.len() == 0 {
            self
        } else {
            self.run(events.drop_last()).step(events.last())
        }
    }

    /// The bytes that one event adds to the accumulation buffer.
    pub open spec fn accepted_at(self, event: Event<W>) -> Seq<u8> {
        match event {
            Event::Recv { status, data } => self.after_recv(status, data).unread.skip(
                self.unread.len() as int,
            ),
            _ => Seq::empty(),
        }
    }

    /// The bytes that one event hands to the reader.
    pub open spec fn handed_out_at(self, event: Event<W>) -> Seq<u8> {
        match event {
            Event::Read { waiter, room } => match self.read_outcome(room) {
                ReadOutcomeView::Ready { data, .. } => data,
                _ => Seq::empty(),
            },
            _ => Seq::empty(),
        }
    }

    /// How many calls that give the native handle up, a close or an abort,
    /// one event asks of the engine.
    pub open spec fn releases_at(self, event: Event<W>) -> nat {
        match event {
            Event::Shutdown { engine_state, .. } => if self.shutdown_calls_close(engine_state) {
                1
            } else {
                0
            },
            Event::Teardown => if self.teardown_action() is Abort {
                1
            } else {
                0
            },
            _ => 0,
        }
    }

    /// All bytes that a history adds to the accumulation buffer, in the
    /// order of their arrival.
    pub open spec fn accepted(self, events: Seq<Event<W>>) -> Seq<u8>
        decreases events.len(),
    {
        if events.len() == 0 {
            Seq::empty()
        } else {
            self.accepted(events.drop_last()) + self.run(events.drop_last()).accepted_at(
                events.last(),
            )
        }
    }

    /// All bytes that the reads of a history hand out, in the order of the
    /// reads.
    pub open spec fn handed_out(self, events: Seq<Event<W>>) -> Seq<u8>
        decreases events.len(),
    {
        if events.len() == 0 {
            Seq::empty()
        } else {
            self.handed_out(events.drop_last()) + self.run(events.drop_last()).handed_out_at(
                events.last(),
            )
        }
    }

    /// How many calls that give the native handle up a history asks of the
    /// engine.
    pub open spec fn releases(self, events: Seq<Event<W>>) -> nat
        decreases events.len(),
    {
        if events.len() == 0 {
            0
        } else {
            self.releases(events.drop_last()) + self.run(events.drop_last()).releases_at(
                events.last(),
            )
        }
    }
}

} // verus!
