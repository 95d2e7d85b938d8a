//! The event log: an append-only sequence of events, the source of truth.

use crate::domain::{views_of, Event, EventView};
use vstd::prelude::*;

verus! {

/// An append-only, ordered log of events. Its view is the events by their
/// views, oldest first.
pub struct EventLog {
    events: Vec<Event>,
}

impl View for EventLog {
    type V = Seq<EventView>;

    closed spec fn view(&self) -> Seq<EventView> {
        views_of(self.events@)
    }
}

impl EventLog {
    /// The log without events.
    pub fn new() -> (log: EventLog)
        ensures
            log@ == Seq::<EventView>::empty(),
    {
        EventLog { events: Vec::new() }
    }

    /// How many events the log holds.
    pub fn len(&self) -> (count: usize)
        ensures
            count == self@.len(),
    {
        self.events.len()
    }

    /// Appends `event` and returns its sequence number, the count of events
    /// that came before it. Nothing already in the log changes.
    pub fn append(&mut self, event: Event) -> (sequence_number: usize)
        ensures
            final(self)@ == old(self)@.push(event@),
            sequence_number == old(self)@.len(),
            sequence_number < usize::MAX,
    {
        let sequence_number: usize = self.events.len();
        self.events.push(event);
        assert(self.events.len() == sequence_number + 1);
        sequence_number
    }

    /// All events in the order in which they were appended. The log can be
    /// read from the start any number of times.
    pub fn read_all(&self) -> (events: &Vec<Event>)
        ensures
            views_of(events@) == self@,
    {
        &self.events
    }
}

} // verus!
