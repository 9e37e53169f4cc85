//! Trace-event identifiers: a monotonically increasing counter whose values
//! tag the emitted render-stage events.

use vstd::prelude::*;

verus! {

/// A counter of trace event identifiers, starting at one so that zero never
/// names an event.
pub struct EventIdCounter {
    /// The identifier the next event will get.
    pub next_id: u64,
}

impl EventIdCounter {
    /// A fresh counter: the first event gets identifier one.
    pub fn new() -> (r: EventIdCounter)
        ensures
            r.next_id == 1,
    {
        EventIdCounter { next_id: 1 }
    }

    /// Returns the next unique event identifier: each call returns one more
    /// than the last, and never zero.
    pub fn get_next_event_id(&mut self) -> (r: u64)
        requires
            old(self).next_id < u64::MAX,
        ensures
            r == old(self).next_id,
            final(self).next_id == old(self).next_id + 1,
    {
        let r = self.next_id;
        self.next_id = self.next_id + 1;
        r
    }
}

} // verus!
