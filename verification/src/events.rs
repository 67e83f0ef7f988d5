//! The notification channel: one-way, fire-and-forget log events from the
//! core to the UI.
//!
//! Every event travels on the single channel named `"log"` and carries a
//! free-form string payload.  Delivery is best-effort — an absent UI is
//! not an error — but within one emission stream the payloads keep their
//! order, so the model is the sequence of payloads emitted so far.

use vstd::prelude::*;

verus! {

/// The payloads emitted on the "log" channel so far, oldest first.
#[derive(Debug)]
pub struct EventLog {
    pub entries: Vec<String>,
}

impl View for EventLog {
    type V = Seq<Seq<char>>;

    open spec fn view(&self) -> Seq<Seq<char>> {
        self.entries@.map_values(|s: String| s@)
    }
}

impl EventLog {
    /// An empty stream: nothing emitted yet.
    pub fn new() -> (r: EventLog)
        ensures
            r@ == Seq::<Seq<char>>::empty(),
    {
        let log = EventLog { entries: Vec::new() };
        proof {
            assert(log@ =~= Seq::<Seq<char>>::empty());
        }
        log
    }

    /// Emits one payload: appended at the end, nothing else moves.
    pub fn emit(&mut self, payload: String)
        ensures
            final(self)@ == old(self)@.push(payload@),
    {
        self.entries.push(payload);
        proof {
            assert(self@ =~= old(self)@.push(self.entries@.last()@));
        }
    }

    /// The name of the one channel every event travels on.
    pub fn channel() -> (r: &'static str)
        ensures
            r@ == "log"@,
    {
        "log"
    }

    /// How many events have been emitted.
    pub fn len(&self) -> (n: usize)
        ensures
            n == self@.len(),
    {
        self.entries.len()
    }
}

} // verus!
