//! Which handler answers which event name. The handlers themselves are code
//! of the caller; the table keeps, for each event name, the number under
//! which the caller keeps its handler.
use vstd::prelude::*;
use dashmap::DashMap;
use crate::dash::{handler_table, handlers_contains, handlers_get, handlers_insert, handlers_new};

verus! {

/// The handler number that answers `event`, if any.
pub open spec fn handler_of(table: Map<Seq<char>, u64>, event: Seq<char>) -> Option<u64> {
    if table.contains_key(event) {
        Some(table[event])
    } else {
        None
    }
}

/// Event name -> handler number; a later registration replaces an earlier one.
pub struct EventTable {
    handlers: DashMap<String, u64>,
}

impl View for EventTable {
    type V = Map<Seq<char>, u64>;

    closed spec fn view(&self) -> Map<Seq<char>, u64> {
        handler_table(self.handlers)
    }
}

impl EventTable {
    /// A table where no event has a handler.
    pub fn new() -> (t: Self)
        ensures
            t@ == Map::<Seq<char>, u64>::empty(),
    {
        EventTable { handlers: handlers_new() }
    }

    /// Makes `handler` answer `event`, replacing what answered it before.
    pub fn on(&mut self, event: &str, handler: u64)
        ensures
            final(self)@ == old(self)@.insert(event@, handler),
    {
        handlers_insert(&mut self.handlers, event, handler);
    }

    /// The handler that answers `event`, if any.
    pub fn handler_for(&self, event: &str) -> (r: Option<u64>)
        ensures
            r == handler_of(self@, event@),
    {
        if handlers_contains(&self.handlers, event) {
            Some(handlers_get(&self.handlers, event))
        } else {
            None
        }
    }
}

} // verus!
