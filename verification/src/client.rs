//! The client side: its event handlers, the messages it sends, and the
//! decisions of the task that reads its socket.
use vstd::prelude::*;
use crate::error::RustWaveError;
use crate::events::{handler_of, EventTable};
use crate::wire::{event_frame, json_string, Request};

verus! {

pub struct Client {
    events: EventTable,
}

impl Client {
    /// What answers which event.
    pub closed spec fn handlers(&self) -> Map<Seq<char>, u64> {
        self.events@
    }

    /// A client where no event has a handler yet.
    pub fn new() -> (c: Self)
        ensures
            c.handlers() == Map::<Seq<char>, u64>::empty(),
    {
        Client { events: EventTable::new() }
    }

    /// Makes `handler` answer `event` from now on.
    pub fn on(&mut self, event: &str, handler: u64)
        ensures
            final(self).handlers() == old(self).handlers().insert(event@, handler),
    {
        self.events.on(event, handler);
    }

    /// The handler that answers `event`, if any.
    pub fn handler_for(&self, event: &str) -> (r: Option<u64>)
        ensures
            r == handler_of(self.handlers(), event@),
    {
        self.events.handler_for(event)
    }

    /// The message of `event` with the text `data` as a JSON string.
    pub fn emit(&self, event: &str, data: String) -> (r: Result<String, RustWaveError>)
        ensures
            r matches Ok(t) && t@ == event_frame(event@, json_string(data@)),
    {
        let request = Request { event: event.to_string(), data };
        request.encode()
    }
}

/// What the client's reading task sees.
#[derive(Debug)]
pub enum ClientIncoming {
    /// A text message with the request it holds.
    Text(Request),
    /// Any other message.
    Other,
    /// Reading failed, or the socket has no more messages.
    Failed,
    /// The client was cancelled.
    Cancelled,
}

/// What the client's reading task does next.
#[derive(Debug)]
pub enum ClientStep {
    /// Run the handler with this number on this text.
    Invoke { handler: u64, data: String },
    /// Nothing; read on.
    Skip,
    /// Cancel the client, and read on until the cancellation is seen.
    Cancel,
    /// Run the handler with this number (that of the event `disconnect`) on
    /// empty text, then cancel the client as `Cancel` does.
    Farewell { handler: u64 },
    /// Stop reading.
    Stop,
}

/// The client's reading task: whether it has cancelled the client.
pub struct ClientSession {
    pub cancelled: bool,
}

/// What the client's reading task does on each thing it sees.
pub open spec fn client_step(cancelled: bool, handlers: Map<Seq<char>, u64>, input: ClientIncoming) -> (bool, ClientStep) {
    match input {
        ClientIncoming::Text(req) => (cancelled, match handler_of(handlers, req.event@) {
            Some(h) => ClientStep::Invoke { handler: h, data: req.data },
            None => ClientStep::Skip,
        }),
        ClientIncoming::Other => (cancelled, ClientStep::Skip),
        ClientIncoming::Failed => (true, if cancelled {
            ClientStep::Cancel
        } else {
            match handler_of(handlers, "disconnect"@) {
                Some(h) => ClientStep::Farewell { handler: h },
                None => ClientStep::Cancel,
            }
        }),
        ClientIncoming::Cancelled => (cancelled, ClientStep::Stop),
    }
}

impl ClientSession {
    pub fn new() -> (s: Self)
        ensures
            !s.cancelled,
    {
        ClientSession { cancelled: false }
    }

    /// Decides what to do with `input`, given the client's handlers.
    pub fn step(&mut self, client: &Client, input: ClientIncoming) -> (r: ClientStep)
        ensures
            (final(self).cancelled, r) == client_step(old(self).cancelled, client.handlers(), input),
    {
        match input {
            ClientIncoming::Text(req) => match client.handler_for(req.event.as_str()) {
                Some(h) => ClientStep::Invoke { handler: h, data: req.data },
                None => ClientStep::Skip,
            },
            ClientIncoming::Other => ClientStep::Skip,
            ClientIncoming::Failed => {
                let first = !self.cancelled;
                self.cancelled = true;
                if first {
                    match client.handler_for("disconnect") {
                        Some(h) => ClientStep::Farewell { handler: h },
                        None => ClientStep::Cancel,
                    }
                } else {
                    ClientStep::Cancel
                }
            },
            ClientIncoming::Cancelled => ClientStep::Stop,
        }
    }
}

} // verus!
