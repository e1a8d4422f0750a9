//! The decisions of a server connection. The task that reads a socket feeds
//! each thing it sees to `PeerSession::step` and does what comes back; the
//! task that writes the socket asks `writer_step`; when reading stops,
//! `PeerSession::close` forgets the peer and names the farewell handler.
use vstd::prelude::*;
use crate::events::{handler_of, EventTable};
use crate::peer::Peer;
use crate::server_states::{released, ServerStates};
use crate::wire::Request;

verus! {

/// What the reading task sees on a socket.
#[derive(Debug)]
pub enum Incoming {
    /// A text message, with the request it holds, or `None` where the text
    /// is not a request.
    Text(Option<Request>),
    /// A ping with its payload.
    Ping(Vec<u8>),
    /// Whether the pong that answers a ping reached the socket's channel.
    PongSent(bool),
    /// A close frame.
    Close,
    /// Any other frame.
    Other,
    /// Reading the socket failed.
    ReadFailed,
    /// The socket has no more messages.
    Ended,
    /// The connection was cancelled.
    Cancelled,
}

/// What the reading task does next.
#[derive(Debug)]
pub enum Step {
    /// Run the handler with this number on this text.
    Invoke { handler: u64, data: String },
    /// Nothing; read on.
    Skip,
    /// Answer with a pong that carries this payload.
    Pong(Vec<u8>),
    /// Send the close frame back, then stop reading.
    EchoClose,
    /// Stop reading.
    Finish,
}

/// Whether a server connection is still being read.
pub struct PeerSession {
    pub open: bool,
}

/// The step for a text message while reading: the handler of its event, if
/// the text is a request and the event has one.
pub open spec fn text_step(handlers: Map<Seq<char>, u64>, request: Option<Request>) -> Step {
    match request {
        Some(req) => match handler_of(handlers, req.event@) {
            Some(h) => Step::Invoke { handler: h, data: req.data },
            None => Step::Skip,
        },
        None => Step::Skip,
    }
}

/// What a server connection does on each thing it sees: the next state
/// (whether it is still read) and the step.
pub open spec fn session_step(open: bool, handlers: Map<Seq<char>, u64>, input: Incoming) -> (bool, Step) {
    if !open {
        (false, Step::Finish)
    } else {
        match input {
            Incoming::Text(request) => (true, text_step(handlers, request)),
            Incoming::Ping(payload) => (true, Step::Pong(payload)),
            Incoming::PongSent(sent) => if sent {
                (true, Step::Skip)
            } else {
                (false, Step::Finish)
            },
            Incoming::Close => (false, Step::EchoClose),
            Incoming::Other => (true, Step::Skip),
            Incoming::ReadFailed => (false, Step::Finish),
            Incoming::Ended => (false, Step::Finish),
            Incoming::Cancelled => (false, Step::Finish),
        }
    }
}

impl PeerSession {
    /// A connection that is being read.
    pub fn new() -> (s: Self)
        ensures
            s.open,
    {
        PeerSession { open: true }
    }

    /// Decides what to do with `input`, given the peer's event table.
    pub fn step(&mut self, events: &EventTable, input: Incoming) -> (r: Step)
        ensures
            (final(self).open, r) == session_step(old(self).open, events@, input),
    {
        if !self.open {
            return Step::Finish;
        }
        match input {
            Incoming::Text(request) => match request {
                Some(req) => match events.handler_for(req.event.as_str()) {
                    Some(h) => Step::Invoke { handler: h, data: req.data },
                    None => Step::Skip,
                },
                None => Step::Skip,
            },
            Incoming::Ping(payload) => Step::Pong(payload),
            Incoming::PongSent(sent) => {
                if !sent {
                    self.open = false;
                    Step::Finish
                } else {
                    Step::Skip
                }
            },
            Incoming::Close => {
                self.open = false;
                Step::EchoClose
            },
            Incoming::Other => Step::Skip,
            Incoming::ReadFailed | Incoming::Ended | Incoming::Cancelled => {
                self.open = false;
                Step::Finish
            },
        }
    }

    /// Ends the connection of `peer`: it is no longer connected and it leaves
    /// the rooms it joined itself; then the handler of the event `disconnect`
    /// runs, with empty text, if there is one.
    pub fn close(&mut self, peer: &Peer, states: &mut ServerStates) -> (r: Step)
        ensures
            !final(self).open,
            final(states).wf(),
            final(states)@ == released(old(states)@, peer@.socket_id, peer@.rooms),
            final(states).channels() == old(states).channels().remove(peer@.socket_id),
            match r {
                Step::Invoke { handler, data } => handler_of(peer@.handlers, "disconnect"@) == Some(
                    handler,
                ) && data@ == Seq::<char>::empty(),
                Step::Skip => handler_of(peer@.handlers, "disconnect"@) is None,
                _ => false,
            },
    {
        self.open = false;
        let rooms = peer.rooms();
        states.release(peer.get_socket_id(), &rooms);
        proof {
            let names = Set::new(|r: Seq<char>| exists|i: int| 0 <= i < rooms@.len() && rooms@[i]@ == r);
            assert(names =~= peer@.rooms);
        }
        match peer.handler_for("disconnect") {
            Some(h) => Step::Invoke { handler: h, data: String::new() },
            None => Step::Skip,
        }
    }
}

/// What the writing task sees.
#[derive(Debug)]
pub enum WriterEvent {
    /// A queued message was written to the socket.
    Written,
    /// Writing a queued message to the socket failed.
    WriteFailed,
    /// No sender of the queue is left.
    QueueClosed,
    /// The connection was cancelled.
    Cancelled,
}

/// What the writing task does next.
#[derive(Debug)]
pub enum WriterStep {
    /// Wait for the next queued message.
    Continue,
    /// Cancel the connection, then stop.
    CancelAndStop,
    /// Stop.
    Stop,
}

/// A failure to write and an emptied queue cancel the connection; a
/// cancellation stops the writer; a written message lets it go on.
pub fn writer_step(event: WriterEvent) -> (r: WriterStep)
    ensures
        event is Written <==> r is Continue,
        (event is WriteFailed || event is QueueClosed) <==> r is CancelAndStop,
        event is Cancelled <==> r is Stop,
{
    match event {
        WriterEvent::Written => WriterStep::Continue,
        WriterEvent::WriteFailed => WriterStep::CancelAndStop,
        WriterEvent::QueueClosed => WriterStep::CancelAndStop,
        WriterEvent::Cancelled => WriterStep::Stop,
    }
}

} // verus!
