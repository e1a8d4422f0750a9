//! Sends plain-text events to a peer.
use vstd::prelude::*;
use tokio::sync::mpsc::Sender;
use tokio_tungstenite::tungstenite::Message;
use crate::error::RustWaveError;
use crate::wire::{event_frame, json_string, Request};

verus! {

#[derive(Clone)]
pub struct PeerEmitter {
    sender: Sender<Message>,
}

impl PeerEmitter {
    /// The channel that feeds the peer's socket.
    pub closed spec fn channel(&self) -> Sender<Message> {
        self.sender
    }

    pub fn new(sender: Sender<Message>) -> (e: Self)
        ensures
            e.channel() == sender,
    {
        PeerEmitter { sender }
    }

    /// The channel that feeds the peer's socket.
    pub fn sender(&self) -> (r: &Sender<Message>)
        ensures
            *r == self.channel(),
    {
        &self.sender
    }

    /// The message of `event` with the text `data` as a JSON string.
    pub fn emit(&mut self, event: &str, data: String) -> (r: Result<String, RustWaveError>)
        ensures
            r matches Ok(t) && t@ == event_frame(event@, json_string(data@)),
            final(self).channel() == old(self).channel(),
    {
        let request = Request { event: event.to_string(), data };
        request.encode()
    }
}

} // verus!
