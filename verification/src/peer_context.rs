//! What an event handler gets: the socket id of the peer whose message it
//! answers, its channel, and access to rooms and broadcasts.
use vstd::prelude::*;
use tokio::sync::mpsc::Sender;
use tokio_tungstenite::tungstenite::Message;
use crate::broadcast_builder::{BroadcastBuilder, BroadcastView};
use crate::error::RustWaveError;
use crate::server_states::{delivers, joined, left, room_audience, Delivery, ServerStates};
use crate::wire::{encode_response, event_frame};

verus! {

#[derive(Clone)]
pub struct PeerContext {
    socket_id: u128,
    sender: Sender<Message>,
}

impl PeerContext {
    /// The socket id of the peer.
    pub closed spec fn id(&self) -> u128 {
        self.socket_id
    }

    /// The channel that feeds the peer's socket.
    pub closed spec fn channel(&self) -> Sender<Message> {
        self.sender
    }

    pub fn new(socket_id: u128, sender: Sender<Message>) -> (c: Self)
        ensures
            c.id() == socket_id,
            c.channel() == sender,
    {
        PeerContext { socket_id, sender }
    }

    pub fn get_socket_id(&self) -> (r: u128)
        ensures
            r == self.id(),
    {
        self.socket_id
    }

    /// The channel that feeds the peer's socket.
    pub fn sender(&self) -> (r: &Sender<Message>)
        ensures
            *r == self.channel(),
    {
        &self.sender
    }

    /// The message of `event` with `data` (a JSON value written as text) for
    /// the peer's socket.
    pub fn emit(&self, event: &str, data: &str) -> (r: Result<String, RustWaveError>)
        ensures
            r matches Ok(t) && t@ == event_frame(event@, data@),
    {
        encode_response(event, data)
    }

    /// Puts the peer into `room` in the server's registry. The peer's own
    /// list of rooms is not touched, so leaving the connection does not take
    /// the peer out of a room joined this way.
    pub fn join_room(&self, states: &mut ServerStates, room: &str)
        ensures
            final(states).wf(),
            final(states)@ == joined(old(states)@, room@, self.id()),
            final(states).channels() == old(states).channels(),
    {
        states.insert_room(room, self.socket_id);
    }

    /// Takes the peer out of `room` in the server's registry.
    pub fn leave_room(&self, states: &mut ServerStates, room: &str)
        ensures
            final(states).wf(),
            final(states)@ == left(old(states)@, room@, self.id()),
            final(states).channels() == old(states).channels(),
    {
        states.remove_room(room, self.socket_id);
    }

    /// A broadcast of `event` with `data`, to every connected socket until
    /// the builder says otherwise.
    pub fn broadcast<T>(&self, event: &str, data: T) -> (b: BroadcastBuilder<T>)
        ensures
            b@ == (BroadcastView { event: event@, expect: None, room: None }),
            b.payload() == data,
    {
        BroadcastBuilder::new(event.to_string(), data)
    }

    /// The message of `event` with `data` for every connected member of `room`.
    pub fn broadcast_to(&self, states: &ServerStates, room: &str, event: &str, data: &str) -> (r:
        Result<Delivery, RustWaveError>)
        ensures
            r matches Ok(d) && delivers(d, event_frame(event@, data@), room_audience(states@, room@)),
    {
        states.room_broadcast(room, event, data)
    }

    /// As `broadcast_to`, but never to `socket_id`.
    pub fn broadcast_to_expect(
        &self,
        states: &ServerStates,
        room: &str,
        socket_id: u128,
        event: &str,
        data: &str,
    ) -> (r: Result<Delivery, RustWaveError>)
        ensures
            r matches Ok(d) && delivers(
                d,
                event_frame(event@, data@),
                room_audience(states@, room@).remove(socket_id),
            ),
    {
        states.room_broadcast_except(room, socket_id, event, data)
    }
}

} // verus!
