//! A connected socket as the server's connection handler sees it: its id,
//! its event handlers, and the rooms it joined itself.
use vstd::prelude::*;
use dashmap::DashSet;
use tokio::sync::mpsc::Sender;
use tokio_tungstenite::tungstenite::Message;
use crate::dash::{name_set, names_contains, names_insert, names_list, names_new, names_remove};
use crate::error::RustWaveError;
use crate::events::{handler_of, EventTable};
use crate::server_states::{joined, left, ServerStates};
use crate::socket_id::{fresh_socket_id, is_random_uuid};
use crate::wire::{encode_response, event_frame};

verus! {

/// What a peer holds: its socket id, its event handlers and its own rooms.
pub struct PeerView {
    pub socket_id: u128,
    pub handlers: Map<Seq<char>, u64>,
    pub rooms: Set<Seq<char>>,
}

/// `names` lists, each once, exactly the names in `set`.
pub open spec fn lists_names(names: Seq<String>, set: Set<Seq<char>>) -> bool {
    &&& forall|i: int, j: int| 0 <= i < j < names.len() ==> names[i]@ != names[j]@
    &&& forall|x: Seq<char>| set.contains(x) <==> exists|i: int| 0 <= i < names.len() && names[i]@ == x
}

pub struct Peer {
    socket_id: u128,
    sender: Sender<Message>,
    events: EventTable,
    rooms: DashSet<String>,
}

impl View for Peer {
    type V = PeerView;

    closed spec fn view(&self) -> PeerView {
        PeerView { socket_id: self.socket_id, handlers: self.events@, rooms: name_set(self.rooms) }
    }
}

impl Peer {
    /// The channel that feeds this peer's socket.
    pub closed spec fn channel(&self) -> Sender<Message> {
        self.sender
    }

    /// A peer with a fresh random socket id, no handler and no room, reached
    /// through `sender`.
    pub fn new(sender: Sender<Message>) -> (p: Self)
        ensures
            is_random_uuid(p@.socket_id),
            p@.handlers == Map::<Seq<char>, u64>::empty(),
            p@.rooms == Set::<Seq<char>>::empty(),
            p.channel() == sender,
    {
        Peer::with_id(fresh_socket_id(), sender)
    }

    /// A peer with the socket id `socket_id`, no handler and no room, reached
    /// through `sender`.
    pub fn with_id(socket_id: u128, sender: Sender<Message>) -> (p: Self)
        ensures
            p@.socket_id == socket_id,
            p@.handlers == Map::<Seq<char>, u64>::empty(),
            p@.rooms == Set::<Seq<char>>::empty(),
            p.channel() == sender,
    {
        Peer { socket_id, sender, events: EventTable::new(), rooms: names_new() }
    }

    pub fn get_socket_id(&self) -> (r: u128)
        ensures
            r == self@.socket_id,
    {
        self.socket_id
    }

    /// The rooms this peer is in at this moment, having joined them through
    /// `join_room` and not left them; each is listed once. The list is a copy:
    /// it does not follow later joins and leaves.
    pub fn rooms(&self) -> (r: Vec<String>)
        ensures
            lists_names(r@, self@.rooms),
    {
        names_list(&self.rooms)
    }

    /// Whether this peer is in `room` at this moment, having joined it through
    /// `join_room`.
    pub fn in_room(&self, room: &str) -> (r: bool)
        ensures
            r == self@.rooms.contains(room@),
    {
        names_contains(&self.rooms, room)
    }

    /// The handler that answers `event`, if any.
    pub fn handler_for(&self, event: &str) -> (r: Option<u64>)
        ensures
            r == handler_of(self@.handlers, event@),
    {
        self.events.handler_for(event)
    }

    /// The event table, shared with the task that reads this peer's socket.
    pub fn get_event(&self) -> (r: &EventTable)
        ensures
            r@ == self@.handlers,
    {
        &self.events
    }

    /// Makes `handler` answer `event` from now on.
    pub fn on(&mut self, event: &str, handler: u64)
        ensures
            final(self)@ == (PeerView { handlers: old(self)@.handlers.insert(event@, handler), ..old(self)@ }),
            final(self).channel() == old(self).channel(),
    {
        self.events.on(event, handler);
    }

    /// The message of `event` with `data` (a JSON value written as text) for
    /// this peer's socket.
    pub fn emit(&self, event: &str, data: &str) -> (r: Result<String, RustWaveError>)
        ensures
            r matches Ok(t) && t@ == event_frame(event@, data@),
    {
        encode_response(event, data)
    }

    /// The channel that feeds this peer's socket.
    pub fn sender(&self) -> (r: &Sender<Message>)
        ensures
            *r == self.channel(),
    {
        &self.sender
    }

    /// Puts this peer into `room`, in the server's registry and in its own rooms.
    pub fn join_room(&mut self, states: &mut ServerStates, room: &str)
        ensures
            final(states).wf(),
            final(states)@ == joined(old(states)@, room@, old(self)@.socket_id),
            final(states).channels() == old(states).channels(),
            final(self)@ == (PeerView { rooms: old(self)@.rooms.insert(room@), ..old(self)@ }),
            final(self).channel() == old(self).channel(),
    {
        states.insert_room(room, self.socket_id);
        names_insert(&mut self.rooms, room);
    }

    /// Takes this peer out of `room`, in the server's registry and in its own rooms.
    pub fn leave_room(&mut self, states: &mut ServerStates, room: &str)
        ensures
            final(states).wf(),
            final(states)@ == left(old(states)@, room@, old(self)@.socket_id),
            final(states).channels() == old(states).channels(),
            final(self)@ == (PeerView { rooms: old(self)@.rooms.remove(room@), ..old(self)@ }),
            final(self).channel() == old(self).channel(),
    {
        states.remove_room(room, self.socket_id);
        names_remove(&mut self.rooms, room);
    }
}

} // verus!
