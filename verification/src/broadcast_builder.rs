//! A broadcast that is being put together: to everyone, to a room, or to a
//! room but one socket.
use vstd::prelude::*;
use crate::error::RustWaveError;
use crate::server_states::{delivers, room_audience, Delivery, ServerStates};
use crate::wire::event_frame;

verus! {

/// What a builder holds besides its data: the event, the socket left out
/// and the room.
pub struct BroadcastView {
    pub event: Seq<char>,
    pub expect: Option<u128>,
    pub room: Option<Seq<char>>,
}

/// Who a broadcast reaches. Without a room it reaches every connected
/// socket, and a socket named by `expect` is not left out then.
pub open spec fn broadcast_audience(b: BroadcastView, states: crate::server_states::RegistryView) -> Set<u128> {
    match b.room {
        Some(room) => match b.expect {
            Some(id) => room_audience(states, room).remove(id),
            None => room_audience(states, room),
        },
        None => states.clients,
    }
}

pub struct BroadcastBuilder<T> {
    event: String,
    data: T,
    expect: Option<u128>,
    room: Option<String>,
}

impl<T> View for BroadcastBuilder<T> {
    type V = BroadcastView;

    closed spec fn view(&self) -> BroadcastView {
        BroadcastView {
            event: self.event@,
            expect: self.expect,
            room: match self.room {
                Some(r) => Some(r@),
                None => None,
            },
        }
    }
}

impl<T> BroadcastBuilder<T> {
    /// The data that the broadcast carries.
    pub closed spec fn payload(&self) -> T {
        self.data
    }

    /// A broadcast of `event` with `data` to every connected socket.
    pub(crate) fn new(event: String, data: T) -> (b: Self)
        ensures
            b@ == (BroadcastView { event: event@, expect: None, room: None }),
            b.payload() == data,
    {
        BroadcastBuilder { event, data, expect: None, room: None }
    }

    /// Leaves `socket_id` out; this only matters for a broadcast to a room.
    pub fn expect(self, socket_id: u128) -> (b: Self)
        ensures
            b@ == (BroadcastView { expect: Some(socket_id), ..self@ }),
            b.payload() == self.payload(),
    {
        let mut b = self;
        b.expect = Some(socket_id);
        b
    }

    /// Sends to the members of `room` only.
    pub fn room(self, room: &str) -> (b: Self)
        ensures
            b@ == (BroadcastView { room: Some(room@), ..self@ }),
            b.payload() == self.payload(),
    {
        let mut b = self;
        b.room = Some(room.to_string());
        b
    }

    /// The data that the broadcast carries, for the caller to write as JSON.
    pub fn data(&self) -> (r: &T)
        ensures
            *r == self.payload(),
    {
        &self.data
    }

    /// The message of the event with `data` (this builder's data written as
    /// JSON), and who it goes to.
    pub fn send(&self, states: &ServerStates, data: &str) -> (r: Result<Delivery, RustWaveError>)
        ensures
            r matches Ok(d) && delivers(d, event_frame(self@.event, data@), broadcast_audience(self@, states@)),
    {
        match &self.room {
            Some(v) => {
                match self.expect {
                    Some(id) => states.room_broadcast_except(v.as_str(), id, self.event.as_str(), data),
                    None => states.room_broadcast(v.as_str(), self.event.as_str(), data),
                }
            },
            None => states.broadcast(self.event.as_str(), data),
        }
    }
}

} // verus!
