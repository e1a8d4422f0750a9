//! The server's registry: which sockets are connected, and which sockets are
//! in which room. It decides who receives a broadcast; sending is left to the
//! caller, who gets the message text and the recipients.
use vstd::prelude::*;
use dashmap::{DashMap, DashSet};
use tokio::sync::mpsc::Sender;
use tokio_tungstenite::tungstenite::Message;
use crate::dash::{
    client_table, clients_contains, clients_insert, clients_keys, clients_len, clients_new,
    clients_remove, clients_sender, room_table, rooms_add_member, rooms_contains, rooms_members,
    rooms_new, rooms_open, rooms_remove_member,
};
use crate::error::RustWaveError;
use crate::socket_id::{socket_id_text, uuid_text};
use crate::wire::{encode_response, event_frame};

verus! {

/// What the registry holds: the connected socket ids, and each room with its
/// members.
pub struct RegistryView {
    pub clients: Set<u128>,
    pub rooms: Map<Seq<char>, Set<u128>>,
}

/// The members of a room; a room that was never joined has none.
pub open spec fn room_members(v: RegistryView, room: Seq<char>) -> Set<u128> {
    if v.rooms.contains_key(room) {
        v.rooms[room]
    } else {
        Set::empty()
    }
}

/// Who a broadcast to a room reaches: its members that are connected.
pub open spec fn room_audience(v: RegistryView, room: Seq<char>) -> Set<u128> {
    room_members(v, room).intersect(v.clients)
}

/// The registry after a socket connects.
pub open spec fn with_client(v: RegistryView, id: u128) -> RegistryView {
    RegistryView { clients: v.clients.insert(id), rooms: v.rooms }
}

/// The registry after a socket is forgotten as connected; its rooms stay.
pub open spec fn without_client(v: RegistryView, id: u128) -> RegistryView {
    RegistryView { clients: v.clients.remove(id), rooms: v.rooms }
}

/// The registry after a socket joins a room; a room is made on first join.
pub open spec fn joined(v: RegistryView, room: Seq<char>, id: u128) -> RegistryView {
    RegistryView { clients: v.clients, rooms: v.rooms.insert(room, room_members(v, room).insert(id)) }
}

/// The registry after a socket leaves a room; the room stays, even empty, and
/// leaving a room that does not exist changes nothing.
pub open spec fn left(v: RegistryView, room: Seq<char>, id: u128) -> RegistryView {
    if v.rooms.contains_key(room) {
        RegistryView { clients: v.clients, rooms: v.rooms.insert(room, v.rooms[room].remove(id)) }
    } else {
        v
    }
}

/// The registry after a socket goes away: it is no longer connected, and it
/// leaves each of the rooms named in `names`.
pub open spec fn released(v: RegistryView, id: u128, names: Set<Seq<char>>) -> RegistryView {
    RegistryView {
        clients: v.clients.remove(id),
        rooms: Map::new(
            |r: Seq<char>| v.rooms.contains_key(r),
            |r: Seq<char>|
                if names.contains(r) {
                    v.rooms[r].remove(id)
                } else {
                    v.rooms[r]
                },
        ),
    }
}

/// A message to hand to a set of sockets.
#[derive(Debug)]
pub struct Delivery {
    pub text: String,
    pub recipients: Vec<u128>,
}

/// `d` carries `text` to exactly the sockets in `to`, each once.
pub open spec fn delivers(d: Delivery, text: Seq<char>, to: Set<u128>) -> bool {
    &&& d.text@ == text
    &&& d.recipients@.no_duplicates()
    &&& forall|x: u128| d.recipients@.contains(x) <==> to.contains(x)
}

/// The connected sockets and the rooms of a server.
pub struct ServerStates {
    clients: DashMap<u128, Sender<Message>>,
    rooms: DashMap<String, DashSet<u128>>,
}

impl View for ServerStates {
    type V = RegistryView;

    closed spec fn view(&self) -> RegistryView {
        RegistryView { clients: client_table(self.clients).dom(), rooms: room_table(self.rooms) }
    }
}

impl ServerStates {
    /// Every registry holds finitely many connected sockets.
    #[verifier::type_invariant]
    spec fn finite_clients(self) -> bool {
        client_table(self.clients).dom().finite()
    }

    /// The registry holds finitely many connected sockets; this holds of every
    /// registry, and the functions that take one say so.
    pub open spec fn wf(&self) -> bool {
        self@.clients.finite()
    }

    /// The sender stored with each connected socket.
    pub closed spec fn channels(&self) -> Map<u128, Sender<Message>> {
        client_table(self.clients)
    }

    /// The connected sockets are exactly those with a stored sender.
    pub proof fn lemma_channels_are_clients(&self)
        ensures
            self.channels().dom() == self@.clients,
    {
    }

    /// A registry with no socket and no room.
    pub fn new() -> (s: Self)
        ensures
            s.wf(),
            s@.clients == Set::<u128>::empty(),
            s@.rooms == Map::<Seq<char>, Set<u128>>::empty(),
            s.channels() == Map::<u128, Sender<Message>>::empty(),
    {
        ServerStates { clients: clients_new(), rooms: rooms_new() }
    }

    /// Records `id` as connected, reached through `sender`.
    pub fn insert_client(&mut self, id: u128, sender: Sender<Message>)
        ensures
            final(self).wf(),
            final(self)@ == with_client(old(self)@, id),
            final(self).channels() == old(self).channels().insert(id, sender),
    {
        proof {
            use_type_invariant(&*self);
        }
        let mut clients = clients_new();
        std::mem::swap(&mut clients, &mut self.clients);
        clients_insert(&mut clients, id, sender);
        self.clients = clients;
    }

    /// Forgets `id` as connected; its room memberships stay.
    pub fn remove_client(&mut self, id: u128)
        ensures
            final(self).wf(),
            final(self)@ == without_client(old(self)@, id),
            final(self).channels() == old(self).channels().remove(id),
    {
        proof {
            use_type_invariant(&*self);
        }
        let mut clients = clients_new();
        std::mem::swap(&mut clients, &mut self.clients);
        clients_remove(&mut clients, id);
        self.clients = clients;
    }

    /// Puts `id` into `room`, making the room if it does not exist.
    pub fn insert_room(&mut self, room: &str, id: u128)
        ensures
            final(self).wf(),
            final(self)@ == joined(old(self)@, room@, id),
            final(self).channels() == old(self).channels(),
    {
        proof {
            use_type_invariant(&*self);
        }
        let mut rooms = rooms_new();
        std::mem::swap(&mut rooms, &mut self.rooms);
        if !rooms_contains(&rooms, room) {
            rooms_open(&mut rooms, room);
        }
        rooms_add_member(&mut rooms, room, id);
        self.rooms = rooms;
        proof {
            assert(room_table(self.rooms) =~= joined(old(self)@, room@, id).rooms);
        }
    }

    /// Takes `id` out of `room`, if the room exists.
    pub fn remove_room(&mut self, room: &str, id: u128)
        ensures
            final(self).wf(),
            final(self)@ == left(old(self)@, room@, id),
            final(self).channels() == old(self).channels(),
    {
        proof {
            use_type_invariant(&*self);
        }
        if rooms_contains(&self.rooms, room) {
            let mut rooms = rooms_new();
            std::mem::swap(&mut rooms, &mut self.rooms);
            rooms_remove_member(&mut rooms, room, id);
            self.rooms = rooms;
        }
    }

    /// The connected members of `room`, without `except` when it is given.
    fn audience(&self, room: &str, except: Option<u128>) -> (r: Vec<u128>)
        ensures
            r@.no_duplicates(),
            forall|x: u128|
                r@.contains(x) <==> (room_audience(self@, room@).contains(x) && except != Some(x)),
    {
        let mut out: Vec<u128> = Vec::new();
        if !rooms_contains(&self.rooms, room) {
            assert(room_audience(self@, room@) =~= Set::empty());
            return out;
        }
        let members = rooms_members(&self.rooms, room);
        let ghost all = room_table(self.rooms)[room@];
        let mut i: usize = 0;
        while i < members.len()
            invariant
                i <= members@.len(),
                members@.no_duplicates(),
                forall|x: u128| members@.contains(x) <==> all.contains(x),
                all == room_members(self@, room@),
                out@.no_duplicates(),
                forall|x: u128|
                    out@.contains(x) <==> (members@.take(i as int).contains(x) && self@.clients.contains(
                        x,
                    ) && except != Some(x)),
            decreases members@.len() - i,
        {
            let id: u128 = members[i];
            let skip = match except {
                Some(e) => e == id,
                None => false,
            };
            let ghost before = out@;
            let keep = !skip && clients_contains(&self.clients, id);
            if keep {
                assert(!members@.take(i as int).contains(id)) by {
                    if members@.take(i as int).contains(id) {
                        let k: int = choose|k: int| 0 <= k < i && members@.take(i as int)[k] == id;
                        assert(members@[k] == members@[i as int]);
                    }
                }
                out.push(id);
                assert(out@ == before.push(id));
                assert(!before.contains(id));
                assert(out@.no_duplicates()) by {
                    assert forall|a: int, b: int| 0 <= a < b < out@.len() implies out@[a] != out@[b] by {
                        if b == out@.len() - 1 {
                            assert(before.contains(before[a]));
                        }
                    }
                }
            }
            proof {
                let t = members@.take(i as int);
                let t1 = members@.take(i as int + 1);
                assert(t1 == t.push(id));
                assert(self@.clients == client_table(self.clients).dom());
                assert(skip <==> except == Some(id));
                assert(keep <==> (self@.clients.contains(id) && except != Some(id)));
                assert(!keep ==> out@ == before);
                assert forall|x: u128|
                    out@.contains(x) <==> (t1.contains(x) && self@.clients.contains(x) && except
                        != Some(x)) by {
                    if x == id {
                        assert(t1[i as int] == id);
                        if keep {
                            assert(out@[out@.len() - 1] == x);
                        }
                    } else {
                        if t1.contains(x) {
                            let k: int = choose|k: int| 0 <= k < t1.len() && t1[k] == x;
                            assert(t[k] == x);
                        }
                        if t.contains(x) {
                            let k: int = choose|k: int| 0 <= k < t.len() && t[k] == x;
                            assert(t1[k] == x);
                        }
                        if keep && before.contains(x) {
                            let k: int = choose|k: int| 0 <= k < before.len() && before[k] == x;
                            assert(out@[k] == x);
                        }
                        if keep && out@.contains(x) {
                            let k: int = choose|k: int| 0 <= k < out@.len() && out@[k] == x;
                            assert(before[k] == x);
                        }
                    }
                }
            }
            i = i + 1;
        }
        assert(members@.take(members@.len() as int) =~= members@);
        out
    }

    /// The message of `event` with `data` (a JSON value written as text), for
    /// every connected member of `room`. It always succeeds.
    pub fn room_broadcast(&self, room: &str, event: &str, data: &str) -> (r: Result<
        Delivery,
        RustWaveError,
    >)
        ensures
            r matches Ok(d) && delivers(d, event_frame(event@, data@), room_audience(self@, room@)),
    {
        let text = encode_response(event, data)?;
        let recipients = self.audience(room, None);
        Ok(Delivery { text, recipients })
    }

    /// As `room_broadcast`, but never to `socket_id`.
    pub fn room_broadcast_except(&self, room: &str, socket_id: u128, event: &str, data: &str) -> (r:
        Result<Delivery, RustWaveError>)
        ensures
            r matches Ok(d) && delivers(
                d,
                event_frame(event@, data@),
                room_audience(self@, room@).remove(socket_id),
            ),
    {
        let text = encode_response(event, data)?;
        let recipients = self.audience(room, Some(socket_id));
        proof {
            assert forall|x: u128|
                recipients@.contains(x) <==> room_audience(self@, room@).remove(
                    socket_id,
                ).contains(x) by {}
        }
        Ok(Delivery { text, recipients })
    }

    /// The message of `event` with `data` for every connected socket.
    pub fn broadcast(&self, event: &str, data: &str) -> (r: Result<Delivery, RustWaveError>)
        ensures
            r matches Ok(d) && delivers(d, event_frame(event@, data@), self@.clients),
    {
        let text = encode_response(event, data)?;
        let recipients = clients_keys(&self.clients);
        Ok(Delivery { text, recipients })
    }

    /// The message of `event` with `data` for `socket_id` alone, where `data`
    /// is the outcome of writing the message's data as JSON. A socket that is
    /// not connected is an error that names it, checked before anything else;
    /// then a failure to write the data is reported as it came, and otherwise
    /// it succeeds.
    pub fn emit_to(
        &self,
        socket_id: u128,
        event: &str,
        data: Result<String, serde_json::Error>,
    ) -> (r: Result<Delivery, RustWaveError>)
        ensures
            !self@.clients.contains(socket_id) <==> (r matches Err(
                RustWaveError::ClientNotFound(t),
            ) && t@ == uuid_text(socket_id)),
            self@.clients.contains(socket_id) ==> match data {
                Err(e) => r matches Err(RustWaveError::Json(f)) && f == e,
                Ok(json) => r matches Ok(d) && delivers(d, event_frame(event@, json@), set![socket_id]),
            },
    {
        if !clients_contains(&self.clients, socket_id) {
            return Err(RustWaveError::ClientNotFound(socket_id_text(socket_id)));
        }
        let data = match data {
            Ok(json) => json,
            Err(e) => return Err(RustWaveError::Json(e)),
        };
        let text = encode_response(event, data.as_str())?;
        let mut recipients: Vec<u128> = Vec::new();
        recipients.push(socket_id);
        proof {
            assert(recipients@ =~= seq![socket_id]);
            assert forall|x: u128| recipients@.contains(x) <==> set![socket_id].contains(x) by {
                if x == socket_id {
                    assert(recipients@[0] == x);
                }
            }
        }
        Ok(Delivery { text, recipients })
    }

    /// What `emit_to` reports once its message was handed to the socket's
    /// channel, or could not be because the channel is closed.
    pub fn emit_to_outcome(sent: bool) -> (r: Result<(), RustWaveError>)
        ensures
            sent <==> r is Ok,
            !sent ==> r matches Err(RustWaveError::ConnectionClosed),
    {
        if sent {
            Ok(())
        } else {
            Err(RustWaveError::ConnectionClosed)
        }
    }

    /// Whether `socket_id` is connected.
    pub fn is_connected(&self, socket_id: u128) -> (r: bool)
        ensures
            r == self@.clients.contains(socket_id),
    {
        clients_contains(&self.clients, socket_id)
    }

    /// How many sockets are connected.
    pub fn get_client_count(&self) -> (r: usize)
        ensures
            self.wf(),
            r as nat == self@.clients.len(),
    {
        proof {
            use_type_invariant(self);
        }
        clients_len(&self.clients)
    }

    /// The socket to which a close frame goes, or an error that names a
    /// socket that is not connected.
    pub fn disconnect(&self, socket_id: u128) -> (r: Result<u128, RustWaveError>)
        ensures
            self@.clients.contains(socket_id) <==> r == Ok::<u128, RustWaveError>(socket_id),
            !self@.clients.contains(socket_id) ==> (r matches Err(RustWaveError::ClientNotFound(t))
                && t@ == uuid_text(socket_id)),
    {
        if clients_contains(&self.clients, socket_id) {
            Ok(socket_id)
        } else {
            Err(RustWaveError::ClientNotFound(socket_id_text(socket_id)))
        }
    }

    /// Every connected socket, each once: those to which a close frame goes.
    pub fn disconnect_all(&self) -> (r: Vec<u128>)
        ensures
            r@.no_duplicates(),
            forall|x: u128| r@.contains(x) <==> self@.clients.contains(x),
    {
        clients_keys(&self.clients)
    }

    /// The channel through which a connected socket is reached: the sender
    /// stored with it by `insert_client`.
    pub fn sender_of(&self, socket_id: u128) -> (r: Sender<Message>)
        requires
            self@.clients.contains(socket_id),
        ensures
            r == self.channels()[socket_id],
    {
        clients_sender(&self.clients, socket_id)
    }

    /// Forgets `socket_id` as connected and takes it out of each room named in
    /// `rooms`.
    pub fn release(&mut self, socket_id: u128, rooms: &Vec<String>)
        ensures
            final(self).wf(),
            final(self)@ == released(
                old(self)@,
                socket_id,
                Set::new(|r: Seq<char>| exists|i: int| 0 <= i < rooms@.len() && rooms@[i]@ == r),
            ),
            final(self).channels() == old(self).channels().remove(socket_id),
    {
        let ghost names = Set::new(
            |r: Seq<char>| exists|i: int| 0 <= i < rooms@.len() && rooms@[i]@ == r,
        );
        self.remove_client(socket_id);
        let ghost start = self@;
        let mut i: usize = 0;
        while i < rooms.len()
            invariant
                i <= rooms@.len(),
                self.wf(),
                self.channels() == old(self).channels().remove(socket_id),
                self@.clients == old(self)@.clients.remove(socket_id),
                self@.rooms.dom() == start.rooms.dom(),
                start.rooms == old(self)@.rooms,
                forall|r: Seq<char>|
                    #![trigger self@.rooms[r]]
                    self@.rooms.contains_key(r) ==> self@.rooms[r] == (if exists|k: int|
                        0 <= k < i && rooms@[k]@ == r {
                        start.rooms[r].remove(socket_id)
                    } else {
                        start.rooms[r]
                    }),
            decreases rooms@.len() - i,
        {
            let ghost before = self@;
            self.remove_room(rooms[i].as_str(), socket_id);
            proof {
                assert forall|r: Seq<char>| #![trigger self@.rooms[r]]
                    self@.rooms.contains_key(r) implies self@.rooms[r] == (if exists|k: int|
                        0 <= k < i + 1 && rooms@[k]@ == r {
                        start.rooms[r].remove(socket_id)
                    } else {
                        start.rooms[r]
                    }) by {
                    if r == rooms@[i as int]@ {
                        assert(exists|k: int| 0 <= k < i + 1 && rooms@[k]@ == r);
                    } else {
                        if exists|k: int| 0 <= k < i + 1 && rooms@[k]@ == r {
                            let k: int = choose|k: int| 0 <= k < i + 1 && rooms@[k]@ == r;
                            assert(0 <= k < i);
                        }
                    }
                }
            }
            i = i + 1;
        }
        proof {
            assert(self@.rooms =~= released(old(self)@, socket_id, names).rooms);
            assert(self@ == released(old(self)@, socket_id, names));
        }
    }
}

} // verus!
