//! What holds of the library across calls: rooms, connections, cleanup,
//! event registration, and the connection state machines.
use vstd::prelude::*;
use crate::broadcast_builder::{broadcast_audience, BroadcastView};
use crate::client::{client_step, ClientIncoming, ClientStep};
use crate::events::handler_of;
use crate::server_states::{
    delivers, joined, left, released, room_audience, room_members, with_client, without_client,
    Delivery, RegistryView,
};
use crate::session::{session_step, text_step, Incoming, Step};
use crate::wire::Request;
use crate::wire::{frame_of, hex_digit, json_escape, json_escape_char, json_string};

verus! {

/// Every room in which `id` is a member is named in `names`: the peer's own
/// list of rooms records all its memberships.
pub open spec fn memberships_recorded(v: RegistryView, names: Set<Seq<char>>, id: u128) -> bool {
    forall|r: Seq<char>| #[trigger] room_members(v, r).contains(id) ==> names.contains(r)
}

/// After a socket joins a room it is a member of that room, and the
/// connected sockets are the same.
pub proof fn lemma_join_makes_member(v: RegistryView, room: Seq<char>, id: u128)
    ensures
        room_members(joined(v, room, id), room).contains(id),
        room_members(joined(v, room, id), room) == room_members(v, room).insert(id),
        joined(v, room, id).clients == v.clients,
{
}

/// Joining a room changes no other room.
pub proof fn lemma_join_keeps_other_rooms(v: RegistryView, room: Seq<char>, other: Seq<char>, id: u128)
    requires
        other != room,
    ensures
        room_members(joined(v, room, id), other) == room_members(v, other),
{
}

/// After a socket leaves a room it is not a member of it; no other room and
/// no connection changes.
pub proof fn lemma_leave_makes_non_member(v: RegistryView, room: Seq<char>, other: Seq<char>, id: u128)
    ensures
        !room_members(left(v, room, id), room).contains(id),
        other != room ==> room_members(left(v, room, id), other) == room_members(v, other),
        left(v, room, id).clients == v.clients,
{
}

/// Leaving a room right after joining it leaves its other members as they
/// were.
pub proof fn lemma_leave_undoes_join(v: RegistryView, room: Seq<char>, id: u128)
    ensures
        room_members(left(joined(v, room, id), room, id), room) == room_members(v, room).remove(id),
{
    assert(room_members(v, room).insert(id).remove(id) =~= room_members(v, room).remove(id));
}

/// A socket that connects is counted once more; one that is forgotten, once
/// less; forgetting a socket right after it connected restores the registry.
pub proof fn lemma_connect_count(v: RegistryView, id: u128)
    requires
        v.clients.finite(),
    ensures
        !v.clients.contains(id) ==> with_client(v, id).clients.len() == v.clients.len() + 1,
        v.clients.contains(id) ==> with_client(v, id).clients.len() == v.clients.len(),
        v.clients.contains(id) ==> without_client(v, id).clients.len() == v.clients.len() - 1,
        !v.clients.contains(id) ==> without_client(with_client(v, id), id) == v,
{
    if !v.clients.contains(id) {
        assert(v.clients.insert(id).remove(id) =~= v.clients);
    } else {
        assert(v.clients.insert(id) =~= v.clients);
    }
}

/// A broadcast to a room reaches only connected members of it; one that
/// leaves a socket out never reaches it.
pub proof fn lemma_room_audience(v: RegistryView, room: Seq<char>, id: u128)
    ensures
        room_audience(v, room).subset_of(v.clients),
        room_audience(v, room).subset_of(room_members(v, room)),
        !room_audience(v, room).remove(id).contains(id),
{
}

/// A connected socket that joins a room is reached by the room's
/// broadcasts; once it leaves the room, or goes away, it is not.
pub proof fn lemma_broadcast_follows_membership(v: RegistryView, room: Seq<char>, id: u128, names: Set<Seq<char>>, r: Seq<char>)
    ensures
        v.clients.contains(id) ==> room_audience(joined(v, room, id), room).contains(id),
        !room_audience(left(v, room, id), room).contains(id),
        !room_audience(released(v, id, names), r).contains(id),
        !released(v, id, names).clients.contains(id),
{
}

/// A socket is connected from its registration until it is forgotten or
/// released: joining and leaving rooms, and registering or forgetting other
/// sockets, do not change that.
pub proof fn lemma_connected_until_removed(v: RegistryView, id: u128, other: u128, room: Seq<char>, names: Set<Seq<char>>)
    ensures
        with_client(v, id).clients.contains(id),
        !without_client(v, id).clients.contains(id),
        !released(v, id, names).clients.contains(id),
        joined(v, room, other).clients.contains(id) == v.clients.contains(id),
        left(v, room, other).clients.contains(id) == v.clients.contains(id),
        other != id ==> with_client(v, other).clients.contains(id) == v.clients.contains(id),
        other != id ==> without_client(v, other).clients.contains(id) == v.clients.contains(id),
        other != id ==> released(v, other, names).clients.contains(id) == v.clients.contains(id),
{
}

/// The connected sockets stay exactly the live connections: a connection
/// that is accepted registers its socket, one whose reading ends is released,
/// and room changes leave the set alone.
pub proof fn lemma_registry_tracks_live_connections(v: RegistryView, live: Set<u128>, id: u128, room: Seq<char>, names: Set<Seq<char>>)
    requires
        v.clients == live,
    ensures
        with_client(v, id).clients == live.insert(id),
        released(v, id, names).clients == live.remove(id),
        joined(v, room, id).clients == live,
        left(v, room, id).clients == live,
{
}

/// A broadcast made by a handler and sent as it is, with no room and no
/// socket left out, reaches every connected socket, the sender's own too.
pub proof fn lemma_fresh_broadcast_reaches_everyone(event: Seq<char>, v: RegistryView)
    ensures
        broadcast_audience(BroadcastView { event, expect: None, room: None }, v) == v.clients,
{
}

/// A broadcast without a room reaches every connected socket, whatever socket
/// `expect` names.
pub proof fn lemma_no_room_reaches_everyone(b: BroadcastView, v: RegistryView)
    requires
        b.room is None,
    ensures
        broadcast_audience(b, v) == v.clients,
{
}

/// When a socket goes away it is no longer connected and is in none of the
/// rooms named; every other socket keeps its connection and its rooms.
pub proof fn lemma_release_forgets(v: RegistryView, id: u128, names: Set<Seq<char>>, other: u128, r: Seq<char>)
    ensures
        !released(v, id, names).clients.contains(id),
        names.contains(r) ==> !room_members(released(v, id, names), r).contains(id),
        other != id ==> (released(v, id, names).clients.contains(other) <==> v.clients.contains(other)),
        other != id ==> (room_members(released(v, id, names), r).contains(other) <==> room_members(v, r).contains(other)),
{
}

/// When a socket whose memberships are all recorded goes away, it is in no
/// room at all.
pub proof fn lemma_release_is_complete(v: RegistryView, id: u128, names: Set<Seq<char>>, r: Seq<char>)
    requires
        memberships_recorded(v, names, id),
    ensures
        !room_members(released(v, id, names), r).contains(id),
{
    if room_members(v, r).contains(id) {
        assert(names.contains(r));
    }
}

/// A peer that joins and leaves rooms through its own `join_room` and
/// `leave_room` keeps all its memberships recorded.
pub proof fn lemma_peer_keeps_record(v: RegistryView, names: Set<Seq<char>>, room: Seq<char>, id: u128)
    requires
        memberships_recorded(v, names, id),
    ensures
        memberships_recorded(joined(v, room, id), names.insert(room), id),
        memberships_recorded(left(v, room, id), names.remove(room), id),
{
    assert forall|r: Seq<char>| #[trigger] room_members(joined(v, room, id), r).contains(id) implies names.insert(room).contains(r) by {
        if r != room {
            assert(room_members(v, r).contains(id));
        }
    }
    assert forall|r: Seq<char>| #[trigger] room_members(left(v, room, id), r).contains(id) implies names.remove(room).contains(r) by {
        if r != room {
            assert(room_members(v, r).contains(id));
        }
    }
}

/// The handler registered last for an event answers it; registering one
/// event changes no other.
pub proof fn lemma_latest_handler_wins(t: Map<Seq<char>, u64>, e: Seq<char>, other: Seq<char>, h1: u64, h2: u64)
    ensures
        handler_of(t.insert(e, h1).insert(e, h2), e) == Some(h2),
        other != e ==> handler_of(t.insert(e, h1), other) == handler_of(t, other),
{
}

/// A request for an event is handed to the handler registered last for that
/// event, with the request's text; a request for an event without a handler
/// is passed over.
pub proof fn lemma_dispatch_follows_registration(t: Map<Seq<char>, u64>, h: u64, req: Request)
    ensures
        text_step(t.insert(req.event@, h), Some(req)) == (Step::Invoke { handler: h, data: req.data }),
        !t.contains_key(req.event@) ==> text_step(t, Some(req)) == Step::Skip,
        session_step(true, t.insert(req.event@, h), Incoming::Text(Some(req))) == (true, Step::Invoke { handler: h, data: req.data }),
{
}

/// A connection that stopped being read only finishes; a close frame, a
/// failed read, an ended stream, a cancellation and a failed pong stop it;
/// text, pings and other frames never do.
pub proof fn lemma_session_lifecycle(h: Map<Seq<char>, u64>, input: Incoming)
    ensures
        session_step(false, h, input) == (false, Step::Finish),
        !session_step(true, h, Incoming::Close).0,
        session_step(true, h, Incoming::Close).1 is EchoClose,
        !session_step(true, h, Incoming::ReadFailed).0,
        !session_step(true, h, Incoming::Ended).0,
        !session_step(true, h, Incoming::Cancelled).0,
        !session_step(true, h, Incoming::PongSent(false)).0,
        (input is Text || input is Ping || input is Other || input == Incoming::PongSent(true))
            ==> session_step(true, h, input).0,
{
}

/// Once the client's reading task has cancelled the client it stays
/// cancelled; a failed read always cancels; a seen cancellation always stops.
/// The first failed read runs the handler of `disconnect`, if there is one;
/// no later step runs it again.
pub proof fn lemma_client_cancel_sticks(cancelled: bool, h: Map<Seq<char>, u64>, input: ClientIncoming)
    ensures
        cancelled ==> client_step(cancelled, h, input).0,
        cancelled ==> !(client_step(cancelled, h, input).1 is Farewell),
        client_step(cancelled, h, ClientIncoming::Failed).0,
        !cancelled ==> client_step(cancelled, h, ClientIncoming::Failed).1 == (match handler_of(h, "disconnect"@) {
            Some(d) => ClientStep::Farewell { handler: d },
            None => ClientStep::Cancel,
        }),
        cancelled ==> client_step(cancelled, h, ClientIncoming::Failed).1 == ClientStep::Cancel,
        client_step(cancelled, h, ClientIncoming::Cancelled).1 is Stop,
        !(input is Failed) ==> !(client_step(cancelled, h, input).1 is Farewell),
{
}

/// A text with no quote, no backslash and no control character.
pub open spec fn is_plain_text(s: Seq<char>) -> bool {
    forall|i: int| 0 <= i < s.len() ==> s[i] != '"' && s[i] != '\\' && (s[i] as int) >= 32
}

/// A plain text stands in a JSON string as it is, between two quotes.
pub proof fn lemma_plain_text_verbatim(s: Seq<char>)
    requires
        is_plain_text(s),
    ensures
        json_escape(s) == s,
        json_string(s) == seq!['"'] + s + seq!['"'],
    decreases s.len(),
{
    if s.len() > 0 {
        let c = s.last();
        assert(is_plain_text(s.drop_last())) by {
            assert forall|i: int| 0 <= i < s.drop_last().len() implies s.drop_last()[i] != '"'
                && s.drop_last()[i] != '\\' && (s.drop_last()[i] as int) >= 32 by {
                assert(s.drop_last()[i] == s[i]);
            }
        }
        lemma_plain_text_verbatim(s.drop_last());
        assert(s[s.len() - 1] == c);
        assert(s.drop_last().push(c) =~= s);
        assert(s.drop_last() + seq![c] =~= s);
    }
}

/// A broadcast reaches exactly the connected sockets that are members of its
/// room, if it has one, other than the socket it leaves out; without a room it
/// reaches every connected socket.
pub proof fn lemma_builder_reaches_exactly(b: BroadcastView, v: RegistryView, x: u128)
    ensures
        broadcast_audience(b, v).contains(x) <==> (v.clients.contains(x) && match b.room {
            Some(r) => v.rooms.contains_key(r) && v.rooms[r].contains(x) && b.expect != Some(x),
            None => true,
        }),
{
}

/// A broadcast to a room reaches exactly its connected members.
pub proof fn lemma_room_audience_is_connected_members(v: RegistryView, room: Seq<char>, x: u128)
    ensures
        room_audience(v, room).contains(x) <==> (v.clients.contains(x) && v.rooms.contains_key(room)
            && v.rooms[room].contains(x)),
{
}

/// Joining puts exactly the joining socket into exactly that room, making
/// the room if needed; nothing else changes.
pub proof fn lemma_join_changes_only_the_joiner(v: RegistryView, room: Seq<char>, id: u128, r: Seq<char>, x: u128)
    ensures
        joined(v, room, id).clients == v.clients,
        joined(v, room, id).rooms.contains_key(r) == (v.rooms.contains_key(r) || r == room),
        joined(v, room, id).rooms.contains_key(r) ==> (joined(v, room, id).rooms[r].contains(x) <==> (
        v.rooms.contains_key(r) && v.rooms[r].contains(x)) || (r == room && x == id)),
{
}

/// Leaving takes exactly the leaving socket out of exactly that room; every
/// other membership, the rooms that exist and the connections stay.
pub proof fn lemma_leave_changes_only_the_leaver(v: RegistryView, room: Seq<char>, id: u128, r: Seq<char>, x: u128)
    ensures
        left(v, room, id).clients == v.clients,
        left(v, room, id).rooms.contains_key(r) == v.rooms.contains_key(r),
        v.rooms.contains_key(r) ==> (left(v, room, id).rooms[r].contains(x) <==> (v.rooms[r].contains(x)
            && !(r == room && x == id))),
{
}

/// Connecting and forgetting a socket change exactly that socket's
/// connection, and no room.
pub proof fn lemma_connection_changes_only_that_socket(v: RegistryView, id: u128, x: u128)
    ensures
        with_client(v, id).clients.contains(x) <==> (v.clients.contains(x) || x == id),
        without_client(v, id).clients.contains(x) <==> (v.clients.contains(x) && x != id),
        with_client(v, id).rooms == v.rooms,
        without_client(v, id).rooms == v.rooms,
{
}

/// Releasing a socket forgets exactly its connection and exactly its
/// memberships in the named rooms.
pub proof fn lemma_release_changes_only_the_released(v: RegistryView, id: u128, names: Set<Seq<char>>, r: Seq<char>, x: u128)
    ensures
        released(v, id, names).clients.contains(x) <==> (v.clients.contains(x) && x != id),
        released(v, id, names).rooms.contains_key(r) == v.rooms.contains_key(r),
        v.rooms.contains_key(r) ==> (released(v, id, names).rooms[r].contains(x) <==> (
        v.rooms[r].contains(x) && !(names.contains(r) && x == id))),
{
}

/// Every ping of an open connection, whatever its payload, empty included,
/// is answered with a pong that carries the same payload, and reading goes on.
pub proof fn lemma_every_ping_is_answered(h: Map<Seq<char>, u64>, payload: Vec<u8>)
    ensures
        session_step(true, h, Incoming::Ping(payload)) == (true, Step::Pong(payload)),
{
}

/// The client hands each event message to the handler registered last for
/// its event, with the message's text, whatever the handler's number; a
/// message for an event without a handler, or any other message, is passed
/// over; neither changes whether the client is cancelled.
pub proof fn lemma_client_dispatch_follows_registration(cancelled: bool, t: Map<Seq<char>, u64>, h: u64, req: Request)
    ensures
        client_step(cancelled, t.insert(req.event@, h), ClientIncoming::Text(req)) == (cancelled, ClientStep::Invoke { handler: h, data: req.data }),
        !t.contains_key(req.event@) ==> client_step(cancelled, t, ClientIncoming::Text(req)) == (cancelled, ClientStep::Skip),
        client_step(cancelled, t, ClientIncoming::Other) == (cancelled, ClientStep::Skip),
{
}

/// The message object lays out, in order and each whole: `{"event":`, the
/// quoted event, `,"data":`, the data, and `}`.
pub proof fn lemma_frame_layout(q: Seq<char>, d: Seq<char>)
    ensures
        frame_of(q, d).len() == q.len() + d.len() + 18,
        frame_of(q, d).subrange(0, 9) == seq!['{', '"', 'e', 'v', 'e', 'n', 't', '"', ':'],
        frame_of(q, d).subrange(9, 9 + q.len() as int) == q,
        frame_of(q, d).subrange(9 + q.len() as int, 17 + q.len() as int) == seq![',', '"', 'd', 'a', 't', 'a', '"', ':'],
        frame_of(q, d).subrange(17 + q.len() as int, 17 + q.len() as int + d.len() as int) == d,
        frame_of(q, d)[17 + q.len() as int + d.len() as int] == '}',
{
    reveal_strlit("{\"event\":");
    reveal_strlit(",\"data\":");
    reveal_strlit("}");
    let f = frame_of(q, d);
    assert(f.subrange(0, 9) =~= seq!['{', '"', 'e', 'v', 'e', 'n', 't', '"', ':']);
    assert(f.subrange(9, 9 + q.len() as int) =~= q);
    assert(f.subrange(9 + q.len() as int, 17 + q.len() as int) =~= seq![',', '"', 'd', 'a', 't', 'a', '"', ':']);
    assert(f.subrange(17 + q.len() as int, 17 + q.len() as int + d.len() as int) =~= d);
}

/// The number that a lower-case hexadecimal digit stands for.
pub open spec fn hex_value(c: char) -> int {
    if (c as int) <= 57 {
        (c as int) - 48
    } else {
        (c as int) - 87
    }
}

/// The character that an escape letter after a backslash stands for.
pub open spec fn unescape_letter(c: char) -> char {
    if c == 'b' {
        '\x08'
    } else if c == 't' {
        '\t'
    } else if c == 'n' {
        '\n'
    } else if c == 'f' {
        '\x0c'
    } else if c == 'r' {
        '\r'
    } else {
        c
    }
}

/// Reads the body of a JSON string back into its text, left to right.
pub open spec fn json_unescape(e: Seq<char>) -> Seq<char>
    decreases e.len(),
{
    if e.len() == 0 {
        Seq::empty()
    } else if e[0] == '\\' && e.len() >= 6 && e[1] == 'u' {
        seq![(hex_value(e[4]) * 16 + hex_value(e[5])) as char] + json_unescape(e.skip(6))
    } else if e[0] == '\\' && e.len() >= 2 {
        seq![unescape_letter(e[1])] + json_unescape(e.skip(2))
    } else {
        seq![e[0]] + json_unescape(e.skip(1))
    }
}

/// Escaping a text escapes its pieces one after the other.
pub proof fn lemma_escape_concat(a: Seq<char>, b: Seq<char>)
    ensures
        json_escape(a + b) == json_escape(a) + json_escape(b),
    decreases b.len(),
{
    if b.len() == 0 {
        assert(a + b =~= a);
        assert(json_escape(b) =~= Seq::<char>::empty());
        assert(json_escape(a) + json_escape(b) =~= json_escape(a));
    } else {
        lemma_escape_concat(a, b.drop_last());
        assert((a + b).drop_last() =~= a + b.drop_last());
        assert((a + b).last() == b.last());
        assert(json_escape(a) + json_escape(b) =~= json_escape(a) + json_escape(b.drop_last())
            + json_escape_char(b.last()));
    }
}

/// Reading back the escape of one character, followed by anything, gives the
/// character followed by what that reads back to.
proof fn lemma_unescape_one(c: char, rest: Seq<char>)
    ensures
        json_unescape(json_escape_char(c) + rest) == seq![c] + json_unescape(rest),
{
    let e = json_escape_char(c) + rest;
    if c == '"' || c == '\\' || c == '\x08' || c == '\t' || c == '\n' || c == '\x0c' || c == '\r' {
        assert(e[0] == '\\');
        assert(e[1] != 'u');
        assert(e.skip(2) =~= rest);
    } else if (c as int) < 32 {
        assert(e[0] == '\\' && e[1] == 'u' && e.len() >= 6);
        assert(e.skip(6) =~= rest);
        let hi = (c as int) / 16;
        let lo = (c as int) % 16;
        assert(hex_value(hex_digit(hi)) == hi);
        assert(hex_value(hex_digit(lo)) == lo);
        assert(e[4] == hex_digit(hi));
        assert(e[5] == hex_digit(lo));
        assert(hi * 16 + lo == c as int);
        assert(((c as int) as char) == c);
    } else {
        assert(e[0] == c);
        assert(e.skip(1) =~= rest);
    }
}

/// Quoting loses nothing: the body of a text's JSON string reads back to the
/// text, and the string is that body between two quotes.
pub proof fn lemma_escape_reads_back(s: Seq<char>)
    ensures
        json_unescape(json_escape(s)) == s,
        json_string(s) == seq!['"'] + json_escape(s) + seq!['"'],
    decreases s.len(),
{
    if s.len() > 0 {
        let c = s[0];
        let rest = s.skip(1);
        assert(s =~= seq![c] + rest);
        lemma_escape_concat(seq![c], rest);
        assert(seq![c].drop_last() =~= Seq::<char>::empty());
        assert(seq![c].last() == c);
        assert(json_escape(Seq::<char>::empty()) =~= Seq::<char>::empty());
        assert(json_escape(seq![c]) == json_escape(seq![c].drop_last()) + json_escape_char(c));
        assert(json_escape(seq![c]) =~= json_escape_char(c));
        lemma_unescape_one(c, json_escape(rest));
        lemma_escape_reads_back(rest);
    }
}

/// A delivery hands its text to each socket of its audience exactly once:
/// its recipients, as a set, are the audience, and there are as many of them
/// as the audience has members.
pub proof fn lemma_delivery_reaches_each_once(d: Delivery, text: Seq<char>, to: Set<u128>)
    requires
        delivers(d, text, to),
    ensures
        d.recipients@.to_set() == to,
        d.recipients@.len() == to.len(),
        d.text@ == text,
{
    assert(d.recipients@.to_set() =~= to);
    d.recipients@.unique_seq_to_set();
}

/// What an open connection does with each kind of thing it sees besides
/// text and pings: other frames and a delivered pong change nothing; a close
/// frame is echoed and ends reading; a failed read, an ended stream, a
/// cancellation and an undelivered pong end reading.
pub proof fn lemma_session_answers(h: Map<Seq<char>, u64>)
    ensures
        session_step(true, h, Incoming::Text(None)) == (true, Step::Skip),
        session_step(true, h, Incoming::Other) == (true, Step::Skip),
        session_step(true, h, Incoming::PongSent(true)) == (true, Step::Skip),
        session_step(true, h, Incoming::Close) == (false, Step::EchoClose),
        session_step(true, h, Incoming::PongSent(false)) == (false, Step::Finish),
        session_step(true, h, Incoming::ReadFailed) == (false, Step::Finish),
        session_step(true, h, Incoming::Ended) == (false, Step::Finish),
        session_step(true, h, Incoming::Cancelled) == (false, Step::Finish),
{
}

} // verus!
