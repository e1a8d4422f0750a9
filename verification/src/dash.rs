//! The concurrent maps and sets of `dashmap` that hold the library's state.
//! Each kind of table has a name for what it holds, and one wrapper per
//! `dashmap` method that the library calls on it.
//!
//! The library owns each table directly and changes it only through `&mut`,
//! so what a table holds before and after a call is a function of the table.
use vstd::prelude::*;
use dashmap::{DashMap, DashSet};
use tokio::sync::mpsc::Sender;
use tokio_tungstenite::tungstenite::Message;

verus! {

#[verifier::external_type_specification]
#[verifier::external_body]
#[verifier::reject_recursive_types(K)]
#[verifier::reject_recursive_types(V)]
#[verifier::reject_recursive_types(S)]
pub struct ExDashMap<K, V, S>(DashMap<K, V, S>);

#[verifier::external_type_specification]
#[verifier::external_body]
#[verifier::reject_recursive_types(K)]
#[verifier::reject_recursive_types(S)]
pub struct ExDashSet<K, S>(DashSet<K, S>);

#[verifier::external_type_specification]
#[verifier::external_body]
#[verifier::reject_recursive_types(T)]
pub struct ExSender<T>(Sender<T>);

#[verifier::external_type_specification]
#[verifier::external_body]
pub struct ExMessage(Message);

/// `Clone` of a channel sender: another handle to the same channel. A
/// `Sender` holds only its `Arc` to the channel's state, and its clone copies
/// that pointer (the count of senders lives in the shared state), so the clone
/// equals the original.
pub assume_specification<T>[ <Sender<T> as Clone>::clone ](s: &Sender<T>) -> (res: Sender<T>)
    ensures
        res == *s,
;

// ---------------------------------------------------------------------------
// Connected clients: socket id -> the channel that feeds its socket writer.
// ---------------------------------------------------------------------------

/// What a client table holds: each socket id with the sender it was stored
/// with. Senders are carried as they are, and compared only for equality.
pub uninterp spec fn client_table(m: DashMap<u128, Sender<Message>>) -> Map<u128, Sender<Message>>;

/// `DashMap::new`: a table that holds no client.
#[verifier::external_body]
pub(crate) fn clients_new() -> (m: DashMap<u128, Sender<Message>>)
    ensures
        client_table(m) =~= Map::empty(),
{
    DashMap::new()
}

/// `DashMap::insert`: afterwards the table holds `id` besides what it held
/// (the sender of an id already there is replaced).
#[verifier::external_body]
pub(crate) fn clients_insert(
    m: &mut DashMap<u128, Sender<Message>>,
    id: u128,
    sender: Sender<Message>,
)
    ensures
        client_table(*final(m)) == client_table(*old(m)).insert(id, sender),
{
    m.insert(id, sender);
}

/// `DashMap::remove`: afterwards the table no longer holds `id`; nothing
/// else changes.
#[verifier::external_body]
pub(crate) fn clients_remove(m: &mut DashMap<u128, Sender<Message>>, id: u128)
    ensures
        client_table(*final(m)) == client_table(*old(m)).remove(id),
{
    m.remove(&id);
}

/// `DashMap::contains_key`: whether the table holds `id`.
#[verifier::external_body]
pub(crate) fn clients_contains(m: &DashMap<u128, Sender<Message>>, id: u128) -> (r: bool)
    ensures
        r == client_table(*m).contains_key(id),
{
    m.contains_key(&id)
}

/// `DashMap::len`: the number of ids the table holds.
#[verifier::external_body]
pub(crate) fn clients_len(m: &DashMap<u128, Sender<Message>>) -> (r: usize)
    ensures
        r as nat == client_table(*m).dom().len(),
{
    m.len()
}

/// `DashMap::iter`, each entry mapped to its key: every id the table holds,
/// each once, in the table's own order.
#[verifier::external_body]
pub(crate) fn clients_keys(m: &DashMap<u128, Sender<Message>>) -> (r: Vec<u128>)
    ensures
        r@.no_duplicates(),
        forall|x: u128| r@.contains(x) <==> client_table(*m).contains_key(x),
{
    m.iter().map(|entry| *entry.key()).collect()
}

/// `DashMap::get` on an id that the table holds, and `Clone` of its sender:
/// the sender stored with `id`.
#[verifier::external_body]
pub(crate) fn clients_sender(m: &DashMap<u128, Sender<Message>>, id: u128) -> (r: Sender<Message>)
    requires
        client_table(*m).contains_key(id),
    ensures
        r == client_table(*m)[id],
{
    m.get(&id).unwrap().value().clone()
}

// ---------------------------------------------------------------------------
// Rooms: room name -> the set of socket ids in it.
// ---------------------------------------------------------------------------

/// The rooms that a room table holds, each with its members.
pub uninterp spec fn room_table(m: DashMap<String, DashSet<u128>>) -> Map<Seq<char>, Set<u128>>;

/// `DashMap::new`: a table that holds no room.
#[verifier::external_body]
pub(crate) fn rooms_new() -> (table: DashMap<String, DashSet<u128>>)
    ensures
        room_table(table) =~= Map::empty(),
{
    DashMap::new()
}

/// `DashMap::contains_key`: whether the table holds a room of that name.
#[verifier::external_body]
pub(crate) fn rooms_contains(m: &DashMap<String, DashSet<u128>>, room: &str) -> (r: bool)
    ensures
        r == room_table(*m).contains_key(room@),
{
    m.contains_key(room)
}

/// `DashMap::insert` of a new, empty `DashSet` under a name the table does
/// not hold yet.
#[verifier::external_body]
pub(crate) fn rooms_open(m: &mut DashMap<String, DashSet<u128>>, room: &str)
    requires
        !room_table(*old(m)).contains_key(room@),
    ensures
        room_table(*final(m)) == room_table(*old(m)).insert(room@, Set::<u128>::empty()),
{
    m.insert(room.to_string(), DashSet::new());
}

/// `DashMap::get_mut` on a room the table holds, then `DashSet::insert`
/// of `id` into its members.
#[verifier::external_body]
pub(crate) fn rooms_add_member(m: &mut DashMap<String, DashSet<u128>>, room: &str, id: u128)
    requires
        room_table(*old(m)).contains_key(room@),
    ensures
        room_table(*final(m)) == room_table(*old(m)).insert(
            room@,
            room_table(*old(m))[room@].insert(id),
        ),
{
    m.get_mut(room).unwrap().insert(id);
}

/// `DashMap::get_mut` on a room the table holds, then `DashSet::remove`
/// of `id` from its members; the room stays in the table.
#[verifier::external_body]
pub(crate) fn rooms_remove_member(m: &mut DashMap<String, DashSet<u128>>, room: &str, id: u128)
    requires
        room_table(*old(m)).contains_key(room@),
    ensures
        room_table(*final(m)) == room_table(*old(m)).insert(
            room@,
            room_table(*old(m))[room@].remove(id),
        ),
{
    m.get_mut(room).unwrap().remove(&id);
}

/// `DashMap::get` on a room the table holds, then `DashSet::iter`, each
/// entry mapped to its key: every member, each once, in the set's order.
#[verifier::external_body]
pub(crate) fn rooms_members(m: &DashMap<String, DashSet<u128>>, room: &str) -> (r: Vec<u128>)
    requires
        room_table(*m).contains_key(room@),
    ensures
        r@.no_duplicates(),
        forall|x: u128| r@.contains(x) <==> room_table(*m)[room@].contains(x),
{
    m.get(room).unwrap().iter().map(|entry| *entry.key()).collect()
}

// ---------------------------------------------------------------------------
// The rooms a peer has joined itself.
// ---------------------------------------------------------------------------

/// The room names that a set of names holds.
pub uninterp spec fn name_set(s: DashSet<String>) -> Set<Seq<char>>;

/// `DashSet::new`: a set that holds no name.
#[verifier::external_body]
pub(crate) fn names_new() -> (s: DashSet<String>)
    ensures
        name_set(s) == Set::<Seq<char>>::empty(),
{
    DashSet::new()
}

/// `DashSet::insert`: afterwards the set holds `name` besides what it held.
#[verifier::external_body]
pub(crate) fn names_insert(s: &mut DashSet<String>, name: &str)
    ensures
        name_set(*final(s)) == name_set(*old(s)).insert(name@),
{
    s.insert(name.to_string());
}

/// `DashSet::remove`: afterwards the set no longer holds `name`.
#[verifier::external_body]
pub(crate) fn names_remove(s: &mut DashSet<String>, name: &str)
    ensures
        name_set(*final(s)) == name_set(*old(s)).remove(name@),
{
    s.remove(name);
}

/// `DashSet::contains`: whether the set holds `name`.
#[verifier::external_body]
pub(crate) fn names_contains(s: &DashSet<String>, name: &str) -> (r: bool)
    ensures
        r == name_set(*s).contains(name@),
{
    s.contains(name)
}

/// `DashSet::iter`, each entry mapped to a copy of its key: every name the
/// set holds, each once, in the set's order.
#[verifier::external_body]
pub(crate) fn names_list(s: &DashSet<String>) -> (r: Vec<String>)
    ensures
        forall|i: int, j: int| 0 <= i < j < r@.len() ==> r@[i]@ != r@[j]@,
        forall|x: Seq<char>|
            name_set(*s).contains(x) <==> exists|i: int| 0 <= i < r@.len() && r@[i]@ == x,
{
    s.iter().map(|entry| entry.key().clone()).collect()
}

// ---------------------------------------------------------------------------
// Event handlers: event name -> the number under which its handler is kept.
// ---------------------------------------------------------------------------

/// The event names that a handler table holds, each with its handler number.
pub uninterp spec fn handler_table(m: DashMap<String, u64>) -> Map<Seq<char>, u64>;

/// `DashMap::new`: a table that holds no handler.
#[verifier::external_body]
pub(crate) fn handlers_new() -> (table: DashMap<String, u64>)
    ensures
        handler_table(table) =~= Map::empty(),
{
    DashMap::new()
}

/// `DashMap::insert`: afterwards `event` maps to `handler`, replacing what
/// it mapped to before.
#[verifier::external_body]
pub(crate) fn handlers_insert(m: &mut DashMap<String, u64>, event: &str, handler: u64)
    ensures
        handler_table(*final(m)) == handler_table(*old(m)).insert(event@, handler),
{
    m.insert(event.to_string(), handler);
}

/// `DashMap::contains_key`: whether `event` has a handler.
#[verifier::external_body]
pub(crate) fn handlers_contains(m: &DashMap<String, u64>, event: &str) -> (r: bool)
    ensures
        r == handler_table(*m).contains_key(event@),
{
    m.contains_key(event)
}

/// `DashMap::get` on an event that has a handler: its handler number.
#[verifier::external_body]
pub(crate) fn handlers_get(m: &DashMap<String, u64>, event: &str) -> (r: u64)
    requires
        handler_table(*m).contains_key(event@),
    ensures
        r == handler_table(*m)[event@],
{
    *m.get(event).unwrap().value()
}

} // verus!
