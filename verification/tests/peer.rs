use rustwave::broadcast_builder::BroadcastBuilder;
use rustwave::events::EventTable;
use rustwave::peer_context::PeerContext;
use rustwave::peer_emitter::PeerEmitter;
use rustwave::{Peer, ServerStates};
use tokio::sync::mpsc::{channel, Sender};
use tokio_tungstenite::tungstenite::Message;

fn sender() -> Sender<Message> {
    let (tx, _rx) = channel::<Message>(8);
    tx
}

fn sorted<T: Ord>(mut v: Vec<T>) -> Vec<T> {
    v.sort();
    v
}

#[test]
fn new_peer_has_a_random_uuid_and_nothing_else() {
    let p = Peer::new(sender());
    let q = Peer::new(sender());
    let id = uuid::Uuid::from_u128(p.get_socket_id());
    assert_eq!(id.get_version_num(), 4);
    assert_eq!(id.get_variant(), uuid::Variant::RFC4122);
    assert_ne!(p.get_socket_id(), q.get_socket_id());
    assert!(p.rooms().is_empty());
    assert_eq!(p.handler_for("message"), None);
}

#[test]
fn later_handler_replaces_earlier() {
    let mut p = Peer::new(sender());
    p.on("message", 0);
    p.on("join", 1);
    p.on("message", 2);
    assert_eq!(p.handler_for("message"), Some(2));
    assert_eq!(p.handler_for("join"), Some(1));
    assert_eq!(p.get_event().handler_for("join"), Some(1));
    assert_eq!(p.handler_for("leave"), None);
}

#[test]
fn event_table_lookup() {
    let mut t = EventTable::new();
    assert_eq!(t.handler_for("a"), None);
    t.on("a", 7);
    assert_eq!(t.handler_for("a"), Some(7));
    assert_eq!(t.handler_for("A"), None);
}

#[test]
fn peer_join_and_leave_update_both_sides() {
    let mut s = ServerStates::new();
    let mut p = Peer::new(sender());
    let id = p.get_socket_id();
    s.insert_client(id, sender());
    p.join_room(&mut s, "r1");
    p.join_room(&mut s, "r2");
    assert_eq!(sorted(p.rooms()), vec!["r1".to_string(), "r2".to_string()]);
    assert_eq!(s.room_broadcast("r1", "e", "0").unwrap().recipients, vec![id]);
    p.leave_room(&mut s, "r1");
    assert_eq!(p.rooms(), vec!["r2".to_string()]);
    assert!(s.room_broadcast("r1", "e", "0").unwrap().recipients.is_empty());
    assert_eq!(s.room_broadcast("r2", "e", "0").unwrap().recipients, vec![id]);
}

#[test]
fn peer_emit_frames_the_event() {
    let p = Peer::new(sender());
    assert_eq!(p.emit("welcome", "\"Hello\"").unwrap(), "{\"event\":\"welcome\",\"data\":\"Hello\"}");
}

#[test]
fn context_joins_only_the_registry() {
    let mut s = ServerStates::new();
    let p = Peer::new(sender());
    let id = p.get_socket_id();
    s.insert_client(id, sender());
    let ctx = PeerContext::new(id, sender());
    assert_eq!(ctx.get_socket_id(), id);
    ctx.join_room(&mut s, "room");
    assert_eq!(s.room_broadcast("room", "e", "0").unwrap().recipients, vec![id]);
    assert!(p.rooms().is_empty());
    ctx.leave_room(&mut s, "room");
    assert!(s.room_broadcast("room", "e", "0").unwrap().recipients.is_empty());
    let copy = ctx.clone();
    assert_eq!(copy.get_socket_id(), id);
}

#[test]
fn context_broadcast_to_rooms() {
    let mut s = ServerStates::new();
    for id in [10u128, 11, 12] {
        s.insert_client(id, sender());
        s.insert_room("g", id);
    }
    let ctx = PeerContext::new(10, sender());
    let d = ctx.broadcast_to(&s, "g", "m", "true").unwrap();
    assert_eq!(d.text, "{\"event\":\"m\",\"data\":true}");
    assert_eq!(sorted(d.recipients), vec![10, 11, 12]);
    let d = ctx.broadcast_to_expect(&s, "g", 10, "m", "true").unwrap();
    assert_eq!(sorted(d.recipients), vec![11, 12]);
    assert_eq!(ctx.emit("m", "1").unwrap(), "{\"event\":\"m\",\"data\":1}");
}

#[test]
fn builder_picks_its_audience() {
    let mut s = ServerStates::new();
    for id in [1u128, 2, 3] {
        s.insert_client(id, sender());
    }
    s.insert_room("g", 1);
    s.insert_room("g", 2);
    let ctx = PeerContext::new(1, sender());

    let everyone: BroadcastBuilder<u32> = ctx.broadcast("e", 5);
    assert_eq!(*everyone.data(), 5);
    let d = everyone.send(&s, "5").unwrap();
    assert_eq!(d.text, "{\"event\":\"e\",\"data\":5}");
    assert_eq!(sorted(d.recipients), vec![1, 2, 3]);

    let d = ctx.broadcast("e", 5).room("g").send(&s, "5").unwrap();
    assert_eq!(sorted(d.recipients), vec![1, 2]);

    let d = ctx.broadcast("e", 5).room("g").expect(1).send(&s, "5").unwrap();
    assert_eq!(d.recipients, vec![2]);

    let d = ctx.broadcast("e", 5).expect(1).send(&s, "5").unwrap();
    assert_eq!(sorted(d.recipients), vec![1, 2, 3]);
}

#[test]
fn emitter_sends_text_data() {
    let mut e = PeerEmitter::new(sender());
    assert_eq!(e.emit("join", "server joined".to_string()).unwrap(), "{\"event\":\"join\",\"data\":\"server joined\"}");
    let mut copy = e.clone();
    assert_eq!(copy.emit("x", "".to_string()).unwrap(), "{\"event\":\"x\",\"data\":\"\"}");
}

#[test]
fn in_room_follows_joins_and_leaves() {
    let mut s = ServerStates::new();
    let mut p = Peer::new(sender());
    assert!(!p.in_room("r"));
    p.join_room(&mut s, "r");
    assert!(p.in_room("r"));
    assert!(!p.in_room("other"));
    p.leave_room(&mut s, "r");
    assert!(!p.in_room("r"));
}

#[test]
fn peer_with_a_given_id() {
    let p = Peer::with_id(77, sender());
    assert_eq!(p.get_socket_id(), 77);
    assert!(p.rooms().is_empty());
    assert_eq!(p.handler_for("message"), None);
}
