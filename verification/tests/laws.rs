use rustwave::{Peer, ServerStates};
use tokio::sync::mpsc::{channel, Sender};
use tokio_tungstenite::tungstenite::Message;

fn sender() -> Sender<Message> {
    let (tx, _rx) = channel::<Message>(8);
    tx
}

fn sorted(mut v: Vec<u128>) -> Vec<u128> {
    v.sort();
    v
}

#[test]
fn leave_right_after_join_keeps_the_other_members() {
    let mut s = ServerStates::new();
    s.insert_client(1, sender());
    s.insert_client(2, sender());
    s.insert_room("r", 1);
    s.insert_room("r", 2);
    s.remove_room("r", 2);
    assert_eq!(s.room_broadcast("r", "e", "0").unwrap().recipients, vec![1]);
}

#[test]
fn connect_then_forget_restores_the_count() {
    let mut s = ServerStates::new();
    s.insert_client(1, sender());
    let before = s.get_client_count();
    s.insert_client(2, sender());
    assert_eq!(s.get_client_count(), before + 1);
    s.remove_client(2);
    assert_eq!(s.get_client_count(), before);
}

#[test]
fn peer_cleanup_leaves_no_membership_behind() {
    let mut s = ServerStates::new();
    let mut p = Peer::new(sender());
    let id = p.get_socket_id();
    s.insert_client(id, sender());
    s.insert_client(7, sender());
    p.join_room(&mut s, "a");
    p.join_room(&mut s, "b");
    s.insert_room("b", 7);
    s.release(id, &p.rooms());
    s.insert_client(id, sender());
    assert!(s.room_broadcast("a", "e", "0").unwrap().recipients.is_empty());
    assert_eq!(s.room_broadcast("b", "e", "0").unwrap().recipients, vec![7]);
}

#[test]
fn broadcast_follows_membership() {
    let mut s = ServerStates::new();
    let mut p = Peer::new(sender());
    let id = p.get_socket_id();
    s.insert_client(id, sender());
    s.insert_client(3, sender());
    p.join_room(&mut s, "r");
    s.insert_room("r", 3);
    assert_eq!(sorted(s.room_broadcast("r", "e", "0").unwrap().recipients), sorted(vec![id, 3]));
    p.leave_room(&mut s, "r");
    assert_eq!(s.room_broadcast("r", "e", "0").unwrap().recipients, vec![3]);
    assert_eq!(sorted(s.broadcast("e", "0").unwrap().recipients), sorted(vec![id, 3]));
    s.release(id, &p.rooms());
    assert_eq!(s.broadcast("e", "0").unwrap().recipients, vec![3]);
}

#[test]
fn plain_text_is_quoted_verbatim() {
    let text = "Hello Server! Kya haal hai?";
    assert_eq!(rustwave::wire::quote(text).unwrap(), format!("\"{}\"", text));
}
