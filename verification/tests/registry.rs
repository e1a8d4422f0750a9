use rustwave::error::RustWaveError;
use rustwave::ServerStates;
use tokio::sync::mpsc::{channel, Sender};
use tokio_tungstenite::tungstenite::Message;

fn sender() -> Sender<Message> {
    let (tx, _rx) = channel::<Message>(8);
    tx
}

fn sorted(mut v: Vec<u128>) -> Vec<u128> {
    v.sort();
    v
}

#[test]
fn clients_are_counted_and_forgotten() {
    let mut s = ServerStates::new();
    assert_eq!(s.get_client_count(), 0);
    s.insert_client(1, sender());
    s.insert_client(2, sender());
    s.insert_client(1, sender());
    assert_eq!(s.get_client_count(), 2);
    assert!(s.is_connected(1));
    assert!(!s.is_connected(3));
    s.remove_client(1);
    assert!(!s.is_connected(1));
    assert_eq!(s.get_client_count(), 1);
    s.remove_client(7);
    assert_eq!(s.get_client_count(), 1);
}

#[test]
fn room_broadcast_reaches_connected_members_only() {
    let mut s = ServerStates::new();
    s.insert_client(1, sender());
    s.insert_client(2, sender());
    s.insert_client(3, sender());
    s.insert_room("lobby", 1);
    s.insert_room("lobby", 2);
    s.insert_room("lobby", 9);
    s.insert_room("other", 3);
    let d = s.room_broadcast("lobby", "hi", "1").unwrap();
    assert_eq!(d.text, "{\"event\":\"hi\",\"data\":1}");
    assert_eq!(sorted(d.recipients), vec![1, 2]);
    let d = s.room_broadcast("nowhere", "hi", "1").unwrap();
    assert!(d.recipients.is_empty());
}

#[test]
fn room_broadcast_except_leaves_one_out() {
    let mut s = ServerStates::new();
    for id in 1..=3u128 {
        s.insert_client(id, sender());
        s.insert_room("r", id);
    }
    let d = s.room_broadcast_except("r", 2, "e", "null").unwrap();
    assert_eq!(sorted(d.recipients), vec![1, 3]);
    let d = s.room_broadcast_except("r", 42, "e", "null").unwrap();
    assert_eq!(sorted(d.recipients), vec![1, 2, 3]);
}

#[test]
fn broadcast_reaches_every_client() {
    let mut s = ServerStates::new();
    s.insert_client(5, sender());
    s.insert_client(6, sender());
    s.insert_room("r", 5);
    let d = s.broadcast("all", "\"x\"").unwrap();
    assert_eq!(d.text, "{\"event\":\"all\",\"data\":\"x\"}");
    assert_eq!(sorted(d.recipients), vec![5, 6]);
}

#[test]
fn leaving_keeps_the_room() {
    let mut s = ServerStates::new();
    s.insert_client(1, sender());
    s.insert_room("r", 1);
    s.remove_room("r", 1);
    assert!(s.room_broadcast("r", "e", "0").unwrap().recipients.is_empty());
    s.remove_room("missing", 1);
    s.insert_room("r", 1);
    assert_eq!(s.room_broadcast("r", "e", "0").unwrap().recipients, vec![1]);
}

#[test]
fn emit_to_names_an_unknown_socket() {
    let s = ServerStates::new();
    match s.emit_to(42, "e", Ok("0".to_string())) {
        Err(RustWaveError::ClientNotFound(t)) => {
            assert_eq!(t, "00000000-0000-0000-0000-00000000002a");
            assert_eq!(t, uuid::Uuid::from_u128(42).to_string());
        }
        other => panic!("unexpected {:?}", other),
    }
    let id = 0xa1a2a3a4b1b2c1c2d1d2d3d4d5d6d7d8u128;
    match s.emit_to(id, "e", Ok("0".to_string())) {
        Err(RustWaveError::ClientNotFound(t)) => assert_eq!(t, "a1a2a3a4-b1b2-c1c2-d1d2-d3d4d5d6d7d8"),
        other => panic!("unexpected {:?}", other),
    }
}

#[test]
fn emit_to_a_connected_socket() {
    let mut s = ServerStates::new();
    s.insert_client(9, sender());
    let d = s.emit_to(9, "ping", Ok("{}".to_string())).unwrap();
    assert_eq!(d.text, "{\"event\":\"ping\",\"data\":{}}");
    assert_eq!(d.recipients, vec![9]);
}

#[test]
fn emit_to_checks_the_socket_before_the_data() {
    let mut s = ServerStates::new();
    let bad = || serde_json::from_str::<u8>("not json").unwrap_err();
    assert!(matches!(s.emit_to(8, "e", Err(bad())), Err(RustWaveError::ClientNotFound(_))));
    s.insert_client(8, sender());
    assert!(matches!(s.emit_to(8, "e", Err(bad())), Err(RustWaveError::Json(_))));
}

#[test]
fn emit_to_outcome_reports_a_closed_connection() {
    assert!(ServerStates::emit_to_outcome(true).is_ok());
    assert!(matches!(ServerStates::emit_to_outcome(false), Err(RustWaveError::ConnectionClosed)));
}

#[test]
fn disconnect_targets_connected_sockets() {
    let mut s = ServerStates::new();
    s.insert_client(3, sender());
    s.insert_client(4, sender());
    assert_eq!(s.disconnect(3).unwrap(), 3);
    match s.disconnect(5) {
        Err(RustWaveError::ClientNotFound(t)) => assert_eq!(t, uuid::Uuid::from_u128(5).to_string()),
        other => panic!("unexpected {:?}", other),
    }
    assert_eq!(sorted(s.disconnect_all()), vec![3, 4]);
}

#[test]
fn sender_of_reaches_the_registered_channel() {
    let mut s = ServerStates::new();
    let (tx, mut rx) = channel::<Message>(4);
    s.insert_client(1, tx);
    let out = s.sender_of(1);
    out.try_send(Message::Text("hey".into())).unwrap();
    match rx.try_recv().unwrap() {
        Message::Text(t) => assert_eq!(t.as_str(), "hey"),
        other => panic!("unexpected {:?}", other),
    }
}

#[test]
fn release_forgets_the_socket_in_named_rooms() {
    let mut s = ServerStates::new();
    s.insert_client(1, sender());
    s.insert_client(2, sender());
    s.insert_room("a", 1);
    s.insert_room("b", 1);
    s.insert_room("a", 2);
    s.release(1, &vec!["a".to_string(), "zzz".to_string()]);
    assert!(!s.is_connected(1));
    assert!(s.is_connected(2));
    assert_eq!(s.room_broadcast("a", "e", "0").unwrap().recipients, vec![2]);
    s.insert_client(1, sender());
    assert_eq!(s.room_broadcast("b", "e", "0").unwrap().recipients, vec![1]);
}

#[test]
fn sender_of_is_the_latest_registered_channel() {
    let mut s = ServerStates::new();
    let (first, _rx1) = channel::<Message>(4);
    let (second, _rx2) = channel::<Message>(4);
    s.insert_client(1, first.clone());
    assert!(s.sender_of(1).same_channel(&first));
    s.insert_client(1, second.clone());
    assert!(s.sender_of(1).same_channel(&second));
    assert!(!s.sender_of(1).same_channel(&first));
    s.insert_room("r", 1);
    assert!(s.sender_of(1).same_channel(&second));
}
