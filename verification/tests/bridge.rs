use palladium::bridge::{bridge_message, BridgeState};
use palladium::json::Json;

#[test]
fn the_message_names_the_socket_in_decimal() {
    let m = bridge_message(1234, Json::string("a"), Json::uint(9));
    assert_eq!(m.get("socketId"), Some(&Json::string("1234")));
    assert_eq!(m.get("activity"), Some(&Json::string("a")));
    assert_eq!(m.get("pid"), Some(&Json::uint(9)));
    assert_eq!(bridge_message(0, Json::Null, Json::Null).get("socketId"), Some(&Json::string("0")));
}

#[test]
fn the_last_activity_of_each_session_is_replayed() {
    let mut b = BridgeState::new();
    b.record(1, Json::string("first"), Json::Null);
    b.record(2, Json::string("other"), Json::Null);
    b.record(1, Json::string("second"), Json::Null);
    let snap = b.snapshot();
    assert_eq!(snap.len(), 2);
    assert!(snap.iter().any(|m| m.get("activity") == Some(&Json::string("second"))));
    assert!(snap.iter().any(|m| m.get("activity") == Some(&Json::string("other"))));
    assert!(!snap.iter().any(|m| m.get("activity") == Some(&Json::string("first"))));
}

#[test]
fn a_null_activity_forgets_the_session() {
    let mut b = BridgeState::new();
    b.record(7, Json::string("x"), Json::Null);
    let msg = b.record(7, Json::Null, Json::uint(3));
    assert_eq!(msg.get("activity"), Some(&Json::Null));
    assert!(b.snapshot().is_empty());
    b.record(8, Json::Null, Json::Null);
    assert!(b.snapshot().is_empty());
}
