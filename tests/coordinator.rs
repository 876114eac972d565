use wall_server::coordinator::{is_socket_resource, Coordinator};
use wall_server::protocol::{WsMessage, WsMessageType};

fn watching(n: u64) -> WsMessage {
    WsMessage { msg_type: WsMessageType::UsersWatching, text: None, number: Some(n) }
}

fn bruteforcing(n: u64) -> WsMessage {
    WsMessage { msg_type: WsMessageType::UsersBruteforcing, text: None, number: Some(n) }
}

fn bare(kind: WsMessageType) -> Option<WsMessage> {
    Some(WsMessage { msg_type: kind, text: None, number: None })
}

#[test]
fn three_clients_start_and_leave() {
    let mut c = Coordinator::new();
    assert_eq!(c.on_open(1), vec![watching(1), bruteforcing(0)]);
    assert_eq!(c.on_open(2), vec![watching(2), bruteforcing(0)]);
    assert_eq!(c.on_open(3), vec![watching(3), bruteforcing(0)]);
    assert_eq!(c.on_message(2, bare(WsMessageType::Start)), vec![bruteforcing(1)]);
    assert_eq!(c.on_close(2), vec![watching(2), bruteforcing(0)]);
    assert_eq!(c.watching_count(), 2);
    assert_eq!(c.bruteforcing_count(), 0);
}

#[test]
fn start_twice_broadcasts_twice() {
    let mut c = Coordinator::new();
    c.on_open(5);
    c.on_open(6);
    assert_eq!(c.on_message(5, bare(WsMessageType::Start)), vec![bruteforcing(1)]);
    assert_eq!(c.on_message(5, bare(WsMessageType::Start)), vec![bruteforcing(1)]);
    assert_eq!(c.bruteforcing_count(), 1);
}

#[test]
fn stop_from_unknown_connection_is_silent() {
    let mut c = Coordinator::new();
    c.on_open(1);
    assert_eq!(c.on_message(42, bare(WsMessageType::Stop)), vec![]);
    assert_eq!(c.on_message(42, bare(WsMessageType::Start)), vec![]);
    assert_eq!(c.watching_count(), 1);
    assert_eq!(c.bruteforcing_count(), 0);
}

#[test]
fn stop_clears_the_flag() {
    let mut c = Coordinator::new();
    c.on_open(1);
    c.on_open(2);
    c.on_message(1, bare(WsMessageType::Start));
    c.on_message(2, bare(WsMessageType::Start));
    assert_eq!(c.on_message(1, bare(WsMessageType::Stop)), vec![bruteforcing(1)]);
    assert_eq!(c.on_message(1, bare(WsMessageType::Stop)), vec![bruteforcing(1)]);
}

#[test]
fn discovery_is_relayed_once() {
    let mut c = Coordinator::new();
    c.on_open(1);
    c.on_open(2);
    c.on_message(2, bare(WsMessageType::Start));
    let msg = WsMessage {
        msg_type: WsMessageType::New,
        text: Some("abc123".to_string()),
        number: Some(9),
    };
    let expected = WsMessage {
        msg_type: WsMessageType::New,
        text: Some("abc123".to_string()),
        number: None,
    };
    assert_eq!(c.on_message(1, Some(msg)), vec![expected]);
    assert_eq!(c.watching_count(), 2);
    assert_eq!(c.bruteforcing_count(), 1);
}

#[test]
fn discovery_without_text_is_dropped() {
    let mut c = Coordinator::new();
    c.on_open(1);
    assert_eq!(c.on_message(1, bare(WsMessageType::New)), vec![]);
}

#[test]
fn undecodable_message_is_silent() {
    let mut c = Coordinator::new();
    c.on_open(1);
    c.on_message(1, bare(WsMessageType::Start));
    assert_eq!(c.on_message(1, None), vec![]);
    assert_eq!(c.watching_count(), 1);
    assert_eq!(c.bruteforcing_count(), 1);
}

#[test]
fn counter_kinds_from_clients_are_ignored() {
    let mut c = Coordinator::new();
    c.on_open(1);
    let msg = WsMessage { msg_type: WsMessageType::UsersWatching, text: None, number: Some(50) };
    assert_eq!(c.on_message(1, Some(msg)), vec![]);
    assert_eq!(c.on_message(1, bare(WsMessageType::UsersBruteforcing)), vec![]);
    assert_eq!(c.watching_count(), 1);
}

#[test]
fn error_is_handled_as_close() {
    let mut c = Coordinator::new();
    c.on_open(1);
    c.on_open(2);
    c.on_message(1, bare(WsMessageType::Start));
    assert_eq!(c.on_error(1), vec![watching(1), bruteforcing(0)]);
    assert_eq!(c.on_close(1), vec![watching(1), bruteforcing(0)]);
    assert_eq!(c.watching_count(), 1);
}

#[test]
fn repeated_close_is_not_counted_twice() {
    let mut c = Coordinator::new();
    c.on_open(1);
    c.on_open(2);
    c.on_open(3);
    c.on_close(2);
    c.on_error(2);
    c.on_close(2);
    assert_eq!(c.watching_count(), 2);
    assert_eq!(c.on_close(9), vec![watching(2), bruteforcing(0)]);
}

#[test]
fn bruteforcing_never_exceeds_watching() {
    let mut c = Coordinator::new();
    for id in 0..10u32 {
        c.on_open(id);
        c.on_message(id, bare(WsMessageType::Start));
        assert!(c.bruteforcing_count() <= c.watching_count());
    }
    assert_eq!(c.bruteforcing_count(), 10);
    for id in 0..10u32 {
        c.on_close(id);
        assert!(c.bruteforcing_count() <= c.watching_count());
    }
    assert_eq!(c.watching_count(), 0);
}

#[test]
fn only_the_socket_resource_is_upgraded() {
    assert!(is_socket_resource("/ws"));
    assert!(!is_socket_resource("/"));
    assert!(!is_socket_resource("/ws/"));
    assert!(!is_socket_resource(""));
}
